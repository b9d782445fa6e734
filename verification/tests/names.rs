use mxdns::addr::{ptr_name, query_name, reverse_name, to_ipv4};
use mxdns::{IpAddress, Ipv4};

#[test]
fn query_name_reverses_the_octets() {
    let name = query_name(Ipv4(127, 0, 0, 2), "zen.spamhaus.org.");
    assert_eq!(name, b"2.0.0.127.zen.spamhaus.org.".to_vec());
}

#[test]
fn ptr_name_ends_in_the_reverse_zone() {
    let name = ptr_name(Ipv4(193, 25, 101, 5));
    assert_eq!(name, b"5.101.25.193.in-addr.arpa.".to_vec());
}

#[test]
fn octets_are_written_without_leading_zeros() {
    assert_eq!(reverse_name(Ipv4(0, 9, 10, 255), b"x."), b"255.10.9.0.x.".to_vec());
    assert_eq!(reverse_name(Ipv4(100, 99, 101, 7), b""), b"7.101.99.100.".to_vec());
}

#[test]
fn query_name_is_a_function_of_its_arguments() {
    let ip = Ipv4(116, 203, 10, 186);
    assert_eq!(query_name(ip, "bl.spamcop.net."), query_name(ip, "bl.spamcop.net."));
    assert_eq!(query_name(ip, "bl.spamcop.net."), b"186.10.203.116.bl.spamcop.net.".to_vec());
}

#[test]
fn ipv4_is_kept() {
    assert_eq!(to_ipv4(IpAddress::V4(Ipv4(8, 8, 4, 4))), Some(Ipv4(8, 8, 4, 4)));
}

#[test]
fn mapped_ipv6_is_reduced() {
    let mapped: u128 = 0xffff_c000_0280;
    assert_eq!(to_ipv4(IpAddress::V6(mapped)), Some(Ipv4(192, 0, 2, 128)));
}

#[test]
fn compatible_ipv6_is_reduced() {
    let compatible: u128 = 0x7f00_0002;
    assert_eq!(to_ipv4(IpAddress::V6(compatible)), Some(Ipv4(127, 0, 0, 2)));
}

#[test]
fn other_ipv6_is_not_reduced() {
    let documentation: u128 = 0x2001_0db8_0000_0000_0000_0000_0000_0001;
    assert_eq!(to_ipv4(IpAddress::V6(documentation)), None);
    assert_eq!(to_ipv4(IpAddress::V6(1u128 << 32)), None);
}

#[test]
fn octets_round_trip() {
    let ip = Ipv4::from_octets([10, 20, 30, 40]);
    assert_eq!(ip, Ipv4(10, 20, 30, 40));
    assert_eq!(ip.octets(), [10, 20, 30, 40]);
}
