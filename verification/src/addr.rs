//! Addresses, and the query names that are built from their octets.
use vstd::prelude::*;
use vstd::string::StringSliceAdditionalSpecFns;

verus! {

/// An IPv4 address, as its four octets in the order in which they are written.
#[derive(Clone, Copy, Debug, PartialEq, Eq, Structural)]
pub struct Ipv4(pub u8, pub u8, pub u8, pub u8);

impl Ipv4 {
    /// The address with the given octets.
    pub fn from_octets(octets: [u8; 4]) -> (ip: Ipv4)
        ensures
            ip == Ipv4(octets[0], octets[1], octets[2], octets[3]),
    {
        Ipv4(octets[0], octets[1], octets[2], octets[3])
    }

    /// The four octets of the address.
    pub fn octets(&self) -> (octets: [u8; 4])
        ensures
            octets@ == seq![self.0, self.1, self.2, self.3],
    {
        let octets: [u8; 4] = [self.0, self.1, self.2, self.3];
        assert(octets@ =~= seq![self.0, self.1, self.2, self.3]);
        octets
    }
}

/// An IP address of either family. An IPv6 address is held as its 128 bits,
/// the first octet in the most significant place.
#[derive(Clone, Copy, Debug, PartialEq, Eq, Structural)]
pub enum IpAddress {
    V4(Ipv4),
    V6(u128),
}

/// The address and port of a DNS server.
#[derive(Clone, Copy, Debug, PartialEq, Eq, Structural)]
pub struct ServerAddr {
    pub ip: IpAddress,
    pub port: u16,
}

/// The port that DNS servers listen on.
pub const DNS_PORT: u16 = 53;

/// The byte `.`, which separates the labels of a name.
pub const DOT: u8 = 46;

/// The last 32 bits of an IPv6 address, read as an IPv4 address.
pub open spec fn embedded_ipv4(bits: u128) -> Ipv4 {
    Ipv4(
        ((bits >> 24) & 0xff) as u8,
        ((bits >> 16) & 0xff) as u8,
        ((bits >> 8) & 0xff) as u8,
        (bits & 0xff) as u8,
    )
}

/// Whether an IPv6 address embeds an IPv4 address: it is IPv4-mapped
/// (`::ffff:a.b.c.d`) or IPv4-compatible (`::a.b.c.d`).
pub open spec fn embeds_ipv4(bits: u128) -> bool {
    bits >> 32 == 0xffff || bits >> 32 == 0
}

/// The IPv4 address that stands for `ip` in blocklist and reverse lookups.
pub open spec fn spec_to_ipv4(ip: IpAddress) -> Option<Ipv4> {
    match ip {
        IpAddress::V4(v4) => Some(v4),
        IpAddress::V6(bits) => if embeds_ipv4(bits) {
            Some(embedded_ipv4(bits))
        } else {
            None
        },
    }
}

/// Reduces an address to IPv4. An IPv4 address is returned as it is, an IPv6
/// address gives the IPv4 address in its last 32 bits where it is IPv4-mapped
/// or IPv4-compatible, and nothing otherwise.
pub fn to_ipv4(ip: IpAddress) -> (r: Option<Ipv4>)
    ensures
        r == spec_to_ipv4(ip),
{
    match ip {
        IpAddress::V4(v4) => Some(v4),
        IpAddress::V6(bits) => {
            let high: u128 = bits >> 32;
            if high == 0xffff || high == 0 {
                Some(
                    Ipv4(
                        ((bits >> 24) & 0xff) as u8,
                        ((bits >> 16) & 0xff) as u8,
                        ((bits >> 8) & 0xff) as u8,
                        (bits & 0xff) as u8,
                    ),
                )
            } else {
                None
            }
        },
    }
}

/// The ASCII digit for `d`.
pub open spec fn digit(d: int) -> u8 {
    (48 + d) as u8
}

/// An octet written in decimal, without leading zeros.
pub open spec fn decimal(n: u8) -> Seq<u8> {
    if n >= 100 {
        seq![digit(n as int / 100), digit((n as int / 10) % 10), digit(n as int % 10)]
    } else if n >= 10 {
        seq![digit(n as int / 10), digit(n as int % 10)]
    } else {
        seq![digit(n as int)]
    }
}

/// The octets of `ip` in reverse order, each in decimal and followed by a dot,
/// and then `suffix`.
pub open spec fn spec_reverse_name(ip: Ipv4, suffix: Seq<u8>) -> Seq<u8> {
    decimal(ip.3) + seq![DOT] + decimal(ip.2) + seq![DOT] + decimal(ip.1) + seq![DOT] + decimal(
        ip.0,
    ) + seq![DOT] + suffix
}

/// The zone of reverse lookups, `in-addr.arpa.`.
pub open spec fn arpa_zone() -> Seq<u8> {
    seq![105u8, 110, 45, 97, 100, 100, 114, 46, 97, 114, 112, 97, 46]
}

/// The name to look up for the reverse DNS entry of `ip`.
pub open spec fn spec_ptr_name(ip: Ipv4) -> Seq<u8> {
    spec_reverse_name(ip, arpa_zone())
}

/// Appends `n` in decimal to `out`.
fn push_decimal(out: &mut Vec<u8>, n: u8)
    ensures
        final(out)@ == old(out)@ + decimal(n),
{
    if n >= 100 {
        out.push(48 + n / 100);
        out.push(48 + (n / 10) % 10);
        out.push(48 + n % 10);
    } else if n >= 10 {
        out.push(48 + n / 10);
        out.push(48 + n % 10);
    } else {
        out.push(48 + n);
    }
    assert(out@ =~= old(out)@ + decimal(n));
}

/// Builds the name that asks about `ip` below `suffix`: the octets of `ip` in
/// reverse order, dot separated, with `suffix` appended.
pub fn reverse_name(ip: Ipv4, suffix: &[u8]) -> (name: Vec<u8>)
    ensures
        name@ == spec_reverse_name(ip, suffix@),
{
    let mut name: Vec<u8> = Vec::new();
    push_decimal(&mut name, ip.3);
    name.push(DOT);
    push_decimal(&mut name, ip.2);
    name.push(DOT);
    push_decimal(&mut name, ip.1);
    name.push(DOT);
    push_decimal(&mut name, ip.0);
    name.push(DOT);
    name.extend_from_slice(suffix);
    assert(name@ =~= spec_reverse_name(ip, suffix@));
    name
}

/// Builds the name whose lookup tells whether `ip` is listed in the blocklist
/// `zone`: for `127.0.0.2` and `zen.spamhaus.org.` it is
/// `2.0.0.127.zen.spamhaus.org.`.
pub fn query_name(ip: Ipv4, zone: &str) -> (name: Vec<u8>)
    ensures
        name@ == spec_reverse_name(ip, zone.spec_bytes()),
{
    reverse_name(ip, zone.as_bytes())
}

/// Builds the name whose lookup gives the reverse DNS entry of `ip`: for
/// `193.25.101.5` it is `5.101.25.193.in-addr.arpa.`.
pub fn ptr_name(ip: Ipv4) -> (name: Vec<u8>)
    ensures
        name@ == spec_ptr_name(ip),
{
    let zone: [u8; 13] = [105, 110, 45, 97, 100, 100, 114, 46, 97, 114, 112, 97, 46];
    assert(zone@ =~= arpa_zone());
    reverse_name(ip, zone.as_slice())
}

} // verus!
