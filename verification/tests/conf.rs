use mxdns::{Error, IpAddress, Ipv4, MxDns, ServerAddr};

#[test]
fn first_nameserver_is_the_bootstrap_server() {
    let conf = b"# a comment\nnameserver 192.0.2.7\nnameserver 8.8.8.8\nsearch example.com\n";
    let mxdns = MxDns::new(conf, vec!["zen.spamhaus.org.".to_string()]).unwrap();
    assert_eq!(mxdns.bootstrap().dns_server, ServerAddr { ip: IpAddress::V4(Ipv4(192, 0, 2, 7)), port: 53 });
    assert_eq!(mxdns.blocklists(), &vec!["zen.spamhaus.org.".to_string()]);
}

#[test]
fn ipv6_nameserver_is_accepted() {
    let mxdns = MxDns::new(b"nameserver 2001:db8::53\n", Vec::new()).unwrap();
    assert_eq!(mxdns.bootstrap().dns_server.ip, IpAddress::V6(0x2001_0db8u128 << 96 | 0x53));
}

#[test]
fn no_nameserver_is_an_error() {
    match MxDns::new(b"search example.com\n", vec!["zen.spamhaus.org.".to_string()]) {
        Err(Error::NoNameservers(file)) => assert_eq!(file, "/etc/resolv.conf"),
        other => panic!("unexpected result: {:?}", other),
    }
    match MxDns::new(b"", Vec::new()) {
        Err(e) => assert_eq!(e.message(), "/etc/resolv.conf - no nameservers found"),
        Ok(_) => panic!("accepted"),
    }
    assert!(matches!(MxDns::new(b"# nameserver 8.8.8.8\n", Vec::new()), Err(Error::NoNameservers(_))));
}

#[test]
fn bad_configuration_is_refused() {
    match MxDns::new(b"nameserver not-an-address\n", Vec::new()) {
        Err(Error::ResolvConfParse(file, _)) => assert_eq!(file, "/etc/resolv.conf"),
        other => panic!("unexpected result: {:?}", other),
    }
    assert_eq!(mxdns::RESOLV_CONF, "/etc/resolv.conf");
}
