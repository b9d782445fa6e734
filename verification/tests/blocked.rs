use mxdns::{Error, IpAddress, Ipv4, MxDns, Stage};

fn recv_error(server: &str) -> Error {
    Error::transport(
        Stage::Recv,
        server.to_string(),
        std::io::Error::from(std::io::ErrorKind::TimedOut),
    )
}

#[test]
fn empty_blocklists() {
    // 8.8.8.8
    let bootstrap = IpAddress::V4(Ipv4(8, 8, 8, 8));
    let empty: Vec<String> = Vec::new();
    let mxdns = MxDns::with_dns(bootstrap, empty);
    let checks = mxdns.on_blocklists(IpAddress::V4(Ipv4(127, 0, 0, 2)));
    assert!(checks.is_empty());
    let blocked = MxDns::is_blocked(Vec::new()).unwrap();
    assert_eq!(blocked, false);
}

#[test]
fn one_listing_outweighs_errors() {
    let results = vec![Err(recv_error("192.0.2.1:53")), Ok(false), Ok(true), Err(recv_error("192.0.2.2:53"))];
    assert!(matches!(MxDns::is_blocked(results), Ok(true)));
}

#[test]
fn errors_beside_an_answer_are_inconclusive() {
    let results = vec![Ok(false), Err(recv_error("192.0.2.1:53"))];
    assert!(matches!(MxDns::is_blocked(results), Ok(false)));
    let results = vec![Err(recv_error("192.0.2.1:53")), Ok(false)];
    assert!(matches!(MxDns::is_blocked(results), Ok(false)));
}

#[test]
fn all_errors_give_the_last_error() {
    let results = vec![Err(recv_error("192.0.2.1:53")), Err(Error::EmptyResponse("last".to_string()))];
    match MxDns::is_blocked(results) {
        Err(Error::EmptyResponse(name)) => assert_eq!(name, "last"),
        other => panic!("unexpected result: {:?}", other),
    }
}

#[test]
fn no_listing_is_not_blocked() {
    assert!(matches!(MxDns::is_blocked(vec![Ok(false), Ok(false)]), Ok(false)));
}

#[test]
fn each_stage_has_its_error() {
    let cause = || std::io::Error::from(std::io::ErrorKind::Other);
    assert!(matches!(Error::transport(Stage::Bind, "s".to_string(), cause()), Error::Bind(_)));
    match Error::transport(Stage::Connect, "8.8.8.8:53".to_string(), cause()) {
        Error::Connect(server, _) => assert_eq!(server, "8.8.8.8:53"),
        other => panic!("unexpected error: {:?}", other),
    }
    match Error::transport(Stage::Send, "8.8.8.8:53".to_string(), cause()) {
        Error::Send(server, _) => assert_eq!(server, "8.8.8.8:53"),
        other => panic!("unexpected error: {:?}", other),
    }
    match Error::transport(Stage::Recv, "8.8.8.8:53".to_string(), cause()) {
        Error::Recv(server, e) => {
            assert_eq!(server, "8.8.8.8:53");
            assert_eq!(e.kind(), std::io::ErrorKind::Other);
        }
        other => panic!("unexpected error: {:?}", other),
    }
}

#[test]
fn empty_response_is_told_apart() {
    assert!(Error::EmptyResponse("x".to_string()).is_empty_response());
    assert!(!Error::NoNameservers("x".to_string()).is_empty_response());
}

#[test]
fn messages_name_what_failed() {
    let io = || std::io::Error::from(std::io::ErrorKind::Other);
    let text = |s: &str| s.to_string();
    assert_eq!(Error::DnsQuery(text("a..b"), text("Invalid name")).message(), "a..b - bad dns query Invalid name");
    assert_eq!(Error::EmptyResponse(text("q.")).message(), "q. - response packet has no answer");
    assert_eq!(Error::ExtractIps(text("q."), text("why")).message(), "q. - extract ips");
    assert_eq!(Error::Bind(io()).message(), "query - udp bind");
    assert_eq!(Error::Connect(text("8.8.8.8:53"), io()).message(), "query - udp connect to 8.8.8.8:53");
    assert_eq!(Error::Send(text("8.8.8.8:53"), io()).message(), "query - udp send to 8.8.8.8:53");
    assert_eq!(Error::Recv(text("8.8.8.8:53"), io()).message(), "query - receive dns response from 8.8.8.8:53");
    assert_eq!(Error::ParseResponse(text("q."), text("why")).message(), "q. - cannot parse dns response");
    assert_eq!(
        Error::TcpUnsupported(text("q."), text("8.8.8.8:53")).message(),
        "q. - 8.8.8.8:53 requires TCP which is unsupported"
    );
    assert_eq!(Error::ResolvConfRead(text("/etc/resolv.conf"), io()).message(), "/etc/resolv.conf - parse error");
    assert_eq!(Error::NoNameservers(text("/etc/resolv.conf")).message(), "/etc/resolv.conf - no nameservers found");
    let cause = Box::new(Error::EmptyResponse(text("q.")));
    assert_eq!(
        Error::BlockListNameserver(text("zen.spamhaus.org."), cause).message(),
        "zen.spamhaus.org. - blocklist nameserver lookup failure"
    );
    assert_eq!(
        Error::BlockListNameserverIp(text("zen.spamhaus.org.")).message(),
        "zen.spamhaus.org. - cannot obtain ips for blocklist nameserver"
    );
    let cause = Box::new(Error::EmptyResponse(text("q.")));
    assert_eq!(
        Error::BlockListLookup(text("zen.spamhaus.org."), cause).message(),
        "zen.spamhaus.org. - blocklist lookup failure"
    );
    assert_eq!(Error::NotIpv4(IpAddress::V6(1 << 64)).message(), "cannot convert IP6 to IP4");
    match MxDns::new(b"nameserver x\n", Vec::new()) {
        Err(e) => assert_eq!(e.message(), "/etc/resolv.conf - parse error"),
        Ok(_) => panic!("accepted"),
    }
}
