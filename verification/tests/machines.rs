use mxdns::blocklist::CheckPhase;
use mxdns::fcrdns::ConfirmPhase;
use mxdns::wire::RecordType;
use mxdns::{BlockList, Check, Confirm, Error, FCrDNS, IpAddress, Ipv4, MxDns, NsPolicy, Query, Reply, Resolve, Reverse, Step};

const RESPONSE: u16 = 0x8180;
const TRUNCATED: u16 = 0x8380;

fn bootstrap_ip() -> IpAddress {
    IpAddress::V4(Ipv4(8, 8, 8, 8))
}

fn reply_to(query: &Query, flags: u16, answers: &[(u16, Vec<u8>)]) -> Reply {
    let mut out = query.packet.clone();
    out[2..4].copy_from_slice(&flags.to_be_bytes());
    out[6..8].copy_from_slice(&(answers.len() as u16).to_be_bytes());
    for (rr_type, rdata) in answers {
        out.extend_from_slice(&[0xc0, 0x0c]);
        out.extend_from_slice(&rr_type.to_be_bytes());
        out.extend_from_slice(&[0, 1]);
        out.extend_from_slice(&[0, 0, 0, 60]);
        out.extend_from_slice(&(rdata.len() as u16).to_be_bytes());
        out.extend_from_slice(rdata);
    }
    Reply::Datagram(out)
}

// (fqdn, has_nameserver)
fn blocklists() -> Vec<(&'static str, bool)> {
    vec![
        ("zen.spamhaus.org.", true),
        ("bl.spamcop.net.", false),
        ("dnsbl-1.uceprotect.net.", true),
        ("pbsl.surriel.com.", false),
    ]
}

fn build_mx_dns() -> MxDns {
    let blocklists = blocklists().iter().map(|t| t.0.to_string()).collect::<Vec<String>>();
    MxDns::with_dns(bootstrap_ip(), blocklists)
}

// A network in which the zones marked so have the nameserver `ns.` + zone at
// 192.0.2.53, every blocklist lists 127.0.0.2, `dnsbl-1.uceprotect.net.` lists
// 127.0.0.3 as well, and nothing else is listed, 116.203.10.186
// and 116.203.3.137 map back to `mail.alienscience.org.`, which resolves to
// the latter, 209.85.167.66 maps back to a name that resolves to it, and
// 127.0.0.2 maps back to `localhost.`, which resolves to 127.0.0.1.
fn network(query: &Query, asked: &mut Vec<(String, u16)>) -> Reply {
    let name = String::from_utf8(query.name.clone()).unwrap();
    asked.push((name.clone(), query.kind.number()));
    let bootstrap = Resolve::with_server(bootstrap_ip()).dns_server;
    let nameserver = Resolve::with_server(IpAddress::V4(Ipv4(192, 0, 2, 53))).dns_server;
    match query.kind {
        RecordType::Ns => {
            assert_eq!(query.server, bootstrap);
            let known = blocklists().iter().any(|t| t.0 == name && t.1);
            if known {
                let mut target = b"\x02ns".to_vec();
                target.extend_from_slice(&[0xc0, 0x0c]);
                reply_to(query, RESPONSE, &[(2, target)])
            } else {
                reply_to(query, RESPONSE, &[])
            }
        }
        RecordType::Ptr => {
            assert_eq!(query.server, bootstrap);
            match name.as_str() {
                "186.10.203.116.in-addr.arpa." | "137.3.203.116.in-addr.arpa." => {
                    reply_to(query, RESPONSE, &[(12, b"\x04mail\x0calienscience\x03org\x00".to_vec())])
                }
                "66.167.85.209.in-addr.arpa." => {
                    reply_to(query, RESPONSE, &[(12, b"\x02mx\x06google\x03com\x00".to_vec())])
                }
                "2.0.0.127.in-addr.arpa." => reply_to(query, RESPONSE, &[(12, b"\x09localhost\x00".to_vec())]),
                _ => reply_to(query, RESPONSE, &[]),
            }
        }
        RecordType::A => {
            if name.starts_with("ns.") {
                assert_eq!(query.server, bootstrap);
                return reply_to(query, RESPONSE, &[(1, vec![192, 0, 2, 53])]);
            }
            for (zone, has_nameserver) in blocklists() {
                if name.ends_with(zone) {
                    assert_eq!(query.server, if has_nameserver { nameserver } else { bootstrap });
                    let only_here = zone == "dnsbl-1.uceprotect.net." && name.starts_with("3.0.0.127.");
                    return if name == format!("2.0.0.127.{}", zone) || only_here {
                        reply_to(query, RESPONSE, &[(1, vec![127, 0, 0, 2])])
                    } else {
                        reply_to(query, RESPONSE, &[])
                    };
                }
            }
            assert_eq!(query.server, bootstrap);
            match name.as_str() {
                "mail.alienscience.org." => reply_to(query, RESPONSE, &[(1, vec![116, 203, 3, 137])]),
                "mx.google.com." => reply_to(query, RESPONSE, &[(1, vec![209, 85, 167, 1]), (1, vec![209, 85, 167, 66])]),
                "localhost." => reply_to(query, RESPONSE, &[(1, vec![127, 0, 0, 1])]),
                _ => reply_to(query, RESPONSE, &[]),
            }
        }
    }
}

fn run_check(mut step: Step<Check, bool>, asked: &mut Vec<(String, u16)>) -> Result<bool, Error> {
    loop {
        match step {
            Step::Done(result) => return result,
            Step::Ask(check) => {
                let reply = network(check.query(), asked);
                step = check.resume(reply);
            }
        }
    }
}

fn run_confirm(mut step: Step<Confirm, FCrDNS>, asked: &mut Vec<(String, u16)>) -> Result<FCrDNS, Error> {
    loop {
        match step {
            Step::Done(result) => return result,
            Step::Ask(check) => {
                let reply = network(check.query(), asked);
                step = check.resume(reply);
            }
        }
    }
}

fn run_reverse(mut step: Step<Reverse, Option<String>>, asked: &mut Vec<(String, u16)>) -> Result<Option<String>, Error> {
    loop {
        match step {
            Step::Done(result) => return result,
            Step::Ask(lookup) => {
                let reply = network(lookup.query(), asked);
                step = lookup.resume(reply);
            }
        }
    }
}

fn is_blocked(mxdns: &MxDns, ip: [u8; 4]) -> Result<bool, Error> {
    let mut asked = Vec::new();
    let checks = mxdns.on_blocklists(IpAddress::V4(Ipv4::from_octets(ip)));
    // the checks end in another order than the one in which they were started
    let mut ended = Vec::new();
    for (i, check) in checks.into_iter().enumerate().rev() {
        ended.push((i, run_check(check, &mut asked)));
    }
    let results = mxdns::join_all(mxdns.blocklists().len(), ended).unwrap();
    MxDns::is_blocked(results)
}

#[test]
fn blocklist_addrs() {
    let mxdns = build_mx_dns();
    assert_eq!(mxdns::resolve::server_text(&mxdns.bootstrap().dns_server), "8.8.8.8:53");
    let blocklists = blocklists();
    let checks = mxdns.on_blocklists(IpAddress::V4(Ipv4(127, 0, 0, 2)));
    assert_eq!(checks.len(), blocklists.len());
    for (i, check) in checks.into_iter().enumerate() {
        let b = blocklists[i];
        let mut asked = Vec::new();
        assert!(matches!(run_check(check, &mut asked), Ok(true)));
        let found = asked.iter().any(|q| q.0 == format!("ns.{}", b.0) && q.1 == 1);
        if b.1 {
            assert!(found, "no NS for {}", b.0);
            assert_eq!(asked.len(), 3);
        } else {
            assert!(!found, "unexpected NS for {}", b.0);
            assert_eq!(asked.len(), 2);
        }
        assert_eq!(asked[0], (b.0.to_string(), 2));
        assert_eq!(asked[asked.len() - 1], (format!("2.0.0.127.{}", b.0), 1));
    }
}

#[test]
fn not_blocked() {
    let mxdns = build_mx_dns();
    let blocked = is_blocked(&mxdns, [127, 0, 0, 1]).unwrap();
    assert_eq!(blocked, false);
}

#[test]
fn blocked() {
    let mxdns = build_mx_dns();
    let blocked = is_blocked(&mxdns, [127, 0, 0, 2]).unwrap();
    assert_eq!(blocked, true);
}

#[test]
fn reverse_lookup() {
    let mxdns = build_mx_dns();
    // 116.203.10.186
    let addr = IpAddress::V4(Ipv4(116, 203, 10, 186));
    let reverse = run_reverse(mxdns.reverse_dns(addr), &mut Vec::new()).unwrap().unwrap();
    assert_eq!(reverse, "mail.alienscience.org.");
}

#[test]
fn fcrdns_ok() {
    let mxdns = build_mx_dns();
    let res = run_confirm(mxdns.fcrdns(IpAddress::V4(Ipv4(116, 203, 3, 137))), &mut Vec::new());
    assert!(matches!(res, Ok(FCrDNS::Confirmed(_))), "Valid mail server failed fcrdns: {:?}", res);
}

#[test]
fn fcrdns_google_ok() {
    let mxdns = build_mx_dns();
    let res = run_confirm(mxdns.fcrdns(IpAddress::V4(Ipv4(209, 85, 167, 66))), &mut Vec::new());
    assert!(matches!(res, Ok(FCrDNS::Confirmed(_))), "Valid google server failed fcrdns: {:?}", res);
}

#[test]
fn fcrdns_fail() {
    let mxdns = build_mx_dns();
    let res = run_confirm(mxdns.fcrdns(IpAddress::V4(Ipv4(127, 0, 0, 2))), &mut Vec::new());
    // 127.0.0.2 -> localhost -> 127.0.0.1
    assert!(
        matches!(res, Ok(FCrDNS::NoReverse) | Ok(FCrDNS::UnConfirmed(_))),
        "Known bad forward confirm failed: {:?}",
        res
    );
}

#[test]
fn fcrdns_names_what_it_found() {
    let mxdns = build_mx_dns();
    let mut asked = Vec::new();
    let res = run_confirm(mxdns.fcrdns(IpAddress::V4(Ipv4(116, 203, 3, 137))), &mut asked).unwrap();
    assert_eq!(res, FCrDNS::Confirmed("mail.alienscience.org.".to_string()));
    assert_eq!(asked, vec![("137.3.203.116.in-addr.arpa.".to_string(), 12), ("mail.alienscience.org.".to_string(), 1)]);
    // the name of 116.203.10.186 resolves to another address
    let res = run_confirm(mxdns.fcrdns(IpAddress::V4(Ipv4(116, 203, 10, 186))), &mut Vec::new()).unwrap();
    assert_eq!(res, FCrDNS::UnConfirmed("mail.alienscience.org.".to_string()));
    let res = run_confirm(mxdns.fcrdns(IpAddress::V4(Ipv4(127, 0, 0, 2))), &mut Vec::new()).unwrap();
    assert_eq!(res, FCrDNS::UnConfirmed("localhost.".to_string()));
}

#[test]
fn no_reverse_entry_ends_the_check() {
    let mxdns = build_mx_dns();
    let mut asked = Vec::new();
    let res = run_confirm(mxdns.fcrdns(IpAddress::V4(Ipv4(10, 1, 2, 3))), &mut asked).unwrap();
    assert_eq!(res, FCrDNS::NoReverse);
    assert_eq!(asked.len(), 1);
    assert_eq!(run_reverse(mxdns.reverse_dns(IpAddress::V4(Ipv4(10, 1, 2, 3))), &mut asked).unwrap(), None);
}

#[test]
fn is_confirmed_for_confirmed_only() {
    assert!(FCrDNS::Confirmed("a.".to_string()).is_confirmed());
    assert!(!FCrDNS::UnConfirmed("a.".to_string()).is_confirmed());
    assert!(!FCrDNS::NoReverse.is_confirmed());
}

#[test]
fn confirm_looks_for_the_address() {
    let x = Ipv4(192, 0, 2, 1);
    let y = IpAddress::V4(Ipv4(192, 0, 2, 2));
    let d = "d.example.".to_string();
    assert_eq!(FCrDNS::confirm(x, d.clone(), &vec![IpAddress::V4(x), y]), FCrDNS::Confirmed(d.clone()));
    assert_eq!(FCrDNS::confirm(x, d.clone(), &vec![y, IpAddress::V4(x)]), FCrDNS::Confirmed(d.clone()));
    assert_eq!(FCrDNS::confirm(x, d.clone(), &vec![y]), FCrDNS::UnConfirmed(d.clone()));
    assert_eq!(FCrDNS::confirm(x, d.clone(), &Vec::new()), FCrDNS::UnConfirmed(d.clone()));
    let mapped = IpAddress::V6(0xffff_c000_0201);
    assert_eq!(FCrDNS::confirm(x, d.clone(), &vec![mapped]), FCrDNS::UnConfirmed(d));
}

#[test]
fn truncated_reply_ends_the_check_at_once() {
    let mxdns = build_mx_dns();
    let step = mxdns.check_blocklist("zen.spamhaus.org.", IpAddress::V4(Ipv4(127, 0, 0, 2)));
    let check = match step {
        Step::Ask(check) => check,
        Step::Done(r) => panic!("ended early: {:?}", r),
    };
    assert_eq!(check.phase, CheckPhase::Nameserver);
    let reply = reply_to(check.query(), TRUNCATED, &[]);
    match check.resume(reply) {
        Step::Done(Err(Error::BlockListNameserver(zone, cause))) => {
            assert_eq!(zone, "zen.spamhaus.org.");
            match *cause {
                Error::TcpUnsupported(name, server) => {
                    assert_eq!(name, "zen.spamhaus.org.");
                    assert_eq!(server, "8.8.8.8:53");
                }
                other => panic!("unexpected cause: {:?}", other),
            }
        }
        other => panic!("unexpected step: {:?}", other),
    }
}

#[test]
fn truncated_listing_is_a_lookup_error() {
    let list = BlockList::new(Resolve::with_server(bootstrap_ip()), "bl.spamcop.net.");
    let asked = list.query(Ipv4(127, 0, 0, 2)).unwrap();
    assert_eq!(asked.name, b"2.0.0.127.bl.spamcop.net.".to_vec());
    let reply = reply_to(&asked, TRUNCATED, &[(1, vec![127, 0, 0, 2])]);
    match list.is_blocked(&asked, reply) {
        Err(Error::BlockListLookup(zone, cause)) => {
            assert_eq!(zone, "bl.spamcop.net.");
            assert!(matches!(*cause, Error::TcpUnsupported(_, _)));
        }
        other => panic!("unexpected result: {:?}", other),
    }
}

#[test]
fn verdict_reads_the_lookup() {
    let list = BlockList::new(Resolve::with_server(bootstrap_ip()), "bl.spamcop.net.");
    assert!(matches!(list.verdict(Ok(vec![IpAddress::V4(Ipv4(127, 0, 0, 4))])), Ok(true)));
    assert!(matches!(list.verdict(Ok(vec![IpAddress::V4(Ipv4(10, 0, 0, 4))])), Ok(true)));
    assert!(matches!(list.verdict(Ok(Vec::new())), Ok(false)));
    assert!(matches!(list.verdict(Err(Error::EmptyResponse("q".to_string()))), Ok(false)));
    match list.verdict(Err(Error::NoNameservers("q".to_string()))) {
        Err(Error::BlockListLookup(zone, cause)) => {
            assert_eq!(zone, "bl.spamcop.net.");
            assert!(matches!(*cause, Error::NoNameservers(_)));
        }
        other => panic!("unexpected result: {:?}", other),
    }
}

#[test]
fn unmapped_ipv6_fails_before_anything_is_sent() {
    let mxdns = build_mx_dns();
    let v6 = IpAddress::V6(0x2001_0db8u128 << 96 | 1);
    for check in mxdns.on_blocklists(v6) {
        assert!(matches!(check, Step::Done(Err(Error::NotIpv4(ip))) if ip == v6));
    }
    assert!(matches!(mxdns.fcrdns(v6), Step::Done(Err(Error::NotIpv4(_)))));
    assert!(matches!(mxdns.reverse_dns(v6), Step::Done(Err(Error::NotIpv4(_)))));
}

#[test]
fn mapped_ipv6_is_checked_as_ipv4() {
    let mxdns = build_mx_dns();
    let mapped = IpAddress::V6(0xffff_7f00_0002);
    let mut asked = Vec::new();
    let step = mxdns.check_blocklist("bl.spamcop.net.", mapped);
    assert!(matches!(run_check(step, &mut asked), Ok(true)));
    assert_eq!(asked[1].0, "2.0.0.127.bl.spamcop.net.");
}

#[test]
fn reverse_answers_without_name_are_an_error() {
    let mxdns = build_mx_dns();
    let lookup = match mxdns.reverse_dns(IpAddress::V4(Ipv4(192, 0, 2, 9))) {
        Step::Ask(lookup) => lookup,
        Step::Done(r) => panic!("ended early: {:?}", r),
    };
    assert_eq!(lookup.query().name, b"9.2.0.192.in-addr.arpa.".to_vec());
    let reply = reply_to(lookup.query(), RESPONSE, &[(1, vec![1, 2, 3, 4])]);
    match lookup.resume(reply) {
        Step::Done(Err(Error::EmptyResponse(name))) => assert_eq!(name, "9.2.0.192.in-addr.arpa."),
        other => panic!("unexpected step: {:?}", other),
    }
}

#[test]
fn failed_forward_lookup_fails_the_check() {
    let mxdns = build_mx_dns();
    let check = match mxdns.fcrdns(IpAddress::V4(Ipv4(116, 203, 3, 137))) {
        Step::Ask(check) => check,
        Step::Done(r) => panic!("ended early: {:?}", r),
    };
    let reply = network(check.query(), &mut Vec::new());
    let check = match check.resume(reply) {
        Step::Ask(check) => check,
        Step::Done(r) => panic!("ended early: {:?}", r),
    };
    assert_eq!(check.phase, ConfirmPhase::Forward);
    assert!(check.resume(Reply::Datagram(vec![0; 3])).is_done());
    let check = match mxdns.fcrdns(IpAddress::V4(Ipv4(116, 203, 3, 137))) {
        Step::Ask(check) => check,
        Step::Done(r) => panic!("ended early: {:?}", r),
    };
    let failed = Reply::Failed(mxdns::Stage::Recv, std::io::Error::from(std::io::ErrorKind::TimedOut));
    assert!(matches!(check.resume(failed), Step::Done(Err(Error::Recv(_, _)))));
}

#[test]
fn zone_that_cannot_be_asked_about() {
    let mxdns = build_mx_dns();
    match mxdns.check_blocklist("bad..zone.", IpAddress::V4(Ipv4(127, 0, 0, 2))) {
        Step::Done(Err(Error::BlockListNameserver(zone, cause))) => {
            assert_eq!(zone, "bad..zone.");
            match *cause {
                Error::DnsQuery(name, why) => {
                    assert_eq!(name, "bad..zone.");
                    assert!(!why.is_empty());
                }
                other => panic!("unexpected cause: {:?}", other),
            }
        }
        other => panic!("unexpected step: {:?}", other),
    }
    let long = format!("{}.", "a".repeat(70));
    let list = BlockList::new(Resolve::with_server(bootstrap_ip()), &long);
    match list.query(Ipv4(127, 0, 0, 2)) {
        Err(Error::BlockListLookup(zone, cause)) => {
            assert_eq!(zone, long);
            match *cause {
                Error::DnsQuery(name, _) => assert_eq!(name, format!("2.0.0.127.{}", long)),
                other => panic!("unexpected cause: {:?}", other),
            }
        }
        other => panic!("unexpected result: {:?}", other),
    }
}

#[test]
fn nameserver_without_address_falls_back() {
    let mxdns = build_mx_dns();
    let check = match mxdns.check_blocklist("zen.spamhaus.org.", IpAddress::V4(Ipv4(127, 0, 0, 2))) {
        Step::Ask(check) => check,
        Step::Done(r) => panic!("ended early: {:?}", r),
    };
    let reply = network(check.query(), &mut Vec::new());
    let check = match check.resume(reply) {
        Step::Ask(check) => check,
        Step::Done(r) => panic!("ended early: {:?}", r),
    };
    assert_eq!(check.phase, CheckPhase::NameserverAddress);
    assert_eq!(check.query().name, b"ns.zen.spamhaus.org.".to_vec());
    let reply = reply_to(check.query(), RESPONSE, &[]);
    let check = match check.resume(reply) {
        Step::Ask(check) => check,
        Step::Done(r) => panic!("ended early: {:?}", r),
    };
    assert_eq!(check.phase, CheckPhase::Listing);
    assert_eq!(check.query().server, mxdns.bootstrap().dns_server);
    assert_eq!(check.query().name, b"2.0.0.127.zen.spamhaus.org.".to_vec());
}

#[test]
fn failed_nameserver_lookup_fails_the_check() {
    let mxdns = build_mx_dns();
    let check = match mxdns.check_blocklist("zen.spamhaus.org.", IpAddress::V4(Ipv4(127, 0, 0, 2))) {
        Step::Ask(check) => check,
        Step::Done(r) => panic!("ended early: {:?}", r),
    };
    let reply = network(check.query(), &mut Vec::new());
    let check = match check.resume(reply) {
        Step::Ask(check) => check,
        Step::Done(r) => panic!("ended early: {:?}", r),
    };
    let failed = Reply::Failed(mxdns::Stage::Send, std::io::Error::from(std::io::ErrorKind::Other));
    match check.resume(failed) {
        Step::Done(Err(Error::BlockListNameserver(zone, cause))) => {
            assert_eq!(zone, "zen.spamhaus.org.");
            assert!(matches!(*cause, Error::Send(_, _)));
        }
        other => panic!("unexpected step: {:?}", other),
    }
}

#[test]
fn lookup_ns_binds_the_blocklist() {
    let bootstrap = Resolve::with_server(bootstrap_ip());
    let ns = IpAddress::V4(Ipv4(192, 0, 2, 53));
    let list = BlockList::lookup_ns("bl.spamcop.net.", &bootstrap, NsPolicy::Fallback, Ok(vec![ns, bootstrap_ip()])).unwrap();
    assert_eq!(list, BlockList::new(Resolve::with_server(ns), "bl.spamcop.net."));
    let list = BlockList::lookup_ns("bl.spamcop.net.", &bootstrap, NsPolicy::Fallback, Ok(Vec::new())).unwrap();
    assert_eq!(list, BlockList::new(bootstrap, "bl.spamcop.net."));
    match BlockList::lookup_ns("bl.spamcop.net.", &bootstrap, NsPolicy::Require, Ok(Vec::new())) {
        Err(Error::BlockListNameserverIp(zone)) => assert_eq!(zone, "bl.spamcop.net."),
        other => panic!("unexpected result: {:?}", other),
    }
    let list = BlockList::lookup_ns("bl.spamcop.net.", &bootstrap, NsPolicy::Require, Ok(vec![ns])).unwrap();
    assert_eq!(list.resolver, Resolve::with_server(ns));
    let patient = Resolve::new(bootstrap_ip(), 9000);
    let list = BlockList::lookup_ns("bl.spamcop.net.", &patient, NsPolicy::Fallback, Ok(vec![ns])).unwrap();
    assert_eq!(list.resolver, Resolve::new(ns, 9000));
    match BlockList::lookup_ns("bl.spamcop.net.", &bootstrap, NsPolicy::Require, Err(Error::EmptyResponse("q".to_string()))) {
        Err(Error::BlockListNameserver(zone, cause)) => {
            assert_eq!(zone, "bl.spamcop.net.");
            assert!(matches!(*cause, Error::EmptyResponse(_)));
        }
        other => panic!("unexpected result: {:?}", other),
    }
}

#[test]
fn results_follow_the_blocklists() {
    let mxdns = build_mx_dns();
    let checks = mxdns.on_blocklists(IpAddress::V4(Ipv4(127, 0, 0, 3)));
    // the first check ends last
    let mut ended = Vec::new();
    for (i, check) in checks.into_iter().enumerate().rev() {
        ended.push((i, run_check(check, &mut Vec::new())));
    }
    assert_eq!(ended[0].0, 3);
    let results = mxdns::join_all(4, ended).unwrap();
    let listed: Vec<Option<bool>> = results.iter().map(|r| r.as_ref().ok().copied()).collect();
    assert_eq!(listed, vec![Some(false), Some(false), Some(true), Some(false)]);
    assert!(matches!(MxDns::is_blocked(results), Ok(true)));
}

#[test]
fn required_nameserver_fails_zones_without_one() {
    let mxdns = build_mx_dns().with_policy(NsPolicy::Require);
    assert_eq!(mxdns.policy(), NsPolicy::Require);
    assert_eq!(build_mx_dns().policy(), NsPolicy::Fallback);
    assert_eq!(mxdns.blocklists(), build_mx_dns().blocklists());
    assert_eq!(mxdns.bootstrap(), build_mx_dns().bootstrap());
    let blocklists = blocklists();
    let checks = mxdns.on_blocklists(IpAddress::V4(Ipv4(127, 0, 0, 2)));
    for (i, check) in checks.into_iter().enumerate() {
        let mut asked = Vec::new();
        let result = run_check(check, &mut asked);
        if blocklists[i].1 {
            assert!(matches!(result, Ok(true)));
        } else {
            match result {
                Err(Error::BlockListNameserverIp(zone)) => assert_eq!(zone, blocklists[i].0),
                other => panic!("unexpected result: {:?}", other),
            }
            assert_eq!(asked.len(), 1);
        }
    }
}
