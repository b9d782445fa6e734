//! DNS utilities for mail servers: DNS based blocklists, reverse lookups and
//! forward confirmed reverse DNS, written without I/O of their own.
//!
//! Every operation is a small machine: it hands out the datagram to send to a
//! DNS server (`Step::Ask`), takes back what the network made of it (`Reply`),
//! and ends with a result (`Step::Done`). The caller owns the sockets and may
//! run any number of such machines side by side; `join_all` puts their
//! results back in order.
//!
//! Blocklists are IPv4 based, so IPv6 addresses are reduced to IPv4 where they
//! embed one.
//!
//! The module `parser` reads the lines of an SMTP client, for the mail server
//! that asks these questions about its peers.
use vstd::prelude::*;

pub mod addr;
pub mod err;
pub mod wire;
pub mod name;
pub mod resolve;
pub mod step;
pub mod blocklist;
pub mod fcrdns;
pub mod join_all;
pub mod conf;
pub mod smtp;
pub mod parser;

pub use crate::addr::{IpAddress, Ipv4, ServerAddr};
pub use crate::blocklist::{BlockList, Check, NsPolicy};
pub use crate::err::{Error, Stage};
pub use crate::fcrdns::{Confirm, FCrDNS, Reverse};
pub use crate::join_all::{join_all, JoinAll};
pub use crate::resolve::{Query, Reply, Resolve};
pub use crate::step::Step;

use crate::addr::spec_to_ipv4;
use crate::blocklist::spec_check;
use crate::conf::{address, addresses_of, configured, nameservers, parse_config};
use crate::err::Failure;
use crate::fcrdns::{spec_ask_reverse, ConfirmPhase};
use crate::resolve::{result_view, DEFAULT_TIMEOUT};

verus! {

/// The file that names the system's nameservers.
pub const RESOLV_CONF: &'static str = "/etc/resolv.conf";

/// Utilities for looking up IP addresses on blocklists and doing reverse DNS.
/// It is made once and not changed afterwards.
#[derive(Clone, Debug, PartialEq, Eq)]
pub struct MxDns {
    /// The server for every lookup that is not a blocklist's own.
    bootstrap: Resolve,
    /// The zones of the blocklists, fully qualified, in the order in which
    /// their results are reported.
    blocklists: Vec<String>,
    /// What to do about a blocklist whose nameserver cannot be found.
    policy: NsPolicy,
}

/// The views of a row of results.
pub open spec fn result_views(results: Seq<Result<bool, Error>>) -> Seq<Result<bool, Failure>> {
    Seq::new(results.len(), |i: int| result_view(results[i]))
}

/// Whether every check failed.
pub open spec fn all_failed(results: Seq<Result<bool, Failure>>) -> bool {
    forall|i: int| 0 <= i < results.len() ==> (#[trigger] results[i]) is Err
}

/// Whether some check found the address listed.
pub open spec fn some_listed(results: Seq<Result<bool, Failure>>) -> bool {
    exists|i: int| 0 <= i < results.len() && #[trigger] results[i] == Ok::<bool, Failure>(true)
}

/// Whether an address is blocked, by the results of the checks against each
/// blocklist. Without blocklists it is not. Where every check failed, the
/// last check's error is the error. Otherwise a failed check counts as
/// inconclusive: the address is blocked where one check found it listed.
pub open spec fn spec_is_blocked(results: Seq<Result<bool, Failure>>) -> Result<bool, Failure> {
    if results.len() == 0 {
        Ok(false)
    } else if all_failed(results) {
        results.last()
    } else {
        Ok(some_listed(results))
    }
}

/// Without blocklists an address is not blocked.
pub proof fn lemma_no_blocklists(results: Seq<Result<bool, Failure>>)
    requires
        results.len() == 0,
    ensures
        spec_is_blocked(results) == Ok::<bool, Failure>(false),
{
}

/// One listing is enough: where a check found the address listed, the address
/// is blocked, whatever the other checks gave, errors too.
pub proof fn lemma_one_listing_blocks(results: Seq<Result<bool, Failure>>, i: int)
    requires
        0 <= i < results.len(),
        results[i] == Ok::<bool, Failure>(true),
    ensures
        spec_is_blocked(results) == Ok::<bool, Failure>(true),
{
    assert(!all_failed(results));
    assert(some_listed(results));
}

/// Where there are checks and every one of them failed, the outcome is an
/// error, and it is the error of one of the checks: that of the last.
pub proof fn lemma_all_failed_fails(results: Seq<Result<bool, Failure>>)
    requires
        results.len() > 0,
        all_failed(results),
    ensures
        spec_is_blocked(results) is Err,
        spec_is_blocked(results) == results[results.len() - 1],
{
}

/// A failed check beside a check that gave an answer is inconclusive: where
/// no check found the address listed and one found it not listed, the address
/// is not blocked.
pub proof fn lemma_errors_are_inconclusive(results: Seq<Result<bool, Failure>>, i: int)
    requires
        0 <= i < results.len(),
        results[i] == Ok::<bool, Failure>(false),
        !some_listed(results),
    ensures
        spec_is_blocked(results) == Ok::<bool, Failure>(false),
{
    assert(!all_failed(results));
}

/// What one more result does to a row of results: the row has all failed if
/// it had before and the result is an error, and it has a listing if it had
/// one before or the result is one.
proof fn lemma_one_more_result(results: Seq<Result<bool, Failure>>, i: int)
    requires
        0 <= i < results.len(),
    ensures
        all_failed(results.take(i + 1)) == (all_failed(results.take(i)) && results[i] is Err),
        some_listed(results.take(i + 1)) == (some_listed(results.take(i)) || results[i] == Ok::<
            bool,
            Failure,
        >(true)),
{
    let head = results.take(i);
    let next = results.take(i + 1);
    assert(next[i] == results[i]);
    assert(forall|k: int| 0 <= k < i ==> next[k] == head[k]);
    if all_failed(next) {
        assert forall|k: int| 0 <= k < head.len() implies (#[trigger] head[k]) is Err by {
            assert(next[k] is Err);
        }
    }
    if all_failed(head) && results[i] is Err {
        assert forall|k: int| 0 <= k < next.len() implies (#[trigger] next[k]) is Err by {
            if k < i {
                assert(head[k] is Err);
            }
        }
    }
    if some_listed(next) {
        let k = choose|k: int| 0 <= k < next.len() && #[trigger] next[k] == Ok::<bool, Failure>(true);
        if k < i {
            assert(head[k] == next[k]);
        }
    }
    if some_listed(head) {
        let k = choose|k: int| 0 <= k < head.len() && #[trigger] head[k] == Ok::<bool, Failure>(true);
        assert(next[k] == head[k]);
    }
}

impl MxDns {
    /// The server for every lookup that is not a blocklist's own.
    pub closed spec fn spec_bootstrap(&self) -> Resolve {
        self.bootstrap
    }

    /// The zones of the blocklists, in the order in which their results are
    /// reported.
    pub closed spec fn spec_blocklists(&self) -> Seq<String> {
        self.blocklists@
    }

    /// What to do about a blocklist whose nameserver cannot be found.
    pub closed spec fn spec_policy(&self) -> NsPolicy {
        self.policy
    }

    /// The server for every lookup that is not a blocklist's own.
    pub fn bootstrap(&self) -> (r: Resolve)
        ensures
            r == self.spec_bootstrap(),
    {
        self.bootstrap
    }

    /// The zones of the blocklists, fully qualified, in the order in which
    /// their results are reported.
    pub fn blocklists(&self) -> (r: &Vec<String>)
        ensures
            r@ == self.spec_blocklists(),
    {
        &self.blocklists
    }

    /// What to do about a blocklist whose nameserver cannot be found.
    pub fn policy(&self) -> (r: NsPolicy)
        ensures
            r == self.spec_policy(),
    {
        self.policy
    }

    /// Create a MxDns that uses the given DNS server for standard queries.
    /// A blocklist whose nameserver cannot be found is asked through that
    /// server.
    pub fn with_dns(bootstrap_dns: IpAddress, blocklists_fqdn: Vec<String>) -> (mx: MxDns)
        ensures
            mx.spec_bootstrap() == Resolve::bound_to(bootstrap_dns, DEFAULT_TIMEOUT),
            mx.spec_blocklists() == blocklists_fqdn@,
            mx.spec_policy() == NsPolicy::Fallback,
    {
        MxDns {
            bootstrap: Resolve::new(bootstrap_dns, DEFAULT_TIMEOUT),
            blocklists: blocklists_fqdn,
            policy: NsPolicy::Fallback,
        }
    }

    /// The same MxDns with another policy for blocklists whose nameserver
    /// cannot be found.
    pub fn with_policy(self, policy: NsPolicy) -> (mx: MxDns)
        ensures
            mx.spec_bootstrap() == self.spec_bootstrap(),
            mx.spec_blocklists() == self.spec_blocklists(),
            mx.spec_policy() == policy,
    {
        MxDns { bootstrap: self.bootstrap, blocklists: self.blocklists, policy }
    }

    /// Create a MxDns from the text of the system's resolver configuration,
    /// the content of `RESOLV_CONF`: its first nameserver is the server for
    /// standard queries. A text that is refused, and a text that names no
    /// nameserver, are errors: no MxDns is made then.
    pub fn new(resolv_conf: &[u8], blocklists_fqdn: Vec<String>) -> (r: Result<MxDns, Error>)
        ensures
            match r {
                Ok(mx) => configured(resolv_conf@) matches Some(servers) && servers.len() > 0
                    && mx.spec_bootstrap() == Resolve::bound_to(servers[0], DEFAULT_TIMEOUT)
                    && mx.spec_blocklists() == blocklists_fqdn@ && mx.spec_policy()
                    == NsPolicy::Fallback,
                Err(e) => match configured(resolv_conf@) {
                    None => e@ matches Failure::ResolvConfParse(file, _) && file == RESOLV_CONF@,
                    Some(servers) => servers.len() == 0 && e@ == Failure::NoNameservers(
                        RESOLV_CONF@,
                    ),
                },
            },
    {
        match parse_config(resolv_conf) {
            Err(e) => Err(Error::ResolvConfParse(RESOLV_CONF.to_owned(), e)),
            Ok(config) => {
                let servers = nameservers(&config);
                if servers.len() > 0 {
                    assert(addresses_of(servers@)[0] == crate::conf::address_of(servers@[0]));
                    Ok(MxDns::with_dns(address(&servers[0]), blocklists_fqdn))
                } else {
                    Err(Error::NoNameservers(RESOLV_CONF.to_owned()))
                }
            },
        }
    }

    /// Starts the check of `ip` against the blocklist `blocklist`.
    pub fn check_blocklist(&self, blocklist: &str, ip: IpAddress) -> (step: Step<Check, bool>)
        ensures
            Check::is_step(
                blocklist@,
                spec_to_ipv4(ip).unwrap(),
                self.spec_bootstrap(),
                self.spec_policy(),
                step,
                spec_check(blocklist@, self.spec_bootstrap().dns_server, ip),
            ),
    {
        BlockList::check(blocklist, &self.bootstrap, self.policy, ip)
    }

    /// Starts the checks of `addr` against every blocklist: one check for
    /// each, in the order of the blocklists. The checks do not depend on each
    /// other and may be run side by side. Without blocklists there is nothing
    /// to run, and nothing is sent.
    pub fn on_blocklists(&self, addr: IpAddress) -> (checks: Vec<Step<Check, bool>>)
        ensures
            checks@.len() == self.spec_blocklists().len(),
            forall|i: int|
                0 <= i < checks@.len() ==> Check::is_step(
                    self.spec_blocklists()[i]@,
                    spec_to_ipv4(addr).unwrap(),
                    self.spec_bootstrap(),
                    self.spec_policy(),
                    #[trigger] checks@[i],
                    spec_check(self.spec_blocklists()[i]@, self.spec_bootstrap().dns_server, addr),
                ),
    {
        let mut checks: Vec<Step<Check, bool>> = Vec::new();
        let mut i: usize = 0;
        while i < self.blocklists.len()
            invariant
                i <= self.blocklists@.len(),
                checks@.len() == i,
                forall|k: int|
                    0 <= k < i ==> Check::is_step(
                        self.blocklists@[k]@,
                        spec_to_ipv4(addr).unwrap(),
                        self.bootstrap,
                        self.policy,
                        #[trigger] checks@[k],
                        spec_check(self.blocklists@[k]@, self.bootstrap.dns_server, addr),
                    ),
            decreases self.blocklists@.len() - i,
        {
            let check = self.check_blocklist(self.blocklists[i].as_str(), addr);
            checks.push(check);
            i += 1;
        }
        checks
    }

    /// Returns true if the address is on any of the blocklists, by the
    /// results of the checks that `on_blocklists` started, in their order.
    pub fn is_blocked(results: Vec<Result<bool, Error>>) -> (r: Result<bool, Error>)
        ensures
            result_view(r) == spec_is_blocked(result_views(results@)),
            r is Err ==> results@.len() > 0 && r == results@.last(),
    {
        let ghost all = result_views(results@);
        let mut results = results;
        let mut answered: bool = false;
        let mut listed: bool = false;
        let mut i: usize = 0;
        while i < results.len()
            invariant
                i <= results@.len(),
                all == result_views(results@),
                answered == !all_failed(all.take(i as int)),
                listed == some_listed(all.take(i as int)),
            decreases results@.len() - i,
        {
            proof {
                lemma_one_more_result(all, i as int);
            }
            match &results[i] {
                Ok(found) => {
                    if *found {
                        listed = true;
                    }
                    answered = true;
                },
                Err(_) => {},
            }
            i += 1;
        }
        assert(all.take(all.len() as int) == all);
        if results.len() == 0 {
            Ok(false)
        } else if !answered {
            match results.pop() {
                Some(last) => last,
                None => Ok(false),
            }
        } else {
            Ok(listed)
        }
    }

    /// Starts a reverse DNS lookup of the given address. The lookup ends with
    /// `None` where the address has no reverse DNS entry.
    pub fn reverse_dns(&self, ip: IpAddress) -> (step: Step<Reverse, Option<String>>)
        ensures
            Reverse::is_step(step, spec_ask_reverse((), self.spec_bootstrap().dns_server, ip)),
    {
        Reverse::start(&self.bootstrap, ip)
    }

    /// Starts a forward confirmed reverse DNS check of the given address:
    /// the check that the name which the address maps back to resolves to
    /// the address again.
    pub fn fcrdns(&self, ip: IpAddress) -> (step: Step<Confirm, FCrDNS>)
        ensures
            Confirm::is_step(
                spec_to_ipv4(ip).unwrap(),
                self.spec_bootstrap(),
                step,
                spec_ask_reverse(ConfirmPhase::Reverse, self.spec_bootstrap().dns_server, ip),
            ),
    {
        Confirm::start(&self.bootstrap, ip)
    }
}

} // verus!
