//! The check of one address against one DNS based blocklist.
//!
//! The check first looks for the zone's own nameserver: it asks the bootstrap
//! server for the `NS` records of the zone and then for the address of the
//! first nameserver named. The listing itself is then asked of that
//! nameserver. Where the zone shows none, the `NsPolicy` decides: the listing
//! is asked of the bootstrap server, or the check fails.
use vstd::prelude::*;
use vstd::utf8::encode_utf8;
use crate::addr::{query_name, spec_reverse_name, to_ipv4, IpAddress, Ipv4, ServerAddr};
use crate::err::{socket_error, Error, Failure, Stage};
use crate::name::{first_name, spec_first_name};
use crate::resolve::{
    is_truncated, name_text, result_view, spec_addresses, spec_response,
    spec_server_text, Query, Reply, ReplyView, Resolve,
};
use crate::step::{Expect, Step};
use crate::wire::{query_message, RecordType, TYPE_A, TYPE_NS};

verus! {

/// One blocklist, bound to the server that answers for it.
#[derive(Clone, Debug, PartialEq, Eq)]
pub struct BlockList {
    /// The server that is asked whether an address is listed.
    pub resolver: Resolve,
    /// The zone of the blocklist, fully qualified: `zen.spamhaus.org.`.
    pub blocklist: String,
}

/// What to do about a blocklist whose nameserver cannot be found.
#[derive(Clone, Copy, Debug, PartialEq, Eq, Structural)]
pub enum NsPolicy {
    /// Ask the bootstrap server about the listing.
    Fallback,
    /// Fail the check, with `BlockListNameserverIp`.
    Require,
}

/// What a check is waiting for.
#[derive(Clone, Copy, Debug, PartialEq, Eq, Structural)]
pub enum CheckPhase {
    /// The `NS` records of the zone.
    Nameserver,
    /// The address of the zone's nameserver.
    NameserverAddress,
    /// The listing of the address.
    Listing,
}

/// A check of one address against one blocklist, under way.
#[derive(Debug)]
pub struct Check {
    /// The zone of the blocklist.
    pub zone: String,
    /// The address that is checked.
    pub ip: Ipv4,
    /// The server that is asked for the zone's nameserver, and for the
    /// listing where the zone shows none and the policy allows it.
    pub bootstrap: Resolve,
    /// What to do where the zone shows no nameserver.
    pub policy: NsPolicy,
    /// What the check is waiting for.
    pub phase: CheckPhase,
    /// The query whose reply the check is waiting for.
    pub asked: Query,
}

/// Whether an address is listed, by what the lookup of its query name gave.
/// Any address in the answer means listed, whatever its value. An answer
/// without addresses means not listed, and so does an empty response. Any
/// other error is the blocklist's error, with the lookup's error as its cause.
pub open spec fn spec_verdict(zone: Seq<char>, outcome: Result<Seq<IpAddress>, Failure>) -> Result<
    bool,
    Failure,
> {
    match outcome {
        Ok(ips) => Ok(ips.len() > 0),
        Err(Failure::EmptyResponse(_)) => Ok(false),
        Err(failure) => Err(Failure::BlockListLookup(zone, Box::new(failure))),
    }
}

/// The server that answers for a blocklist, by what the lookup of the
/// address of its nameserver gave: the first address found, on the DNS port,
/// with the patience of `bootstrap`. Where no address was found, `bootstrap`
/// answers for the blocklist if the policy is to fall back, and the error is
/// `BlockListNameserverIp` if it is not. A lookup that failed is the error
/// `BlockListNameserver`, with the lookup's error as its cause.
pub open spec fn spec_lookup_ns(
    zone: Seq<char>,
    bootstrap: Resolve,
    policy: NsPolicy,
    found: Result<Seq<IpAddress>, Failure>,
) -> Result<Resolve, Failure> {
    match found {
        Err(failure) => Err(Failure::BlockListNameserver(zone, Box::new(failure))),
        Ok(ips) => if ips.len() > 0 {
            Ok(Resolve::bound_to(ips[0], bootstrap.timeout))
        } else if policy == NsPolicy::Fallback {
            Ok(bootstrap)
        } else {
            Err(Failure::BlockListNameserverIp(zone))
        },
    }
}

/// The step that asks `server` whether `ip` is listed in `zone`. The check
/// ends here where the query name cannot be asked for.
pub open spec fn spec_listing(zone: Seq<char>, ip: Ipv4, server: ServerAddr) -> Expect<
    CheckPhase,
    bool,
> {
    let name = spec_reverse_name(ip, encode_utf8(zone));
    match query_message(name, TYPE_A) {
        Err(why) => Expect::Done(
            Err(
                Failure::BlockListLookup(
                    zone,
                    Box::new(Failure::DnsQuery(name_text(name), why)),
                ),
            ),
        ),
        Ok(_) => Expect::Ask { phase: CheckPhase::Listing, server, name, kind: RecordType::A },
    }
}

/// The first step of a check: it asks `bootstrap` for the nameservers of the
/// zone. An address that is no IPv4 address and embeds none fails the check
/// before anything is sent.
pub open spec fn spec_check(zone: Seq<char>, bootstrap: ServerAddr, ip: IpAddress) -> Expect<
    CheckPhase,
    bool,
> {
    match crate::addr::spec_to_ipv4(ip) {
        None => Expect::Done(Err(Failure::NotIpv4(ip))),
        Some(_) => match query_message(encode_utf8(zone), TYPE_NS) {
            Err(why) => Expect::Done(
                Err(
                    Failure::BlockListNameserver(
                        zone,
                        Box::new(Failure::DnsQuery(name_text(encode_utf8(zone)), why)),
                    ),
                ),
            ),
            Ok(_) => Expect::Ask {
                phase: CheckPhase::Nameserver,
                server: bootstrap,
                name: encode_utf8(zone),
                kind: RecordType::Ns,
            },
        },
    }
}

impl BlockList {
    /// The blocklist `blocklist`, asked through `resolver`.
    pub fn new(resolver: Resolve, blocklist: &str) -> (b: BlockList)
        ensures
            b.resolver == resolver,
            b.blocklist@ == blocklist@,
    {
        BlockList { resolver, blocklist: blocklist.to_owned() }
    }

    /// Binds the blocklist `blocklist` to the server that answers for it, by
    /// what the lookup of the address of its nameserver gave. Without such an
    /// address the blocklist is asked through `bootstrap`, if the policy is to
    /// fall back.
    pub fn lookup_ns(
        blocklist: &str,
        bootstrap: &Resolve,
        policy: NsPolicy,
        found: Result<Vec<IpAddress>, Error>,
    ) -> (r: Result<BlockList, Error>)
        ensures
            match r {
                Ok(list) => list.blocklist@ == blocklist@ && spec_lookup_ns(
                    blocklist@,
                    *bootstrap,
                    policy,
                    match found {
                        Ok(ips) => Ok(ips@),
                        Err(e) => Err(e@),
                    },
                ) == Ok::<Resolve, Failure>(list.resolver),
                Err(e) => spec_lookup_ns(
                    blocklist@,
                    *bootstrap,
                    policy,
                    match found {
                        Ok(ips) => Ok(ips@),
                        Err(e) => Err(e@),
                    },
                ) == Err::<Resolve, Failure>(e@),
            },
            r matches Err(Error::BlockListNameserver(_, cause)) ==> found == Err::<
                Vec<IpAddress>,
                Error,
            >(*cause),
    {
        match found {
            Err(e) => Err(Error::BlockListNameserver(blocklist.to_owned(), Box::new(e))),
            Ok(ips) => {
                if ips.len() > 0 {
                    Ok(BlockList::new(Resolve::new(ips[0], bootstrap.timeout), blocklist))
                } else {
                    match policy {
                        NsPolicy::Fallback => Ok(BlockList::new(*bootstrap, blocklist)),
                        NsPolicy::Require => Err(
                            Error::BlockListNameserverIp(blocklist.to_owned()),
                        ),
                    }
                }
            },
        }
    }

    /// Builds the query that asks whether `ip` is listed: an address query for
    /// the octets of `ip` in reverse order, followed by the zone.
    pub fn query(&self, ip: Ipv4) -> (r: Result<Query, Error>)
        ensures
            match r {
                Ok(query) => query.asks(
                    self.resolver.dns_server,
                    spec_reverse_name(ip, encode_utf8(self.blocklist@)),
                    RecordType::A,
                ),
                Err(e) => query_message(
                    spec_reverse_name(ip, encode_utf8(self.blocklist@)),
                    TYPE_A,
                ) matches Err(why) && e@ == Failure::BlockListLookup(
                    self.blocklist@,
                    Box::new(
                        Failure::DnsQuery(
                            name_text(spec_reverse_name(ip, encode_utf8(self.blocklist@))),
                            why,
                        ),
                    ),
                ),
            },
    {
        let name = query_name(ip, self.blocklist.as_str());
        match self.resolver.query_a(name.as_slice()) {
            Ok(query) => Ok(query),
            Err(e) => Err(Error::BlockListLookup(self.blocklist.clone(), Box::new(e))),
        }
    }

    /// Tells whether the address is listed, from what the lookup of its query
    /// name gave.
    pub fn verdict(&self, outcome: Result<Vec<IpAddress>, Error>) -> (r: Result<bool, Error>)
        ensures
            result_view(r) == spec_verdict(
                self.blocklist@,
                match outcome {
                    Ok(ips) => Ok(ips@),
                    Err(e) => Err(e@),
                },
            ),
            r matches Err(Error::BlockListLookup(_, cause)) ==> outcome == Err::<
                Vec<IpAddress>,
                Error,
            >(*cause),
    {
        match outcome {
            Ok(ips) => Ok(ips.len() > 0),
            Err(e) => {
                if e.is_empty_response() {
                    Ok(false)
                } else {
                    Err(Error::BlockListLookup(self.blocklist.clone(), Box::new(e)))
                }
            },
        }
    }

    /// Tells whether the address asked about in `asked` is listed, from the
    /// reply to that query.
    pub fn is_blocked(&self, asked: &Query, reply: Reply) -> (r: Result<bool, Error>)
        ensures
            result_view(r) == spec_verdict(self.blocklist@, spec_addresses(*asked, reply@)),
    {
        self.verdict(asked.addresses(reply))
    }

    /// Starts the check of `ip` against the blocklist `zone`, with `bootstrap`
    /// as the server to ask for the zone's nameserver.
    pub fn check(zone: &str, bootstrap: &Resolve, policy: NsPolicy, ip: IpAddress) -> (step: Step<
        Check,
        bool,
    >)
        ensures
            Check::is_step(
                zone@,
                crate::addr::spec_to_ipv4(ip).unwrap(),
                *bootstrap,
                policy,
                step,
                spec_check(zone@, bootstrap.dns_server, ip),
            ),
    {
        match to_ipv4(ip) {
            None => Step::Done(Err(Error::NotIpv4(ip))),
            Some(v4) => match bootstrap.query(zone.as_bytes(), RecordType::Ns) {
                Err(e) => Step::Done(
                    Err(Error::BlockListNameserver(zone.to_owned(), Box::new(e))),
                ),
                Ok(asked) => Step::Ask(
                    Check {
                        zone: zone.to_owned(),
                        ip: v4,
                        bootstrap: *bootstrap,
                        policy,
                        phase: CheckPhase::Nameserver,
                        asked,
                    },
                ),
            },
        }
    }
}

impl Check {
    /// Whether `step` is the step `expect` of a check of `ip` against `zone`
    /// with the bootstrap server `bootstrap`.
    pub open spec fn is_step(
        zone: Seq<char>,
        ip: Ipv4,
        bootstrap: Resolve,
        policy: NsPolicy,
        step: Step<Check, bool>,
        expect: Expect<CheckPhase, bool>,
    ) -> bool {
        match expect {
            Expect::Ask { phase, server, name, kind } => {
                &&& step matches Step::Ask(next)
                &&& next.zone@ == zone
                &&& next.ip == ip
                &&& next.bootstrap == bootstrap
                &&& next.policy == policy
                &&& next.phase == phase
                &&& next.asked.asks(server, name, kind)
            },
            Expect::Done(result) => step matches Step::Done(r) && result_view(r) == result,
        }
    }

    /// The step that follows `reply`.
    ///
    /// Any failure while the nameserver is looked for ends the check with
    /// `BlockListNameserver`. A zone without `NS` record, and a nameserver
    /// without address, are for the policy to decide.
    pub open spec fn spec_resume(self, reply: ReplyView) -> Expect<CheckPhase, bool> {
        match self.phase {
            CheckPhase::Nameserver => match spec_response(self.asked, reply) {
                Err(failure) => Expect::Done(
                    Err(Failure::BlockListNameserver(self.zone@, Box::new(failure))),
                ),
                Ok(response) => match spec_first_name(response.answers, TYPE_NS) {
                    None => self.spec_found(Ok(Seq::empty())),
                    Some(nameserver) => match query_message(nameserver, TYPE_A) {
                        Err(why) => Expect::Done(
                            Err(
                                Failure::BlockListNameserver(
                                    self.zone@,
                                    Box::new(Failure::DnsQuery(name_text(nameserver), why)),
                                ),
                            ),
                        ),
                        Ok(_) => Expect::Ask {
                            phase: CheckPhase::NameserverAddress,
                            server: self.bootstrap.dns_server,
                            name: nameserver,
                            kind: RecordType::A,
                        },
                    },
                },
            },
            CheckPhase::NameserverAddress => self.spec_found(spec_addresses(self.asked, reply)),
            CheckPhase::Listing => Expect::Done(
                spec_verdict(self.zone@, spec_addresses(self.asked, reply)),
            ),
        }
    }

    /// The step that follows the lookup of the nameserver's address: the
    /// question for the listing, put to the server that answers for the
    /// blocklist, or the end of the check where that lookup failed.
    pub open spec fn spec_found(self, found: Result<Seq<IpAddress>, Failure>) -> Expect<
        CheckPhase,
        bool,
    > {
        match spec_lookup_ns(self.zone@, self.bootstrap, self.policy, found) {
            Err(failure) => Expect::Done(Err(failure)),
            Ok(resolver) => spec_listing(self.zone@, self.ip, resolver.dns_server),
        }
    }

    /// The query to send: the check waits for its reply.
    pub fn query(&self) -> (q: &Query)
        ensures
            *q == self.asked,
    {
        &self.asked
    }

    /// Goes on to the listing, by what the lookup of the nameserver's address
    /// gave.
    fn found(self, found: Result<Vec<IpAddress>, Error>) -> (step: Step<Check, bool>)
        ensures
            Check::is_step(
                self.zone@,
                self.ip,
                self.bootstrap,
                self.policy,
                step,
                self.spec_found(
                    match found {
                        Ok(ips) => Ok(ips@),
                        Err(e) => Err(e@),
                    },
                ),
            ),
    {
        match BlockList::lookup_ns(self.zone.as_str(), &self.bootstrap, self.policy, found) {
            Err(e) => Step::Done(Err(e)),
            Ok(list) => match list.query(self.ip) {
                Err(e) => Step::Done(Err(e)),
                Ok(asked) => Step::Ask(
                    Check {
                        zone: list.blocklist,
                        ip: self.ip,
                        bootstrap: self.bootstrap,
                        policy: self.policy,
                        phase: CheckPhase::Listing,
                        asked,
                    },
                ),
            },
        }
    }

    /// Takes the reply to the query that the check waits for, and gives the
    /// next step: another query, or the verdict.
    pub fn resume(self, reply: Reply) -> (step: Step<Check, bool>)
        ensures
            Check::is_step(
                self.zone@,
                self.ip,
                self.bootstrap,
                self.policy,
                step,
                self.spec_resume(reply@),
            ),
    {
        match self.phase {
            CheckPhase::Nameserver => match self.asked.response(reply) {
                Err(e) => self.found(Err(e)),
                Ok(response) => match first_name(&response.answers, TYPE_NS) {
                    None => self.found(Ok(Vec::new())),
                    Some(nameserver) => match self.bootstrap.query_a(nameserver.as_slice()) {
                        Err(e) => self.found(Err(e)),
                        Ok(asked) => Step::Ask(
                            Check {
                                zone: self.zone,
                                ip: self.ip,
                                bootstrap: self.bootstrap,
                                policy: self.policy,
                                phase: CheckPhase::NameserverAddress,
                                asked,
                            },
                        ),
                    },
                },
            },
            CheckPhase::NameserverAddress => {
                let found = self.asked.addresses(reply);
                self.found(found)
            },
            CheckPhase::Listing => {
                let resolver = Resolve {
                    dns_server: self.asked.server,
                    timeout: self.bootstrap.timeout,
                };
                let list = BlockList { resolver, blocklist: self.zone };
                Step::Done(list.is_blocked(&self.asked, reply))
            },
        }
    }
}

/// A truncated reply ends a check, whatever the check was waiting for: the
/// result is an error with `TcpUnsupported` as its cause, and no further
/// query is asked for.
pub proof fn lemma_truncated_reply_ends_check(check: Check, raw: Seq<u8>)
    requires
        is_truncated(check.asked, raw),
    ensures
        check.spec_resume(ReplyView::Datagram(raw)) matches Expect::Done(Err(failure)) && ({
            let cause = Failure::TcpUnsupported(
                name_text(check.asked.name@),
                spec_server_text(check.asked.server),
            );
            if check.phase == CheckPhase::Listing {
                failure == Failure::BlockListLookup(check.zone@, Box::new(cause))
            } else {
                failure == Failure::BlockListNameserver(check.zone@, Box::new(cause))
            }
        }),
{
    crate::resolve::lemma_truncated_reply_fails(check.asked, raw);
}

/// Under the policy to fall back, a zone without nameserver is still
/// checked: where the lookup of the nameserver's address finds none, the
/// listing is asked of the bootstrap server.
pub proof fn lemma_fallback_to_bootstrap(check: Check)
    requires
        check.policy == NsPolicy::Fallback,
    ensures
        check.spec_found(Ok(Seq::empty())) == spec_listing(
            check.zone@,
            check.ip,
            check.bootstrap.dns_server,
        ),
{
}

/// Under the policy to require a nameserver, a zone without one fails the
/// check, and nothing is asked about the listing.
pub proof fn lemma_required_nameserver(check: Check)
    requires
        check.policy == NsPolicy::Require,
    ensures
        check.spec_found(Ok(Seq::empty())) == Expect::<CheckPhase, bool>::Done(
            Err(Failure::BlockListNameserverIp(check.zone@)),
        ),
{
}

/// A failed exchange ends a check, whatever the check was waiting for: the
/// result is an error, and the socket's error stands at the bottom of its
/// chain of causes.
pub proof fn lemma_failed_exchange_ends_check(check: Check, stage: Stage, cause: std::io::Error)
    ensures
        check.spec_resume(ReplyView::Failed(stage, cause)) matches Expect::Done(Err(failure))
            && socket_error(failure) == Some(cause),
{
    crate::resolve::lemma_failed_exchange(check.asked, stage, cause);
}

} // verus!
