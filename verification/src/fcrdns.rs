//! Reverse lookups, and forward confirmed reverse DNS: the check that the name
//! which an address maps back to resolves to that address again.
use vstd::prelude::*;
use crate::addr::{ptr_name, spec_ptr_name, spec_to_ipv4, to_ipv4, IpAddress, Ipv4, ServerAddr};
use crate::err::{socket_error, transport_failure, Error, Failure, Stage};
use crate::name::{first_name, spec_first_name};
use crate::resolve::{
    is_truncated, name_text, query_string, result_view, spec_addresses, spec_response,
    spec_server_text, Query, Reply, ReplyView, Resolve,
};
use crate::step::{Expect, Step};
use crate::wire::{query_message, RecordType, TYPE_A, TYPE_PTR};

verus! {

/// The result of a forward confirmed reverse DNS check.
#[derive(Clone, Debug, PartialEq, Eq)]
pub enum FCrDNS {
    /// The address has no reverse DNS entry.
    NoReverse,
    /// The address maps back to the name, and the name does not resolve to
    /// the address.
    UnConfirmed(String),
    /// The address maps back to the name, and the name resolves to the
    /// address.
    Confirmed(String),
}

/// The mathematical form of an `FCrDNS`.
pub enum Verdict {
    NoReverse,
    UnConfirmed(Seq<char>),
    Confirmed(Seq<char>),
}

impl View for FCrDNS {
    type V = Verdict;

    open spec fn view(&self) -> Verdict {
        match self {
            FCrDNS::NoReverse => Verdict::NoReverse,
            FCrDNS::UnConfirmed(name) => Verdict::UnConfirmed(name@),
            FCrDNS::Confirmed(name) => Verdict::Confirmed(name@),
        }
    }
}

/// The verdict on `ip`, whose reverse entry is `name`, by the addresses that
/// `name` resolves to: confirmed where `ip` is among them, and unconfirmed
/// where it is not, as where there are none.
pub open spec fn spec_confirm(ip: Ipv4, name: Seq<char>, forward: Seq<IpAddress>) -> Verdict {
    if forward.contains(IpAddress::V4(ip)) {
        Verdict::Confirmed(name)
    } else {
        Verdict::UnConfirmed(name)
    }
}

impl FCrDNS {
    /// Is the result a confirmed reverse DNS value?
    pub fn is_confirmed(&self) -> (b: bool)
        ensures
            b == (self is Confirmed),
    {
        match self {
            FCrDNS::Confirmed(_) => true,
            _ => false,
        }
    }

    /// The verdict on `ip`, whose reverse entry is `name`, by the addresses
    /// that `name` resolves to.
    pub fn confirm(ip: Ipv4, name: String, forward: &Vec<IpAddress>) -> (r: FCrDNS)
        ensures
            r@ == spec_confirm(ip, name@, forward@),
            r is Confirmed <==> forward@.contains(IpAddress::V4(ip)),
            r is UnConfirmed <==> !forward@.contains(IpAddress::V4(ip)),
    {
        let wanted = IpAddress::V4(ip);
        let mut i: usize = 0;
        while i < forward.len()
            invariant
                i <= forward@.len(),
                wanted == IpAddress::V4(ip),
                forall|k: int| 0 <= k < i ==> forward@[k] != wanted,
            decreases forward@.len() - i,
        {
            if forward[i] == wanted {
                return FCrDNS::Confirmed(name);
            }
            i += 1;
        }
        FCrDNS::UnConfirmed(name)
    }
}

/// What the reply to a reverse query gives: the name that the address maps
/// back to. A response without answers means that there is no reverse entry,
/// which is no error. A response whose answers hold no name is one:
/// `EmptyResponse`, with the name that was asked about.
pub open spec fn spec_reverse(asked: Query, reply: ReplyView) -> Result<Option<Seq<u8>>, Failure> {
    match spec_response(asked, reply) {
        Err(failure) => Err(failure),
        Ok(response) => if response.answers.len() == 0 {
            Ok(None)
        } else {
            match spec_first_name(response.answers, TYPE_PTR) {
                Some(name) => Ok(Some(name)),
                None => Err(Failure::EmptyResponse(name_text(asked.name@))),
            }
        },
    }
}

/// Reads the reply to a reverse query.
pub fn reverse_name(asked: &Query, reply: Reply) -> (r: Result<Option<Vec<u8>>, Error>)
    ensures
        match r {
            Ok(Some(name)) => spec_reverse(*asked, reply@) == Ok::<Option<Seq<u8>>, Failure>(
                Some(name@),
            ),
            Ok(None) => spec_reverse(*asked, reply@) == Ok::<Option<Seq<u8>>, Failure>(None),
            Err(e) => spec_reverse(*asked, reply@) == Err::<Option<Seq<u8>>, Failure>(e@),
        },
{
    match asked.response(reply) {
        Err(e) => Err(e),
        Ok(response) => {
            if response.answers.len() == 0 {
                Ok(None)
            } else {
                match first_name(&response.answers, TYPE_PTR) {
                    Some(name) => Ok(Some(name)),
                    None => Err(Error::EmptyResponse(query_string(asked.name.as_slice()))),
                }
            }
        },
    }
}

/// The first step of a reverse lookup, and of a forward confirmed one: it
/// asks `bootstrap` for the `PTR` record of the address. An address that is
/// no IPv4 address and embeds none fails before anything is sent.
pub open spec fn spec_ask_reverse<P, T>(phase: P, bootstrap: ServerAddr, ip: IpAddress) -> Expect<
    P,
    T,
> {
    match spec_to_ipv4(ip) {
        None => Expect::Done(Err(Failure::NotIpv4(ip))),
        Some(v4) => match query_message(spec_ptr_name(v4), TYPE_PTR) {
            Err(why) => Expect::Done(
                Err(Failure::DnsQuery(name_text(spec_ptr_name(v4)), why)),
            ),
            Ok(_) => Expect::Ask {
                phase,
                server: bootstrap,
                name: spec_ptr_name(v4),
                kind: RecordType::Ptr,
            },
        },
    }
}

/// A reverse lookup under way: it waits for the reply to its one query.
#[derive(Debug)]
pub struct Reverse {
    /// The query whose reply the lookup is waiting for.
    pub asked: Query,
}

/// The view of the result of a reverse lookup.
pub open spec fn reverse_view(r: Result<Option<String>, Error>) -> Result<
    Option<Seq<char>>,
    Failure,
> {
    match r {
        Ok(Some(name)) => Ok(Some(name@)),
        Ok(None) => Ok(None),
        Err(e) => Err(e@),
    }
}

impl Reverse {
    /// Whether `step` is the step `expect` of a reverse lookup.
    pub open spec fn is_step(
        step: Step<Reverse, Option<String>>,
        expect: Expect<(), Option<Seq<char>>>,
    ) -> bool {
        match expect {
            Expect::Ask { phase, server, name, kind } => step matches Step::Ask(next)
                && next.asked.asks(server, name, kind),
            Expect::Done(result) => step matches Step::Done(r) && reverse_view(r) == result,
        }
    }

    /// The result that `reply` gives: the name as text.
    pub open spec fn spec_resume(self, reply: ReplyView) -> Result<Option<Seq<char>>, Failure> {
        match spec_reverse(self.asked, reply) {
            Err(failure) => Err(failure),
            Ok(None) => Ok(None),
            Ok(Some(name)) => Ok(Some(name_text(name))),
        }
    }

    /// Starts the reverse lookup of `ip` at the server of `bootstrap`.
    pub fn start(bootstrap: &Resolve, ip: IpAddress) -> (step: Step<Reverse, Option<String>>)
        ensures
            Reverse::is_step(step, spec_ask_reverse((), bootstrap.dns_server, ip)),
    {
        match to_ipv4(ip) {
            None => Step::Done(Err(Error::NotIpv4(ip))),
            Some(v4) => {
                let name = ptr_name(v4);
                match bootstrap.query(name.as_slice(), RecordType::Ptr) {
                    Err(e) => Step::Done(Err(e)),
                    Ok(asked) => Step::Ask(Reverse { asked }),
                }
            },
        }
    }

    /// The query to send: the lookup waits for its reply.
    pub fn query(&self) -> (q: &Query)
        ensures
            *q == self.asked,
    {
        &self.asked
    }

    /// Takes the reply and ends the lookup: with the name that the address
    /// maps back to, or with none where it has no reverse entry.
    pub fn resume(self, reply: Reply) -> (step: Step<Reverse, Option<String>>)
        ensures
            step matches Step::Done(r) && reverse_view(r) == self.spec_resume(reply@),
    {
        match reverse_name(&self.asked, reply) {
            Err(e) => Step::Done(Err(e)),
            Ok(None) => Step::Done(Ok(None)),
            Ok(Some(name)) => Step::Done(Ok(Some(query_string(name.as_slice())))),
        }
    }
}

/// What a forward confirmed reverse DNS check is waiting for.
#[derive(Clone, Copy, Debug, PartialEq, Eq, Structural)]
pub enum ConfirmPhase {
    /// The name that the address maps back to.
    Reverse,
    /// The addresses of that name.
    Forward,
}

/// A forward confirmed reverse DNS check under way.
#[derive(Debug)]
pub struct Confirm {
    /// The address that is checked.
    pub ip: Ipv4,
    /// The server that is asked.
    pub bootstrap: Resolve,
    /// What the check is waiting for.
    pub phase: ConfirmPhase,
    /// The query whose reply the check is waiting for. In the forward phase
    /// its name is the name that the address maps back to.
    pub asked: Query,
}

impl Confirm {
    /// Whether `step` is the step `expect` of a check of `ip` at `bootstrap`.
    pub open spec fn is_step(
        ip: Ipv4,
        bootstrap: Resolve,
        step: Step<Confirm, FCrDNS>,
        expect: Expect<ConfirmPhase, Verdict>,
    ) -> bool {
        match expect {
            Expect::Ask { phase, server, name, kind } => {
                &&& step matches Step::Ask(next)
                &&& next.ip == ip
                &&& next.bootstrap == bootstrap
                &&& next.phase == phase
                &&& next.asked.asks(server, name, kind)
            },
            Expect::Done(result) => step matches Step::Done(r) && result_view(r) == result,
        }
    }

    /// The step that follows `reply`.
    ///
    /// Without a reverse entry the check ends with `NoReverse`. With one, the
    /// addresses of the name are asked for, and the check ends confirmed where
    /// the address is among them. A failure of either lookup fails the check:
    /// it is never taken for a name that does not resolve back.
    pub open spec fn spec_resume(self, reply: ReplyView) -> Expect<ConfirmPhase, Verdict> {
        match self.phase {
            ConfirmPhase::Reverse => match spec_reverse(self.asked, reply) {
                Err(failure) => Expect::Done(Err(failure)),
                Ok(None) => Expect::Done(Ok(Verdict::NoReverse)),
                Ok(Some(name)) => match query_message(name, TYPE_A) {
                    Err(why) => Expect::Done(Err(Failure::DnsQuery(name_text(name), why))),
                    Ok(_) => Expect::Ask {
                        phase: ConfirmPhase::Forward,
                        server: self.bootstrap.dns_server,
                        name,
                        kind: RecordType::A,
                    },
                },
            },
            ConfirmPhase::Forward => match spec_addresses(self.asked, reply) {
                Err(failure) => Expect::Done(Err(failure)),
                Ok(ips) => Expect::Done(
                    Ok(spec_confirm(self.ip, name_text(self.asked.name@), ips)),
                ),
            },
        }
    }

    /// Starts the check of `ip` at the server of `bootstrap`.
    pub fn start(bootstrap: &Resolve, ip: IpAddress) -> (step: Step<Confirm, FCrDNS>)
        ensures
            Confirm::is_step(
                spec_to_ipv4(ip).unwrap(),
                *bootstrap,
                step,
                spec_ask_reverse(ConfirmPhase::Reverse, bootstrap.dns_server, ip),
            ),
    {
        match to_ipv4(ip) {
            None => Step::Done(Err(Error::NotIpv4(ip))),
            Some(v4) => {
                let name = ptr_name(v4);
                match bootstrap.query(name.as_slice(), RecordType::Ptr) {
                    Err(e) => Step::Done(Err(e)),
                    Ok(asked) => Step::Ask(
                        Confirm {
                            ip: v4,
                            bootstrap: *bootstrap,
                            phase: ConfirmPhase::Reverse,
                            asked,
                        },
                    ),
                }
            },
        }
    }

    /// The query to send: the check waits for its reply.
    pub fn query(&self) -> (q: &Query)
        ensures
            *q == self.asked,
    {
        &self.asked
    }

    /// Takes the reply to the query that the check waits for, and gives the
    /// next step: the forward query, or the verdict.
    pub fn resume(self, reply: Reply) -> (step: Step<Confirm, FCrDNS>)
        ensures
            Confirm::is_step(self.ip, self.bootstrap, step, self.spec_resume(reply@)),
    {
        match self.phase {
            ConfirmPhase::Reverse => match reverse_name(&self.asked, reply) {
                Err(e) => Step::Done(Err(e)),
                Ok(None) => Step::Done(Ok(FCrDNS::NoReverse)),
                Ok(Some(name)) => match self.bootstrap.query_a(name.as_slice()) {
                    Err(e) => Step::Done(Err(e)),
                    Ok(asked) => Step::Ask(
                        Confirm {
                            ip: self.ip,
                            bootstrap: self.bootstrap,
                            phase: ConfirmPhase::Forward,
                            asked,
                        },
                    ),
                },
            },
            ConfirmPhase::Forward => {
                let name = query_string(self.asked.name.as_slice());
                match self.asked.addresses(reply) {
                    Err(e) => Step::Done(Err(e)),
                    Ok(ips) => Step::Done(Ok(FCrDNS::confirm(self.ip, name, &ips))),
                }
            },
        }
    }
}

/// Where the address has no reverse entry, the check ends with `NoReverse`,
/// and the forward lookup is not asked for.
pub proof fn lemma_no_reverse(check: Confirm, reply: ReplyView)
    requires
        check.phase == ConfirmPhase::Reverse,
        spec_reverse(check.asked, reply) == Ok::<Option<Seq<u8>>, Failure>(None),
    ensures
        check.spec_resume(reply) == Expect::<ConfirmPhase, Verdict>::Done(Ok(Verdict::NoReverse)),
{
}

/// Where the address maps back to a name, the addresses of that name are
/// asked for next, at the same server.
pub proof fn lemma_reverse_then_forward(check: Confirm, reply: ReplyView, name: Seq<u8>)
    requires
        check.phase == ConfirmPhase::Reverse,
        spec_reverse(check.asked, reply) == Ok::<Option<Seq<u8>>, Failure>(Some(name)),
        query_message(name, TYPE_A) is Ok,
    ensures
        check.spec_resume(reply) == (Expect::<ConfirmPhase, Verdict>::Ask {
            phase: ConfirmPhase::Forward,
            server: check.bootstrap.dns_server,
            name,
            kind: RecordType::A,
        }),
{
}

/// Where the name resolves to the addresses `forward`, the check ends
/// confirmed if the address is among them and unconfirmed if it is not. The
/// name in the result is the name that was resolved.
pub proof fn lemma_forward_confirms(check: Confirm, reply: ReplyView, forward: Seq<IpAddress>)
    requires
        check.phase == ConfirmPhase::Forward,
        spec_addresses(check.asked, reply) == Ok::<Seq<IpAddress>, Failure>(forward),
    ensures
        forward.contains(IpAddress::V4(check.ip)) ==> check.spec_resume(reply) == Expect::<
            ConfirmPhase,
            Verdict,
        >::Done(Ok(Verdict::Confirmed(name_text(check.asked.name@)))),
        !forward.contains(IpAddress::V4(check.ip)) ==> check.spec_resume(reply) == Expect::<
            ConfirmPhase,
            Verdict,
        >::Done(Ok(Verdict::UnConfirmed(name_text(check.asked.name@)))),
{
}

/// A failed lookup fails the check, in either phase: the result is the
/// lookup's error, never a verdict.
pub proof fn lemma_failure_is_no_verdict(check: Confirm, reply: ReplyView, failure: Failure)
    requires
        match check.phase {
            ConfirmPhase::Reverse => spec_reverse(check.asked, reply) == Err::<
                Option<Seq<u8>>,
                Failure,
            >(failure),
            ConfirmPhase::Forward => spec_addresses(check.asked, reply) == Err::<
                Seq<IpAddress>,
                Failure,
            >(failure),
        },
    ensures
        check.spec_resume(reply) == Expect::<ConfirmPhase, Verdict>::Done(Err(failure)),
{
}

/// A truncated reply fails the check at once, in either phase: the result
/// is `TcpUnsupported`, and no further query is asked for.
pub proof fn lemma_truncated_reply_ends_confirm(check: Confirm, raw: Seq<u8>)
    requires
        is_truncated(check.asked, raw),
    ensures
        check.spec_resume(ReplyView::Datagram(raw)) == Expect::<ConfirmPhase, Verdict>::Done(
            Err(
                Failure::TcpUnsupported(
                    name_text(check.asked.name@),
                    spec_server_text(check.asked.server),
                ),
            ),
        ),
{
    crate::resolve::lemma_truncated_reply_fails(check.asked, raw);
}

/// A failed exchange fails a reverse lookup and a forward confirmed one, in
/// either phase: the result is the error of the stage, with the socket's
/// error as its cause.
pub proof fn lemma_failed_exchange_fails(check: Confirm, stage: Stage, cause: std::io::Error)
    ensures
        spec_reverse(check.asked, ReplyView::Failed(stage, cause)) == Err::<
            Option<Seq<u8>>,
            Failure,
        >(transport_failure(stage, spec_server_text(check.asked.server), cause)),
        (Reverse { asked: check.asked }).spec_resume(ReplyView::Failed(stage, cause)) == Err::<
            Option<Seq<char>>,
            Failure,
        >(transport_failure(stage, spec_server_text(check.asked.server), cause)),
        check.spec_resume(ReplyView::Failed(stage, cause)) == Expect::<
            ConfirmPhase,
            Verdict,
        >::Done(Err(transport_failure(stage, spec_server_text(check.asked.server), cause))),
        socket_error(transport_failure(stage, spec_server_text(check.asked.server), cause))
            == Some(cause),
{
    crate::resolve::lemma_failed_exchange(check.asked, stage, cause);
}

} // verus!
