//! A DNS client bound to one server. It builds the query for a name and reads
//! what came back; sending and receiving the datagrams is the caller's part.
use vstd::prelude::*;
use vstd::slice::slice_to_vec;
use vstd::utf8::{decode_utf8, valid_utf8};
use crate::addr::{IpAddress, Ipv4, ServerAddr, DNS_PORT};
use crate::err::{socket_error, transport_failure, Error, Failure, Stage};
use crate::wire::{
    build_query, decode, decoded, expand, expanded, query_message, Record, RecordType,
    RecordView, Response, ResponseView,
};

verus! {

/// The time to give a server for its reply, in milliseconds, where the caller
/// names none.
pub const DEFAULT_TIMEOUT: u64 = 5000;

/// A DNS client bound to one server. It never asks another server: to ask
/// elsewhere, make another `Resolve`.
#[derive(Clone, Copy, Debug, PartialEq, Eq, Structural)]
pub struct Resolve {
    /// The server that every query of this client goes to.
    pub dns_server: ServerAddr,
    /// The time to wait for a reply, in milliseconds. The library does not
    /// wait itself: the bound is for whoever runs the exchange.
    pub timeout: u64,
}

/// One question for one server: what to send, and where.
#[derive(Clone, Debug, PartialEq, Eq)]
pub struct Query {
    /// The server to send the datagram to.
    pub server: ServerAddr,
    /// The type of record that is asked for.
    pub kind: RecordType,
    /// The name that is asked about.
    pub name: Vec<u8>,
    /// The datagram to send. It is for one exchange and must not be sent again.
    pub packet: Vec<u8>,
}

/// What the network made of a query.
#[derive(Debug)]
pub enum Reply {
    /// The datagram that the server sent back.
    Datagram(Vec<u8>),
    /// The stage at which the exchange failed, and the error of the socket.
    Failed(Stage, std::io::Error),
}

/// The mathematical form of a `Reply`.
pub enum ReplyView {
    Datagram(Seq<u8>),
    Failed(Stage, std::io::Error),
}

impl View for Reply {
    type V = ReplyView;

    open spec fn view(&self) -> ReplyView {
        match self {
            Reply::Datagram(raw) => ReplyView::Datagram(raw@),
            Reply::Failed(stage, cause) => ReplyView::Failed(*stage, *cause),
        }
    }
}

/// The text that stands for a byte string in messages: its characters where
/// it is UTF-8, with a replacement character for each malformed part.
pub uninterp spec fn lossy_text(bytes: Seq<u8>) -> Seq<char>;

/// The text that stands for a name in messages and results: the name's own
/// text where its bytes are UTF-8, and else the text with replacement
/// characters.
pub open spec fn name_text(bytes: Seq<u8>) -> Seq<char> {
    if valid_utf8(bytes) {
        decode_utf8(bytes)
    } else {
        lossy_text(bytes)
    }
}

/// The text of a socket address of IPv6, as the standard library writes it.
/// The address is given by its bits.
pub uninterp spec fn socket_text(bits: u128, port: u16) -> Seq<char>;

/// The digit `d` as a character.
pub open spec fn digit_char(d: int) -> char {
    ((48 + d) as u8) as char
}

/// A number written in decimal, without leading zeros.
pub open spec fn decimal_text(n: nat) -> Seq<char>
    decreases n,
{
    if n < 10 {
        seq![digit_char(n as int)]
    } else {
        decimal_text(n / 10).push(digit_char((n % 10) as int))
    }
}

/// An IPv4 address in dotted decimal: `8.8.8.8`.
pub open spec fn spec_ipv4_text(ip: Ipv4) -> Seq<char> {
    decimal_text(ip.0 as nat) + seq!['.'] + decimal_text(ip.1 as nat) + seq!['.'] + decimal_text(
        ip.2 as nat,
    ) + seq!['.'] + decimal_text(ip.3 as nat)
}

/// The text of a server's address in messages: for IPv4 the address, a colon
/// and the port, as in `8.8.8.8:53`.
pub open spec fn spec_server_text(server: ServerAddr) -> Seq<char> {
    match server.ip {
        IpAddress::V4(ip) => spec_ipv4_text(ip) + seq![':'] + decimal_text(server.port as nat),
        IpAddress::V6(bits) => socket_text(bits, server.port),
    }
}

/// The name of a query as text. Calls `String::from_utf8_lossy`, which gives
/// bytes that are UTF-8 as their own text, and puts a replacement character
/// for each malformed part of others.
#[verifier::external_body]
pub(crate) fn query_string(query: &[u8]) -> (s: String)
    ensures
        s@ == lossy_text(query@),
        valid_utf8(query@) ==> s@ == decode_utf8(query@),
{
    String::from_utf8_lossy(query).to_string()
}

/// Calls `to_string` on the `SocketAddr` with the given IPv6 address and
/// port.
#[verifier::external_body]
fn socket_string(bits: u128, port: u16) -> (s: String)
    ensures
        s@ == socket_text(bits, port),
{
    core::net::SocketAddr::new(core::net::IpAddr::V6(core::net::Ipv6Addr::from_bits(bits)), port)
        .to_string()
}

/// Appends the digit `d`.
fn push_digit(text: &mut String, d: u8)
    requires
        d < 10,
    ensures
        final(text)@ == old(text)@.push(digit_char(d as int)),
{
    proof {
        reveal_strlit("0");
        reveal_strlit("1");
        reveal_strlit("2");
        reveal_strlit("3");
        reveal_strlit("4");
        reveal_strlit("5");
        reveal_strlit("6");
        reveal_strlit("7");
        reveal_strlit("8");
        reveal_strlit("9");
    }
    let digit = match d {
        0 => "0",
        1 => "1",
        2 => "2",
        3 => "3",
        4 => "4",
        5 => "5",
        6 => "6",
        7 => "7",
        8 => "8",
        _ => "9",
    };
    assert(digit@ =~= seq![digit_char(d as int)]);
    text.append(digit);
    assert(text@ =~= old(text)@.push(digit_char(d as int)));
}

/// Appends `n` in decimal.
fn push_number(text: &mut String, n: u16)
    ensures
        final(text)@ == old(text)@ + decimal_text(n as nat),
    decreases n,
{
    if n >= 10 {
        push_number(text, n / 10);
    }
    push_digit(text, (n % 10) as u8);
    assert(text@ =~= old(text)@ + decimal_text(n as nat));
}

/// Appends a colon, or else a dot.
fn push_mark(text: &mut String, colon: bool)
    ensures
        final(text)@ == old(text)@ + (if colon {
            seq![':']
        } else {
            seq!['.']
        }),
{
    proof {
        reveal_strlit(":");
        reveal_strlit(".");
    }
    let mark = if colon {
        ":"
    } else {
        "."
    };
    assert(mark@ =~= (if colon {
        seq![':']
    } else {
        seq!['.']
    }));
    text.append(mark);
}

/// The address of a server as text, such as `8.8.8.8:53`.
pub fn server_text(server: &ServerAddr) -> (s: String)
    ensures
        s@ == spec_server_text(*server),
{
    match server.ip {
        IpAddress::V4(ip) => {
            let mut text = String::new();
            push_number(&mut text, ip.0 as u16);
            push_mark(&mut text, false);
            push_number(&mut text, ip.1 as u16);
            push_mark(&mut text, false);
            push_number(&mut text, ip.2 as u16);
            push_mark(&mut text, false);
            push_number(&mut text, ip.3 as u16);
            push_mark(&mut text, true);
            push_number(&mut text, server.port);
            assert(text@ =~= spec_server_text(*server));
            text
        },
        IpAddress::V6(bits) => socket_string(bits, server.port),
    }
}

/// The addresses among the records of an answer section, in their order.
pub open spec fn addresses_in(answers: Seq<RecordView>) -> Seq<IpAddress> {
    answers.filter(|r: RecordView| r is Address).map_values(|r: RecordView| r->Address_0)
}

/// What an answer section gives for an address lookup of the name with text
/// `name`: its addresses, and the first record's error where it has records
/// and none of them holds an address. An empty section gives no address and
/// no error.
pub open spec fn spec_extract_ips(answers: Seq<RecordView>, name: Seq<char>) -> Result<
    Seq<IpAddress>,
    Failure,
> {
    if answers.len() > 0 && addresses_in(answers).len() == 0 {
        Err(Failure::ExtractIps(name, answers[0]->why))
    } else {
        Ok(addresses_in(answers))
    }
}

/// What a reply to `query` is read as, before its answers are looked at.
/// A failed exchange gives the error of its stage, with the socket's error
/// as its cause. A datagram that is no
/// DNS message gives `ParseResponse`, a truncated response `TcpUnsupported`.
/// Where a name is asked for, compressed names are written out in full first.
pub open spec fn spec_response(query: Query, reply: ReplyView) -> Result<ResponseView, Failure> {
    let name = name_text(query.name@);
    let server = spec_server_text(query.server);
    match reply {
        ReplyView::Failed(stage, cause) => Err(transport_failure(stage, server, cause)),
        ReplyView::Datagram(raw) => {
            let flat = if query.kind == RecordType::A {
                Ok(raw)
            } else {
                expanded(raw)
            };
            match flat {
                Err(why) => Err(Failure::ParseResponse(name, why)),
                Ok(bytes) => spec_read(query, decoded(bytes)),
            }
        },
    }
}

/// What a decoded response to `query` is read as: `ParseResponse` where the
/// codec refused the datagram, `TcpUnsupported` where the response is
/// truncated, and else the response.
pub open spec fn spec_read(query: Query, decoded: Result<ResponseView, Seq<char>>) -> Result<
    ResponseView,
    Failure,
> {
    let name = name_text(query.name@);
    let server = spec_server_text(query.server);
    match decoded {
        Err(why) => Err(Failure::ParseResponse(name, why)),
        Ok(response) => if response.flags & crate::wire::FLAG_TRUNCATED
            == crate::wire::FLAG_TRUNCATED {
            Err(Failure::TcpUnsupported(name, server))
        } else {
            Ok(response)
        },
    }
}

/// What a reply to an address query gives: the addresses of its answers.
pub open spec fn spec_addresses(query: Query, reply: ReplyView) -> Result<Seq<IpAddress>, Failure> {
    match spec_response(query, reply) {
        Err(failure) => Err(failure),
        Ok(response) => spec_extract_ips(response.answers, name_text(query.name@)),
    }
}

/// The views of a result.
pub open spec fn result_view<T: View>(r: Result<T, Error>) -> Result<T::V, Failure> {
    match r {
        Ok(value) => Ok(value@),
        Err(e) => Err(e@),
    }
}

impl Query {
    /// Whether this is a question about `name` and `kind` for `server`: the
    /// datagram is the codec's query for them, behind an id of two bytes.
    pub open spec fn asks(self, server: ServerAddr, name: Seq<u8>, kind: RecordType) -> bool {
        &&& self.server == server
        &&& self.kind == kind
        &&& self.name@ == name
        &&& query_message(name, kind.code()) == Ok::<Seq<u8>, Seq<char>>(self.packet@.skip(2))
    }

    /// Reads a decoded response to this query. A datagram that the codec
    /// refused gives `ParseResponse` with the codec's words. A truncated
    /// response gives `TcpUnsupported`: the answer is not asked for again over
    /// TCP.
    pub fn read(&self, decoded: Result<Response, String>) -> (r: Result<Response, Error>)
        ensures
            result_view(r) == spec_read(
                *self,
                match decoded {
                    Ok(response) => Ok(response@),
                    Err(why) => Err(why@),
                },
            ),
            r matches Ok(response) ==> decoded == Ok::<Response, String>(response),
    {
        match decoded {
            Err(why) => Err(Error::ParseResponse(query_string(self.name.as_slice()), why)),
            Ok(response) => {
                if response.truncated() {
                    Err(
                        Error::TcpUnsupported(
                            query_string(self.name.as_slice()),
                            server_text(&self.server),
                        ),
                    )
                } else {
                    Ok(response)
                }
            },
        }
    }

    /// Reads the reply to this query as a DNS response.
    pub fn response(&self, reply: Reply) -> (r: Result<Response, Error>)
        ensures
            result_view(r) == spec_response(*self, reply@),
    {
        match reply {
            Reply::Failed(stage, cause) => Err(
                Error::transport(stage, server_text(&self.server), cause),
            ),
            Reply::Datagram(raw) => {
                match self.kind {
                    RecordType::A => self.read(decode(raw)),
                    _ => match expand(raw.as_slice()) {
                        Err(why) => Err(
                            Error::ParseResponse(query_string(self.name.as_slice()), why),
                        ),
                        Ok(flat) => self.read(decode(flat)),
                    },
                }
            },
        }
    }

    /// Reads the reply to an address query: the addresses of its answers, in
    /// their order.
    pub fn addresses(&self, reply: Reply) -> (r: Result<Vec<IpAddress>, Error>)
        ensures
            result_view(r) == spec_addresses(*self, reply@),
    {
        match self.response(reply) {
            Err(e) => Err(e),
            Ok(response) => extract_ips(response, self.name.as_slice()),
        }
    }
}

impl Resolve {
    /// The client for the DNS server at `ip`, port 53.
    pub open spec fn bound_to(ip: IpAddress, timeout: u64) -> Resolve {
        Resolve { dns_server: ServerAddr { ip, port: DNS_PORT }, timeout }
    }

    /// A client for the DNS server at `ip`, port 53, with the given time to
    /// wait for replies.
    pub fn new(ip: IpAddress, timeout: u64) -> (r: Resolve)
        ensures
            r == Resolve::bound_to(ip, timeout),
    {
        Resolve { dns_server: ServerAddr { ip, port: DNS_PORT }, timeout }
    }

    /// A client for the DNS server at `ip`, port 53.
    pub fn with_server(ip: IpAddress) -> (r: Resolve)
        ensures
            r == Resolve::bound_to(ip, DEFAULT_TIMEOUT),
    {
        Resolve::new(ip, DEFAULT_TIMEOUT)
    }

    /// Builds the query for the records of type `kind` of `name`, to be sent
    /// to this client's server. A name that cannot be put into a query gives
    /// `DnsQuery` with the codec's words.
    pub fn query(&self, name: &[u8], kind: RecordType) -> (r: Result<Query, Error>)
        ensures
            match r {
                Ok(query) => query.asks(self.dns_server, name@, kind),
                Err(e) => query_message(name@, kind.code()) matches Err(why) && e@
                    == Failure::DnsQuery(name_text(name@), why),
            },
    {
        match build_query(name, kind) {
            Ok(packet) => Ok(
                Query { server: self.dns_server, kind, name: slice_to_vec(name), packet },
            ),
            Err(why) => Err(Error::DnsQuery(query_string(name), why)),
        }
    }

    /// Builds the query for the addresses of `name`.
    pub fn query_a(&self, name: &[u8]) -> (r: Result<Query, Error>)
        ensures
            match r {
                Ok(query) => query.asks(self.dns_server, name@, RecordType::A),
                Err(e) => query_message(name@, RecordType::A.code()) matches Err(why) && e@
                    == Failure::DnsQuery(name_text(name@), why),
            },
    {
        self.query(name, RecordType::A)
    }
}

/// A truncated response is an error of its own, whatever it holds: it gives
/// `TcpUnsupported`, with the name asked about and the server.
pub proof fn lemma_truncated_is_refused(query: Query, response: ResponseView)
    requires
        response.flags & crate::wire::FLAG_TRUNCATED == crate::wire::FLAG_TRUNCATED,
    ensures
        spec_read(query, Ok(response)) == Err::<ResponseView, Failure>(
            Failure::TcpUnsupported(name_text(query.name@), spec_server_text(query.server)),
        ),
{
}

/// Whether a datagram is a well-formed response with the truncation bit set,
/// read as a reply to `query`.
pub open spec fn is_truncated(query: Query, raw: Seq<u8>) -> bool {
    let flat = if query.kind == RecordType::A {
        Ok(raw)
    } else {
        expanded(raw)
    };
    flat matches Ok(bytes) && decoded(bytes) matches Ok(response) && response.flags
        & crate::wire::FLAG_TRUNCATED == crate::wire::FLAG_TRUNCATED
}

/// A truncated reply fails the lookup with `TcpUnsupported`: no address is
/// taken from it.
pub proof fn lemma_truncated_reply_fails(query: Query, raw: Seq<u8>)
    requires
        is_truncated(query, raw),
    ensures
        spec_response(query, ReplyView::Datagram(raw)) == Err::<ResponseView, Failure>(
            Failure::TcpUnsupported(name_text(query.name@), spec_server_text(query.server)),
        ),
        spec_addresses(query, ReplyView::Datagram(raw)) == Err::<Seq<IpAddress>, Failure>(
            Failure::TcpUnsupported(name_text(query.name@), spec_server_text(query.server)),
        ),
{
}

/// What comes first in `answers.filter(..)` when one more record is taken.
proof fn lemma_addresses_push(answers: Seq<RecordView>, n: int)
    requires
        0 <= n < answers.len(),
    ensures
        addresses_in(answers.take(n + 1)) == match answers[n] {
            RecordView::Address(ip) => addresses_in(answers.take(n)).push(ip),
            _ => addresses_in(answers.take(n)),
        },
{
    reveal(Seq::filter);
    let head = answers.take(n + 1);
    assert(head.drop_last() =~= answers.take(n));
    assert(head.last() == answers[n]);
    let kept = answers.take(n).filter(|r: RecordView| r is Address);
    match answers[n] {
        RecordView::Address(ip) => {
            assert(head.filter(|r: RecordView| r is Address) == kept.push(answers[n]));
            assert(kept.push(answers[n]).map_values(|r: RecordView| r->Address_0)
                =~= kept.map_values(|r: RecordView| r->Address_0).push(ip));
        },
        _ => {
            assert(head.filter(|r: RecordView| r is Address) == kept);
        },
    }
}

/// Takes the addresses out of the answers of a response to a query for
/// `query_name`. An empty answer section gives no address, which is no error.
/// Where the section has records and none of them holds an address, the error
/// is `ExtractIps`, with the codec's words on the first record.
pub fn extract_ips(response: Response, query_name: &[u8]) -> (r: Result<Vec<IpAddress>, Error>)
    ensures
        result_view(r) == spec_extract_ips(response@.answers, name_text(query_name@)),
{
    let mut answers = response.answers;
    let ghost all = crate::wire::record_views(answers@);
    let mut ips: Vec<IpAddress> = Vec::new();
    let mut i: usize = 0;
    while i < answers.len()
        invariant
            i <= answers@.len(),
            all == crate::wire::record_views(answers@),
            ips@ == addresses_in(all.take(i as int)),
        decreases answers@.len() - i,
    {
        proof {
            lemma_addresses_push(all, i as int);
        }
        match &answers[i] {
            Record::Address(ip) => {
                ips.push(*ip);
            },
            _ => {},
        }
        i += 1;
    }
    assert(all.take(all.len() as int) == all);
    if ips.len() == 0 && answers.len() > 0 {
        match answers.swap_remove(0) {
            Record::Data { why, .. } => Err(Error::ExtractIps(query_string(query_name), why)),
            Record::Address(_) => {
                proof {
                    all.lemma_filter_contains(|r: RecordView| r is Address, 0);
                }
                Ok(ips)
            },
        }
    } else {
        Ok(ips)
    }
}

/// A failed exchange fails the lookup with the error of its stage, and the
/// socket's error is the cause that the error carries.
pub proof fn lemma_failed_exchange(query: Query, stage: Stage, cause: std::io::Error)
    ensures
        spec_response(query, ReplyView::Failed(stage, cause)) == Err::<ResponseView, Failure>(
            transport_failure(stage, spec_server_text(query.server), cause),
        ),
        spec_addresses(query, ReplyView::Failed(stage, cause)) == Err::<Seq<IpAddress>, Failure>(
            transport_failure(stage, spec_server_text(query.server), cause),
        ),
        socket_error(transport_failure(stage, spec_server_text(query.server), cause)) == Some(
            cause,
        ),
{
}

} // verus!
