//! The errors of DNS lookups, and the causes that they carry.
use vstd::prelude::*;
use vstd::string::StringExecFns;
use crate::addr::IpAddress;

verus! {

/// An error of the operating system's I/O, as a socket reports it.
#[verifier::external_type_specification]
#[verifier::external_body]
pub struct ExIoError(std::io::Error);

/// An error of the parser of resolver configuration files.
#[verifier::external_type_specification]
#[verifier::external_body]
pub struct ExConfigError(resolv_conf::ParseError);

/// The step of a datagram exchange at which the network failed.
#[derive(Clone, Copy, Debug, PartialEq, Eq, Structural)]
pub enum Stage {
    /// Opening the local UDP endpoint.
    Bind,
    /// Connecting the endpoint to the DNS server.
    Connect,
    /// Sending the query.
    Send,
    /// Waiting for the reply.
    Recv,
}

/// Why a lookup failed. The first text of a variant names what was looked up
/// (the query name, the server, the file or the blocklist zone). The causes
/// that lower layers reported are carried along; of the DNS codec's errors,
/// which come wrapped in a type of their own, the message is kept.
#[derive(Debug)]
pub enum Error {
    /// The query name cannot be put into a DNS query.
    DnsQuery(String, String),
    /// The response has no usable answer, where one was needed.
    EmptyResponse(String),
    /// The response has answers, and none of them holds an address.
    ExtractIps(String, String),
    /// No local UDP endpoint could be opened.
    Bind(std::io::Error),
    /// The endpoint could not be connected to the named server.
    Connect(String, std::io::Error),
    /// The query could not be sent to the named server.
    Send(String, std::io::Error),
    /// No response was received from the named server.
    Recv(String, std::io::Error),
    /// The response is no well-formed DNS message.
    ParseResponse(String, String),
    /// The response to the named query was truncated by the named server: the
    /// full answer needs TCP, which is not spoken.
    TcpUnsupported(String, String),
    /// The named resolver configuration file could not be read.
    ResolvConfRead(String, std::io::Error),
    /// The named resolver configuration file could not be parsed.
    ResolvConfParse(String, resolv_conf::ParseError),
    /// The named resolver configuration file lists no nameserver.
    NoNameservers(String),
    /// Looking up the nameserver of the named blocklist failed.
    BlockListNameserver(String, Box<Error>),
    /// No address could be found for the nameserver of the named blocklist.
    BlockListNameserverIp(String),
    /// Looking up an address on the named blocklist failed.
    BlockListLookup(String, Box<Error>),
    /// The address is an IPv6 address that embeds no IPv4 address.
    NotIpv4(IpAddress),
}

/// The mathematical form of an `Error`: its texts as sequences of characters,
/// and its causes as they are.
pub enum Failure {
    DnsQuery(Seq<char>, Seq<char>),
    EmptyResponse(Seq<char>),
    ExtractIps(Seq<char>, Seq<char>),
    Bind(std::io::Error),
    Connect(Seq<char>, std::io::Error),
    Send(Seq<char>, std::io::Error),
    Recv(Seq<char>, std::io::Error),
    ParseResponse(Seq<char>, Seq<char>),
    TcpUnsupported(Seq<char>, Seq<char>),
    ResolvConfRead(Seq<char>, std::io::Error),
    ResolvConfParse(Seq<char>, resolv_conf::ParseError),
    NoNameservers(Seq<char>),
    BlockListNameserver(Seq<char>, Box<Failure>),
    BlockListNameserverIp(Seq<char>),
    BlockListLookup(Seq<char>, Box<Failure>),
    NotIpv4(IpAddress),
}

impl View for Error {
    type V = Failure;

    open spec fn view(&self) -> Failure
        decreases self,
    {
        match self {
            Error::DnsQuery(name, cause) => Failure::DnsQuery(name@, cause@),
            Error::EmptyResponse(name) => Failure::EmptyResponse(name@),
            Error::ExtractIps(name, cause) => Failure::ExtractIps(name@, cause@),
            Error::Bind(cause) => Failure::Bind(*cause),
            Error::Connect(server, cause) => Failure::Connect(server@, *cause),
            Error::Send(server, cause) => Failure::Send(server@, *cause),
            Error::Recv(server, cause) => Failure::Recv(server@, *cause),
            Error::ParseResponse(name, cause) => Failure::ParseResponse(name@, cause@),
            Error::TcpUnsupported(name, server) => Failure::TcpUnsupported(name@, server@),
            Error::ResolvConfRead(file, cause) => Failure::ResolvConfRead(file@, *cause),
            Error::ResolvConfParse(file, cause) => Failure::ResolvConfParse(file@, *cause),
            Error::NoNameservers(file) => Failure::NoNameservers(file@),
            Error::BlockListNameserver(zone, cause) => Failure::BlockListNameserver(
                zone@,
                Box::new((**cause)@),
            ),
            Error::BlockListNameserverIp(zone) => Failure::BlockListNameserverIp(zone@),
            Error::BlockListLookup(zone, cause) => Failure::BlockListLookup(
                zone@,
                Box::new((**cause)@),
            ),
            Error::NotIpv4(ip) => Failure::NotIpv4(*ip),
        }
    }
}

/// What a failed exchange with `server` is reported as: each stage has its own
/// error, and all but `Bind` name the server. The socket's error is the cause.
pub open spec fn transport_failure(stage: Stage, server: Seq<char>, cause: std::io::Error) -> Failure {
    match stage {
        Stage::Bind => Failure::Bind(cause),
        Stage::Connect => Failure::Connect(server, cause),
        Stage::Send => Failure::Send(server, cause),
        Stage::Recv => Failure::Recv(server, cause),
    }
}

/// The socket's error at the bottom of an error's chain of causes, if the
/// chain ends in one.
pub open spec fn socket_error(failure: Failure) -> Option<std::io::Error>
    decreases failure,
{
    match failure {
        Failure::Bind(cause) => Some(cause),
        Failure::Connect(_, cause) => Some(cause),
        Failure::Send(_, cause) => Some(cause),
        Failure::Recv(_, cause) => Some(cause),
        Failure::BlockListNameserver(_, cause) => socket_error(*cause),
        Failure::BlockListLookup(_, cause) => socket_error(*cause),
        _ => None,
    }
}

/// The message of an error, in one line. It does not repeat the message of
/// a cause that is an error of its own.
pub open spec fn spec_message(failure: Failure) -> Seq<char> {
    match failure {
        Failure::DnsQuery(name, cause) => name + " - bad dns query "@ + cause,
        Failure::EmptyResponse(name) => name + " - response packet has no answer"@,
        Failure::ExtractIps(name, _) => name + " - extract ips"@,
        Failure::Bind(_) => "query - udp bind"@,
        Failure::Connect(server, _) => "query - udp connect to "@ + server,
        Failure::Send(server, _) => "query - udp send to "@ + server,
        Failure::Recv(server, _) => "query - receive dns response from "@ + server,
        Failure::ParseResponse(name, _) => name + " - cannot parse dns response"@,
        Failure::TcpUnsupported(name, server) => name + " - "@ + server
            + " requires TCP which is unsupported"@,
        Failure::ResolvConfRead(file, _) => file + " - parse error"@,
        Failure::ResolvConfParse(file, _) => file + " - parse error"@,
        Failure::NoNameservers(file) => file + " - no nameservers found"@,
        Failure::BlockListNameserver(zone, _) => zone + " - blocklist nameserver lookup failure"@,
        Failure::BlockListNameserverIp(zone) => zone
            + " - cannot obtain ips for blocklist nameserver"@,
        Failure::BlockListLookup(zone, _) => zone + " - blocklist lookup failure"@,
        Failure::NotIpv4(_) => "cannot convert IP6 to IP4"@,
    }
}

/// `start` with `end` behind it.
fn joined(start: &String, end: &str) -> (text: String)
    ensures
        text@ == start@ + end@,
{
    let mut text = start.clone();
    text.append(end);
    text
}

impl Error {
    /// The message of the error, in one line.
    pub fn message(&self) -> (text: String)
        ensures
            text@ == spec_message(self@),
    {
        match self {
            Error::DnsQuery(name, cause) => {
                let text = joined(name, " - bad dns query ");
                joined(&text, cause.as_str())
            },
            Error::EmptyResponse(name) => joined(name, " - response packet has no answer"),
            Error::ExtractIps(name, _) => joined(name, " - extract ips"),
            Error::Bind(_) => String::from_str("query - udp bind"),
            Error::Connect(server, _) => String::from_str("query - udp connect to ").concat(
                server.as_str(),
            ),
            Error::Send(server, _) => String::from_str("query - udp send to ").concat(
                server.as_str(),
            ),
            Error::Recv(server, _) => String::from_str("query - receive dns response from ").concat(
                server.as_str(),
            ),
            Error::ParseResponse(name, _) => joined(name, " - cannot parse dns response"),
            Error::TcpUnsupported(name, server) => {
                let text = joined(name, " - ");
                let text = joined(&text, server.as_str());
                joined(&text, " requires TCP which is unsupported")
            },
            Error::ResolvConfRead(file, _) => joined(file, " - parse error"),
            Error::ResolvConfParse(file, _) => joined(file, " - parse error"),
            Error::NoNameservers(file) => joined(file, " - no nameservers found"),
            Error::BlockListNameserver(zone, _) => joined(
                zone,
                " - blocklist nameserver lookup failure",
            ),
            Error::BlockListNameserverIp(zone) => joined(
                zone,
                " - cannot obtain ips for blocklist nameserver",
            ),
            Error::BlockListLookup(zone, _) => joined(zone, " - blocklist lookup failure"),
            Error::NotIpv4(_) => String::from_str("cannot convert IP6 to IP4"),
        }
    }

    /// The error for an exchange with `server` that failed at `stage` with
    /// `cause`.
    pub fn transport(stage: Stage, server: String, cause: std::io::Error) -> (e: Error)
        ensures
            e@ == transport_failure(stage, server@, cause),
    {
        match stage {
            Stage::Bind => Error::Bind(cause),
            Stage::Connect => Error::Connect(server, cause),
            Stage::Send => Error::Send(server, cause),
            Stage::Recv => Error::Recv(server, cause),
        }
    }

    /// Whether this is the error for a response without a usable answer.
    pub fn is_empty_response(&self) -> (b: bool)
        ensures
            b == (self@ is EmptyResponse),
    {
        match self {
            Error::EmptyResponse(_) => true,
            _ => false,
        }
    }
}

} // verus!
