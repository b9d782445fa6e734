//! The DNS wire format, as far as lookups need it: building a query and
//! reading the flags and the answer section of a response. The format itself
//! is the work of the `dnssector` crate; what this module states of it is
//! believed, not proved.
use vstd::prelude::*;
use crate::addr::{IpAddress, Ipv4};

verus! {

/// A DNS message that the codec has validated.
#[verifier::external_type_specification]
#[verifier::external_body]
pub struct ExParsedPacket(dnssector::ParsedPacket);

/// A position in one section of a validated message: it stands at a record.
#[verifier::external_type_specification]
#[verifier::external_body]
pub struct ExResponseIterator<'t>(dnssector::ResponseIterator<'t>);

/// The record types that lookups ask for.
#[derive(Clone, Copy, Debug, PartialEq, Eq, Structural)]
pub enum RecordType {
    /// An IPv4 address.
    A,
    /// The name of a nameserver of a zone.
    Ns,
    /// The name that an address maps back to.
    Ptr,
}

/// The number of the record type `PTR`.
pub const TYPE_PTR: u16 = 12;

/// The number of the record type `A`.
pub const TYPE_A: u16 = 1;

/// The number of the record type `NS`.
pub const TYPE_NS: u16 = 2;

/// The bit of the flags that marks a truncated response.
pub const FLAG_TRUNCATED: u32 = 0x200;

impl RecordType {
    /// The number of the record type on the wire.
    pub open spec fn code(self) -> u16 {
        match self {
            RecordType::A => TYPE_A,
            RecordType::Ns => TYPE_NS,
            RecordType::Ptr => TYPE_PTR,
        }
    }

    /// The number of the record type on the wire.
    #[verifier::when_used_as_spec(code)]
    pub fn number(self) -> (n: u16)
        ensures
            n == self.code(),
    {
        match self {
            RecordType::A => TYPE_A,
            RecordType::Ns => TYPE_NS,
            RecordType::Ptr => TYPE_PTR,
        }
    }
}

/// One record of an answer section, as the codec reads it.
#[derive(Clone, Debug, PartialEq, Eq)]
pub enum Record {
    /// An `A` or `AAAA` record, with its address.
    Address(IpAddress),
    /// Any other record: its type, its data, and the codec's words on why it
    /// holds no address.
    Data { rr_type: u16, rdata: Vec<u8>, why: String },
}

/// The mathematical form of a `Record`.
pub enum RecordView {
    Address(IpAddress),
    Data { rr_type: u16, rdata: Seq<u8>, why: Seq<char> },
}

impl View for Record {
    type V = RecordView;

    open spec fn view(&self) -> RecordView {
        match self {
            Record::Address(ip) => RecordView::Address(*ip),
            Record::Data { rr_type, rdata, why } => RecordView::Data {
                rr_type: *rr_type,
                rdata: rdata@,
                why: why@,
            },
        }
    }
}

/// The views of a sequence of records.
pub open spec fn record_views(records: Seq<Record>) -> Seq<RecordView> {
    Seq::new(records.len(), |i: int| records[i]@)
}

/// What a response holds for a lookup: its flags and its answer section.
#[derive(Clone, Debug, PartialEq, Eq)]
pub struct Response {
    pub flags: u32,
    pub answers: Vec<Record>,
}

/// The mathematical form of a `Response`.
pub struct ResponseView {
    pub flags: u32,
    pub answers: Seq<RecordView>,
}

impl View for Response {
    type V = ResponseView;

    open spec fn view(&self) -> ResponseView {
        ResponseView { flags: self.flags, answers: record_views(self.answers@) }
    }
}

impl Response {
    /// Whether the server cut the response short.
    pub open spec fn spec_truncated(self) -> bool {
        self.flags & FLAG_TRUNCATED == FLAG_TRUNCATED
    }

    /// Whether the server cut the response short, so that the full answer could
    /// only be had over TCP.
    pub fn truncated(&self) -> (b: bool)
        ensures
            b == self.spec_truncated(),
    {
        self.flags & FLAG_TRUNCATED == FLAG_TRUNCATED
    }
}

/// The query that the codec builds for `name` and the record type numbered
/// `rr_type`, without its first two bytes, or the codec's words on why `name`
/// cannot be asked for. The first two bytes of a query are its id, which the
/// codec picks at random.
pub uninterp spec fn query_message(name: Seq<u8>, rr_type: u16) -> Result<Seq<u8>, Seq<char>>;

/// What the codec makes of a datagram: the flags and the answer section of
/// the message, or its words on why this is no well-formed DNS message.
pub uninterp spec fn decoded(raw: Seq<u8>) -> Result<ResponseView, Seq<char>>;

/// A datagram with every compressed name written out in full, or the codec's
/// words on why the datagram is no well-formed DNS message.
pub uninterp spec fn expanded(raw: Seq<u8>) -> Result<Seq<u8>, Seq<char>>;

/// The flags of a validated message, extended flags in the upper half.
pub uninterp spec fn packet_flags(packet: dnssector::ParsedPacket) -> u32;

/// The records of the answer section of a validated message, in their order.
pub uninterp spec fn answer_section(packet: dnssector::ParsedPacket) -> Seq<RecordView>;

/// The records from the one at which `cursor` stands to the end of its
/// section.
pub uninterp spec fn pending(cursor: dnssector::ResponseIterator<'_>) -> Seq<RecordView>;

/// Calls `dnssector::gen::query` for a question of class `IN` and takes the
/// bytes of the message with `ParsedPacket::into_packet`. The codec refuses
/// names that it cannot encode; apart from the random id, the message depends
/// on the name and the type alone.
#[verifier::external_body]
pub(crate) fn build_query(name: &[u8], kind: RecordType) -> (r: Result<Vec<u8>, String>)
    ensures
        match r {
            Ok(packet) => query_message(name@, kind.code()) == Ok::<Seq<u8>, Seq<char>>(
                packet@.skip(2),
            ),
            Err(why) => query_message(name@, kind.code()) == Err::<Seq<u8>, Seq<char>>(why@),
        },
{
    let rr_type = match kind {
        RecordType::A => dnssector::constants::Type::A,
        RecordType::Ns => dnssector::constants::Type::NS,
        RecordType::Ptr => dnssector::constants::Type::PTR,
    };
    match dnssector::gen::query(name, rr_type, dnssector::constants::Class::IN) {
        Ok(packet) => Ok(packet.into_packet()),
        Err(e) => Err(e.to_string()),
    }
}

/// Calls `dnssector::Compress::uncompress`, which validates a datagram and
/// writes its compressed names out in full.
#[verifier::external_body]
pub(crate) fn expand(raw: &[u8]) -> (r: Result<Vec<u8>, String>)
    ensures
        match r {
            Ok(flat) => expanded(raw@) == Ok::<Seq<u8>, Seq<char>>(flat@),
            Err(why) => expanded(raw@) == Err::<Seq<u8>, Seq<char>>(why@),
        },
{
    match dnssector::Compress::uncompress(raw) {
        Ok(flat) => Ok(flat),
        Err(e) => Err(e.to_string()),
    }
}

/// Calls `dnssector::DNSSector::new` and `DNSSector::parse`, which validate
/// every record of an untrusted datagram. Of the packet that comes back, the
/// flags and the answer section are those that `decoded` names.
#[verifier::external_body]
fn parse(raw: Vec<u8>) -> (r: Result<dnssector::ParsedPacket, String>)
    ensures
        match r {
            Ok(packet) => decoded(raw@) == Ok::<ResponseView, Seq<char>>(
                ResponseView { flags: packet_flags(packet), answers: answer_section(packet) },
            ),
            Err(why) => decoded(raw@) == Err::<ResponseView, Seq<char>>(why@),
        },
{
    match dnssector::DNSSector::new(raw) {
        Ok(sector) => match sector.parse() {
            Ok(packet) => Ok(packet),
            Err(e) => Err(e.to_string()),
        },
        Err(e) => Err(e.to_string()),
    }
}

/// Calls `ParsedPacket::flags`.
#[verifier::external_body]
fn flags(packet: &dnssector::ParsedPacket) -> (r: u32)
    ensures
        r == packet_flags(*packet),
{
    packet.flags()
}

/// Calls `ParsedPacket::into_iter_answer`, which gives a cursor at the first
/// record of the answer section, and none where the section is empty.
#[verifier::external_body]
fn first_answer<'a>(packet: &'a mut dnssector::ParsedPacket) -> (r: Option<
    dnssector::ResponseIterator<'a>,
>)
    ensures
        match r {
            Some(cursor) => pending(cursor) == answer_section(*old(packet)) && pending(
                cursor,
            ).len() > 0,
            None => answer_section(*old(packet)).len() == 0,
        },
{
    packet.into_iter_answer()
}

/// Calls `DNSIterable::next`, which moves a cursor to the next record of its
/// section, and gives none after the last.
#[verifier::external_body]
fn next_answer<'a>(cursor: dnssector::ResponseIterator<'a>) -> (r: Option<
    dnssector::ResponseIterator<'a>,
>)
    requires
        pending(cursor).len() > 0,
    ensures
        match r {
            Some(next) => pending(next) == pending(cursor).drop_first() && pending(next).len()
                > 0,
            None => pending(cursor).len() == 1,
        },
{
    dnssector::DNSIterable::next(cursor)
}

/// Calls `RdataIterable::rr_ip`, which gives the address of an `A` or `AAAA`
/// record and an error for a record of any other type.
#[verifier::external_body]
fn answer_ip(cursor: &dnssector::ResponseIterator<'_>) -> (r: Result<IpAddress, String>)
    requires
        pending(*cursor).len() > 0,
    ensures
        match r {
            Ok(ip) => pending(*cursor)[0] == RecordView::Address(ip),
            Err(why) => pending(*cursor)[0] is Data && pending(*cursor)[0]->why == why@,
        },
{
    match dnssector::RdataIterable::rr_ip(cursor) {
        Ok(core::net::IpAddr::V4(a)) => {
            let o = a.octets();
            Ok(IpAddress::V4(Ipv4(o[0], o[1], o[2], o[3])))
        },
        Ok(core::net::IpAddr::V6(a)) => Ok(IpAddress::V6(a.to_bits())),
        Err(e) => Err(e.to_string()),
    }
}

/// Calls `TypedIterable::rr_type`, which gives the number of the record's
/// type.
#[verifier::external_body]
fn answer_type(cursor: &dnssector::ResponseIterator<'_>) -> (r: u16)
    requires
        pending(*cursor).len() > 0,
    ensures
        pending(*cursor)[0] is Data ==> r == pending(*cursor)[0]->rr_type,
{
    dnssector::TypedIterable::rr_type(cursor)
}

/// Calls `RdataIterable::rr_rd`, which gives the data of a record that holds
/// no address, and the address of one that does. Its result has the form of
/// a `Result`, and it is `Ok` for every record.
#[verifier::external_body]
fn answer_data(cursor: &dnssector::ResponseIterator<'_>) -> (r: Result<Option<Vec<u8>>, String>)
    requires
        pending(*cursor).len() > 0,
    ensures
        r is Ok,
        match r {
            Ok(Some(rdata)) => pending(*cursor)[0] is Data && rdata@ == pending(*cursor)[0]->rdata,
            Ok(None) => pending(*cursor)[0] is Address,
            Err(_) => true,
        },
{
    match dnssector::RdataIterable::rr_rd(cursor) {
        Ok(dnssector::RawRRData::Data(rdata)) => Ok(Some(rdata.to_vec())),
        Ok(dnssector::RawRRData::IpAddr(_)) => Ok(None),
        Err(e) => Err(e.to_string()),
    }
}

/// Reads the record at which `cursor` stands.
fn read_record(cursor: &dnssector::ResponseIterator<'_>) -> (record: Record)
    requires
        pending(*cursor).len() > 0,
    ensures
        record@ == pending(*cursor)[0],
{
    match answer_ip(cursor) {
        Ok(ip) => Record::Address(ip),
        Err(why) => {
            let rr_type: u16 = answer_type(cursor);
            match answer_data(cursor) {
                Ok(Some(rdata)) => Record::Data { rr_type, rdata, why },
                _ => Record::Data { rr_type, rdata: Vec::new(), why },
            }
        },
    }
}

/// Reads the answer section of a validated message, record by record.
fn read_answers(packet: dnssector::ParsedPacket) -> (answers: Vec<Record>)
    ensures
        record_views(answers@) == answer_section(packet),
{
    let ghost all = answer_section(packet);
    let mut held = packet;
    let mut answers: Vec<Record> = Vec::new();
    let mut cursor = first_answer(&mut held);
    loop
        invariant
            all == answer_section(packet),
            answers@.len() <= all.len(),
            record_views(answers@) == all.take(answers@.len() as int),
            match cursor {
                Some(c) => pending(c).len() > 0 && pending(c) == all.skip(answers@.len() as int),
                None => answers@.len() == all.len(),
            },
        decreases all.len() - answers@.len() + (if cursor is Some { 1int } else { 0int }),
    {
        match cursor {
            None => {
                assert(all.take(all.len() as int) == all);
                return answers;
            },
            Some(c) => {
                let ghost before = answers@;
                let record = read_record(&c);
                answers.push(record);
                cursor = next_answer(c);
                assert(record_views(answers@) == all.take(answers@.len() as int)) by {
                    assert(all.skip(before.len() as int)[0] == all[before.len() as int]);
                    assert(record_views(answers@) =~= record_views(before).push(record@));
                    assert(all.take(answers@.len() as int) =~= all.take(before.len() as int).push(
                        all[before.len() as int],
                    ));
                }
                assert(pending(c).drop_first() == all.skip(answers@.len() as int));
            },
        }
    }
}

/// Reads a datagram as a DNS response: its flags and its answers, or the
/// codec's words on why this is no well-formed DNS message.
pub fn decode(raw: Vec<u8>) -> (r: Result<Response, String>)
    ensures
        match r {
            Ok(response) => decoded(raw@) == Ok::<ResponseView, Seq<char>>(response@),
            Err(why) => decoded(raw@) == Err::<ResponseView, Seq<char>>(why@),
        },
{
    match parse(raw) {
        Ok(packet) => {
            let flags: u32 = flags(&packet);
            let answers = read_answers(packet);
            Ok(Response { flags, answers })
        },
        Err(why) => Err(why),
    }
}

} // verus!
