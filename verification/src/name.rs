//! Domain names as they stand in the data of `NS` and `PTR` records, and their
//! dotted form.
use vstd::prelude::*;
use crate::addr::DOT;
use crate::wire::{Record, RecordView};

verus! {

/// The longest label of a name.
pub const MAX_LABEL: u8 = 63;

/// The labels of a name in wire form, each followed by a dot. In wire form a
/// name is a row of labels, each behind a byte with its length, and a zero
/// byte after the last. There is no dotted form where a label is empty, longer
/// than 63 bytes, cut short or holds a dot, nor where bytes follow the end.
pub open spec fn spec_labels(wire: Seq<u8>) -> Option<Seq<u8>>
    decreases wire.len(),
{
    if wire.len() == 0 {
        None
    } else if wire[0] == 0 {
        if wire.len() == 1 {
            Some(Seq::empty())
        } else {
            None
        }
    } else if wire[0] > MAX_LABEL || wire.len() <= wire[0] as int {
        None
    } else if wire.subrange(1, 1 + wire[0] as int).contains(DOT) {
        None
    } else {
        match spec_labels(wire.skip(1 + wire[0] as int)) {
            None => None,
            Some(rest) => Some(wire.subrange(1, 1 + wire[0] as int) + seq![DOT] + rest),
        }
    }
}

/// The dotted form of a name in wire form, with its final dot: `mail`, `org`
/// gives `mail.org.`, and the name without labels gives `.`.
pub open spec fn spec_wire_name(wire: Seq<u8>) -> Option<Seq<u8>> {
    match spec_labels(wire) {
        None => None,
        Some(labels) => Some(
            if labels.len() == 0 {
                seq![DOT]
            } else {
                labels
            },
        ),
    }
}

/// `labels` put before what the rest of a name gives.
pub open spec fn after(labels: Seq<u8>, rest: Option<Seq<u8>>) -> Option<Seq<u8>> {
    match rest {
        None => None,
        Some(tail) => Some(labels + tail),
    }
}

/// Appends the label of `n` bytes that starts at `start` to `out`, unless it
/// holds a dot.
fn push_label(out: &mut Vec<u8>, wire: &[u8], start: usize, n: u8) -> (ok: bool)
    requires
        start + n <= wire@.len(),
    ensures
        ok == !wire@.subrange(start as int, start + n).contains(DOT),
        ok ==> final(out)@ == old(out)@ + wire@.subrange(start as int, start + n),
{
    let ghost label = wire@.subrange(start as int, start + n);
    let total: usize = wire.len();
    let mut j: usize = 0;
    while j < n as usize
        invariant
            j <= n,
            total == wire@.len(),
            start + n <= wire@.len(),
            label == wire@.subrange(start as int, start + n),
            out@ == old(out)@ + label.take(j as int),
            !label.take(j as int).contains(DOT),
        decreases n - j,
    {
        let b: u8 = wire[start + j];
        assert(label[j as int] == b);
        if b == DOT {
            return false;
        }
        out.push(b);
        assert(label.take(j + 1) =~= label.take(j as int).push(b));
        assert(!label.take(j + 1).contains(DOT)) by {
            let longer = label.take(j + 1);
            if longer.contains(DOT) {
                let k = choose|k: int| 0 <= k < longer.len() && longer[k] == DOT;
                if k < j {
                    assert(label.take(j as int)[k] == DOT);
                }
            }
        }
        j += 1;
    }
    assert(label.take(n as int) =~= label);
    true
}

/// Writes a name in wire form as dotted text, if it is well formed.
pub fn wire_name(wire: &[u8]) -> (r: Option<Vec<u8>>)
    ensures
        match r {
            Some(name) => spec_wire_name(wire@) == Some(name@),
            None => spec_wire_name(wire@) is None,
        },
{
    let mut out: Vec<u8> = Vec::new();
    let mut i: usize = 0;
    assert(wire@.skip(0) =~= wire@);
    assert forall|tail: Seq<u8>| #[trigger] (out@ + tail) =~= tail by {}
    loop
        invariant
            i <= wire@.len(),
            spec_labels(wire@) == after(out@, spec_labels(wire@.skip(i as int))),
        decreases wire@.len() - i,
    {
        let ghost rest = wire@.skip(i as int);
        if i >= wire.len() {
            return None;
        }
        let n: u8 = wire[i];
        assert(rest[0] == n);
        if n == 0 {
            if i + 1 == wire.len() {
                assert(out@ + Seq::<u8>::empty() =~= out@);
                if out.len() == 0 {
                    out.push(DOT);
                    assert(out@ =~= seq![DOT]);
                }
                return Some(out);
            } else {
                return None;
            }
        }
        if n > MAX_LABEL || wire.len() - i <= n as usize {
            return None;
        }
        let ghost label = wire@.subrange(i + 1, i + 1 + n);
        assert(rest.subrange(1, 1 + n as int) =~= label);
        let ghost before = out@;
        if !push_label(&mut out, wire, i + 1, n) {
            return None;
        }
        out.push(DOT);
        i = i + 1 + n as usize;
        assert(rest.skip(1 + n as int) =~= wire@.skip(i as int));
        assert(out@ =~= before + (label + seq![DOT]));
        assert forall|tail: Seq<u8>| before + (label + seq![DOT] + tail) =~= #[trigger] (out@
            + tail) by {}
    }
}

/// The name that a record gives for a lookup of records of type `rr_type`:
/// the dotted form of its data, where the record is of that type and its data
/// is a well-formed name.
pub open spec fn spec_record_name(record: RecordView, rr_type: u16) -> Option<Seq<u8>> {
    match record {
        RecordView::Address(_) => None,
        RecordView::Data { rr_type: t, rdata, .. } => if t == rr_type {
            spec_wire_name(rdata)
        } else {
            None
        },
    }
}

/// The name of the first record that gives one.
pub open spec fn spec_first_name(answers: Seq<RecordView>, rr_type: u16) -> Option<Seq<u8>>
    decreases answers.len(),
{
    if answers.len() == 0 {
        None
    } else {
        match spec_record_name(answers[0], rr_type) {
            Some(name) => Some(name),
            None => spec_first_name(answers.drop_first(), rr_type),
        }
    }
}

/// The name that a record gives for a lookup of records of type `rr_type`.
pub fn record_name(record: &Record, rr_type: u16) -> (r: Option<Vec<u8>>)
    ensures
        match r {
            Some(name) => spec_record_name(record@, rr_type) == Some(name@),
            None => spec_record_name(record@, rr_type) is None,
        },
{
    match record {
        Record::Address(_) => None,
        Record::Data { rr_type: t, rdata, .. } => {
            if *t == rr_type {
                wire_name(rdata.as_slice())
            } else {
                None
            }
        },
    }
}

/// The first name among the answers to a lookup of records of type
/// `rr_type`.
pub fn first_name(answers: &Vec<Record>, rr_type: u16) -> (r: Option<Vec<u8>>)
    ensures
        match r {
            Some(name) => spec_first_name(crate::wire::record_views(answers@), rr_type) == Some(
                name@,
            ),
            None => spec_first_name(crate::wire::record_views(answers@), rr_type) is None,
        },
{
    let ghost all = crate::wire::record_views(answers@);
    let mut i: usize = 0;
    assert(all.skip(0) =~= all);
    while i < answers.len()
        invariant
            i <= answers@.len(),
            all == crate::wire::record_views(answers@),
            spec_first_name(all, rr_type) == spec_first_name(all.skip(i as int), rr_type),
        decreases answers@.len() - i,
    {
        let ghost rest = all.skip(i as int);
        assert(rest[0] == answers@[i as int]@);
        assert(rest.drop_first() =~= all.skip(i + 1));
        match record_name(&answers[i], rr_type) {
            Some(name) => {
                return Some(name);
            },
            None => {},
        }
        i += 1;
    }
    None
}

} // verus!
