//! The shape of a lookup that needs the network: it asks, is told what came
//! back, and asks again or ends.
use vstd::prelude::*;
use crate::addr::ServerAddr;
use crate::err::{Error, Failure};
use crate::wire::RecordType;

verus! {

/// Where a lookup stands.
#[derive(Debug)]
pub enum Step<M, T> {
    /// The lookup waits for the reply to the query that `M` holds. Send the
    /// query, and resume the lookup with what came back.
    Ask(M),
    /// The lookup has ended, and nothing more is to be sent.
    Done(Result<T, Error>),
}

/// What the next step of a lookup has to be.
pub enum Expect<P, T> {
    /// The lookup goes on in `phase`, with a question about `name` and `kind`
    /// for `server`.
    Ask { phase: P, server: ServerAddr, name: Seq<u8>, kind: RecordType },
    /// The lookup ends with this result.
    Done(Result<T, Failure>),
}

impl<M, T> Step<M, T> {
    /// Whether the lookup has ended.
    pub fn is_done(&self) -> (b: bool)
        ensures
            b == (self is Done),
    {
        match self {
            Step::Ask(_) => false,
            Step::Done(_) => true,
        }
    }
}

} // verus!
