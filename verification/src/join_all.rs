//! Joining the results of operations that ran side by side: whatever the
//! order in which they ended, the results stand in the order in which the
//! operations were given.
use vstd::prelude::*;

verus! {

/// The results of a fixed number of operations, each in the place of its
/// operation. A place is empty until its operation has ended.
#[derive(Debug)]
pub struct JoinAll<T> {
    /// One slot for each operation.
    pub slots: Vec<Option<T>>,
}

impl<T> View for JoinAll<T> {
    type V = Seq<Option<T>>;

    open spec fn view(&self) -> Seq<Option<T>> {
        self.slots@
    }
}

/// Whether every place holds a result.
pub open spec fn all_done<T>(slots: Seq<Option<T>>) -> bool {
    forall|i: int| 0 <= i < slots.len() ==> (#[trigger] slots[i]) is Some
}

/// Whether one of `completions`, from the one at `from` on, is the result of
/// the operation `i`.
pub open spec fn names<T>(completions: Seq<(usize, T)>, from: int, i: int) -> bool {
    exists|k: int| from <= k < completions.len() && (#[trigger] completions[k]).0 == i
}

/// Whether `completions`, each an operation's index with its result, name
/// each of `n` operations once: every index is below `n`, none comes twice,
/// and none is missing.
pub open spec fn completes<T>(n: nat, completions: Seq<(usize, T)>) -> bool {
    &&& forall|k: int| 0 <= k < completions.len() ==> (#[trigger] completions[k]).0 < n
    &&& forall|j: int, k: int|
        0 <= j < k < completions.len() ==> (#[trigger] completions[j]).0 != (
        #[trigger] completions[k]).0
    &&& forall|i: int| 0 <= i < n ==> #[trigger] names(completions, 0, i)
}

impl<T> JoinAll<T> {
    /// Places for the results of `n` operations, all empty.
    pub fn new(n: usize) -> (join: Self)
        ensures
            join@ == Seq::new(n as nat, |i: int| None::<T>),
    {
        let mut slots: Vec<Option<T>> = Vec::new();
        let mut i: usize = 0;
        while i < n
            invariant
                i <= n,
                slots@ == Seq::new(i as nat, |k: int| None::<T>),
            decreases n - i,
        {
            slots.push(None);
            i += 1;
            assert(slots@ =~= Seq::new(i as nat, |k: int| None::<T>));
        }
        JoinAll { slots }
    }

    /// The number of operations.
    pub fn len(&self) -> (n: usize)
        ensures
            n == self@.len(),
    {
        self.slots.len()
    }

    /// Puts `value` in the place of the operation `index`. Nothing is done,
    /// and `false` returned, where there is no such operation or its place is
    /// taken.
    pub fn complete(&mut self, index: usize, value: T) -> (ok: bool)
        ensures
            ok == (index < old(self)@.len() && old(self)@[index as int] is None),
            ok ==> final(self)@ == old(self)@.update(index as int, Some(value)),
            !ok ==> final(self)@ == old(self)@,
    {
        if index < self.slots.len() && self.slots[index].is_none() {
            self.slots.set(index, Some(value));
            true
        } else {
            false
        }
    }

    /// Whether every operation has ended.
    pub fn is_done(&self) -> (b: bool)
        ensures
            b == all_done(self@),
    {
        let mut i: usize = 0;
        while i < self.slots.len()
            invariant
                i <= self@.len(),
                forall|k: int| 0 <= k < i ==> (#[trigger] self@[k]) is Some,
            decreases self@.len() - i,
        {
            if self.slots[i].is_none() {
                return false;
            }
            i += 1;
        }
        true
    }

    /// The results in the order of their operations, once every operation
    /// has ended, and nothing before.
    pub fn finish(self) -> (r: Option<Vec<T>>)
        ensures
            r is Some <==> all_done(self@),
            r matches Some(out) ==> out@.len() == self@.len() && forall|i: int|
                0 <= i < out@.len() ==> self@[i] == Some(#[trigger] out@[i]),
    {
        let ghost all = self@;
        let mut slots = self.slots;
        let mut rev: Vec<T> = Vec::new();
        while slots.len() > 0
            invariant
                all == self@,
                slots@.len() + rev@.len() == all.len(),
                slots@ == all.take(slots@.len() as int),
                forall|k: int|
                    0 <= k < rev@.len() ==> all[all.len() - 1 - k] == Some(#[trigger] rev@[k]),
            decreases slots@.len(),
        {
            let ghost last = slots@.len() - 1;
            assert(slots@[last] == all[last]);
            match slots.pop() {
                Some(Some(value)) => {
                    rev.push(value);
                },
                _ => {
                    assert(all[last] is None);
                    return None;
                },
            }
            assert(slots@ =~= all.take(slots@.len() as int));
        }
        let ghost turned = rev@;
        let mut out: Vec<T> = Vec::new();
        while rev.len() > 0
            invariant
                all == self@,
                turned.len() == all.len(),
                out@.len() + rev@.len() == all.len(),
                rev@ == turned.take(rev@.len() as int),
                forall|k: int|
                    0 <= k < turned.len() ==> all[all.len() - 1 - k] == Some(#[trigger] turned[k]),
                forall|i: int| 0 <= i < out@.len() ==> all[i] == Some(#[trigger] out@[i]),
            decreases rev@.len(),
        {
            let ghost last = rev@.len() - 1;
            assert(rev@[last] == turned[last]);
            match rev.pop() {
                Some(value) => {
                    out.push(value);
                },
                None => {},
            }
            assert(rev@ =~= turned.take(rev@.len() as int));
        }
        assert forall|i: int| 0 <= i < all.len() implies (#[trigger] all[i]) is Some by {
            assert(all[i] == Some(out@[i]));
        }
        Some(out)
    }
}

/// Puts the results of `n` operations in the order of the operations.
/// `completions` holds them in the order in which the operations ended, each
/// with the index of its operation. The result is `None` unless each of the
/// `n` operations is named once.
pub fn join_all<T>(n: usize, completions: Vec<(usize, T)>) -> (r: Option<Vec<T>>)
    ensures
        r is Some <==> completes(n as nat, completions@),
        r matches Some(out) ==> out@.len() == n && forall|k: int|
            0 <= k < completions@.len() ==> out@[(#[trigger] completions@[k]).0 as int]
                == completions@[k].1,
{
    let ghost all = completions@;
    let mut left = completions;
    let mut join: JoinAll<T> = JoinAll::new(n);
    while left.len() > 0
        invariant
            all == completions@,
            join@.len() == n,
            left@.len() <= all.len(),
            left@ == all.take(left@.len() as int),
            forall|k: int| left@.len() <= k < all.len() ==> (#[trigger] all[k]).0 < n,
            forall|j: int, k: int|
                left@.len() <= j < k < all.len() ==> (#[trigger] all[j]).0 != (#[trigger] all[k]).0,
            forall|k: int|
                left@.len() <= k < all.len() ==> join@[(#[trigger] all[k]).0 as int] == Some(
                    all[k].1,
                ),
            forall|i: int|
                0 <= i < n && (#[trigger] join@[i]) is Some ==> names(
                    all,
                    left@.len() as int,
                    i,
                ),
        decreases left@.len(),
    {
        let ghost at = left@.len() - 1;
        let ghost before = join@;
        assert(left@[at] == all[at]);
        match left.pop() {
            Some((index, value)) => {
                if !join.complete(index, value) {
                    proof {
                        if index < n {
                            assert(names(all, at + 1, index as int));
                            let k = choose|k: int|
                                at < k < all.len() && (#[trigger] all[k]).0 == index;
                            assert(all[at].0 == all[k].0);
                        }
                    }
                    return None;
                }
            },
            None => {},
        }
        assert(left@ =~= all.take(left@.len() as int));
        assert forall|i: int| 0 <= i < n && (#[trigger] join@[i]) is Some implies names(
            all,
            left@.len() as int,
            i,
        ) by {
            if i == all[at].0 {
                assert(all[at].0 == i);
            } else {
                assert(before[i] is Some);
                assert(names(all, at + 1, i));
                let k = choose|k: int| at < k < all.len() && (#[trigger] all[k]).0 == i;
                assert(all[k].0 == i);
            }
        }
    }
    assert(left@.len() == 0);
    let ghost filled = join@;
    match join.finish() {
        Some(out) => {
            assert forall|i: int| 0 <= i < n implies #[trigger] names(all, 0, i) by {
                assert(filled[i] is Some);
            }
            Some(out)
        },
        None => {
            proof {
                if completes(n as nat, all) {
                    assert forall|i: int| 0 <= i < filled.len() implies (
                    #[trigger] filled[i]) is Some by {
                        assert(names(all, 0, i));
                        let k = choose|k: int| 0 <= k < all.len() && (#[trigger] all[k]).0 == i;
                        assert(filled[all[k].0 as int] == Some(all[k].1));
                    }
                }
            }
            None
        },
    }
}

/// The place that an operation's result takes does not depend on when the
/// operation ends: results put in two different places, in either order,
/// make the same row.
pub proof fn lemma_order_of_completion<T>(slots: Seq<Option<T>>, i: int, a: T, j: int, b: T)
    requires
        0 <= i < slots.len(),
        0 <= j < slots.len(),
        i != j,
    ensures
        slots.update(i, Some(a)).update(j, Some(b)) == slots.update(j, Some(b)).update(
            i,
            Some(a),
        ),
        slots.update(i, Some(a)).update(j, Some(b))[i] == Some(a),
        slots.update(i, Some(a)).update(j, Some(b))[j] == Some(b),
{
    assert(slots.update(i, Some(a)).update(j, Some(b)) =~= slots.update(j, Some(b)).update(
        i,
        Some(a),
    ));
}

} // verus!
