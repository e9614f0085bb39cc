//! Task identities and the generator that assigns them.

use vstd::prelude::*;

verus! {

/// The modulus of the 64-bit identity counter.
pub const ID_SPACE: u64 = 0xffff_ffff_ffff_ffff;

/// An opaque 64-bit task identity, assigned in increasing counter order and
/// never reused within one pass through the 64-bit identity space.
#[derive(Clone, Copy, Debug, PartialEq, Eq, Structural)]
pub struct TaskId(pub u64);

/// The counter value that follows `c`: a 64-bit wrapping increment.
pub open spec fn counter_after(c: u64) -> u64 {
    if c == ID_SPACE {
        0
    } else {
        (c + 1) as u64
    }
}

/// The identity handed out by the `k`-th call (counting from zero) to a
/// generator whose counter stands at `start`, for `k` within one pass
/// through the identity space.
pub open spec fn nth_id(start: u64, k: nat) -> u64
    recommends
        k <= ID_SPACE + 1,
{
    if start + k <= ID_SPACE {
        (start + k) as u64
    } else {
        (start + k - (ID_SPACE + 1)) as u64
    }
}

/// Produces globally unique task identities by a wrapping fetch-and-increment
/// counter; identities repeat only after the whole 64-bit space is exhausted,
/// which callers treat as unreachable.
pub struct IdGenerator {
    counter: u64,
}

impl IdGenerator {
    /// The counter value the next call to `next` will hand out.
    pub closed spec fn counter(&self) -> u64 {
        self.counter
    }

    /// A fresh generator whose first identity is zero.
    pub fn new() -> (g: IdGenerator)
        ensures
            g.counter() == 0,
    {
        IdGenerator { counter: 0 }
    }

    /// Hands out the current counter value as an identity and advances the
    /// counter, wrapping after the identity space is exhausted.
    pub fn next(&mut self) -> (id: TaskId)
        ensures
            id.0 == old(self).counter(),
            id.0 == nth_id(old(self).counter(), 0),
            final(self).counter() == counter_after(old(self).counter()),
            final(self).counter() == nth_id(old(self).counter(), 1),
    {
        let id = TaskId(self.counter);
        if self.counter == ID_SPACE {
            self.counter = 0;
        } else {
            self.counter = self.counter + 1;
        }
        id
    }
}

/// Chaining: after one call advances the counter, the identities that follow
/// are the tail of the identity sequence of the original counter.
pub proof fn lemma_nth_id_step(start: u64, k: nat)
    requires
        k + 1 <= ID_SPACE + 1,
    ensures
        nth_id(counter_after(start), k) == nth_id(start, k + 1),
{
}

/// Uniqueness: among any run of successive identities no longer than the
/// 64-bit identity space, all identities are distinct. A run of more than
/// `ID_SPACE + 1` calls repeats, and is treated as unreachable.
pub proof fn lemma_ids_distinct(start: u64, i: nat, j: nat)
    requires
        i < j <= ID_SPACE,
    ensures
        nth_id(start, i) != nth_id(start, j),
{
}

} // verus!
