//! Identities of engines, handed out in increasing order by an allocator.

use vstd::prelude::*;

verus! {

/// The decimal digit for `d`, which is below ten.
pub open spec fn digit_char(d: nat) -> char {
    seq!['0', '1', '2', '3', '4', '5', '6', '7', '8', '9'][d as int]
}

/// The decimal representation of `n`, without leading zeros.
pub open spec fn decimal(n: nat) -> Seq<char>
    decreases n,
{
    if n < 10 {
        seq![digit_char(n)]
    } else {
        decimal(n / 10) + seq![digit_char(n % 10)]
    }
}

/// A unique identifier for an engine.
///
/// Engines compare equal exactly when their identifiers do, so two engines
/// can be compared without looking into their implementations.
#[derive(Debug, PartialEq, Eq, Structural, PartialOrd, Ord)]
pub struct EngineId {
    id: usize,
}

impl EngineId {
    /// The number that identifies the engine.
    pub closed spec fn value(&self) -> nat {
        self.id as nat
    }

    /// This identifier as a decimal string.
    pub fn id(&self) -> (r: String)
        ensures
            r@ == decimal(self.value()),
    {
        let mut s = String::new();
        push_decimal(&mut s, self.id);
        s
    }
}

/// The one-character string for the digit `d`.
fn digit_str(d: usize) -> (r: &'static str)
    requires
        d < 10,
    ensures
        r@ == seq![digit_char(d as nat)],
{
    proof {
        reveal_strlit("0");
        reveal_strlit("1");
        reveal_strlit("2");
        reveal_strlit("3");
        reveal_strlit("4");
        reveal_strlit("5");
        reveal_strlit("6");
        reveal_strlit("7");
        reveal_strlit("8");
        reveal_strlit("9");
    }
    if d == 0 {
        "0"
    } else if d == 1 {
        "1"
    } else if d == 2 {
        "2"
    } else if d == 3 {
        "3"
    } else if d == 4 {
        "4"
    } else if d == 5 {
        "5"
    } else if d == 6 {
        "6"
    } else if d == 7 {
        "7"
    } else if d == 8 {
        "8"
    } else {
        "9"
    }
}

/// Appends the decimal representation of `n` to `s`.
fn push_decimal(s: &mut String, n: usize)
    ensures
        final(s)@ == old(s)@ + decimal(n as nat),
    decreases n,
{
    if n >= 10 {
        push_decimal(s, n / 10);
    }
    s.append(digit_str(n % 10));
    proof {
        assert(final(s)@ =~= old(s)@ + decimal(n as nat));
    }
}

/// Hands out engine identifiers, each one greater than the one before.
///
/// One allocator serves a whole process; callers that construct engines
/// from several threads share it behind a lock.
pub struct EngineIdAllocator {
    next: usize,
}

/// The identifier an allocator in state `a` hands out, and its next state:
/// the next number and one more, or nothing once the numbers are spent.
pub closed spec fn allocation(a: EngineIdAllocator) -> (Option<EngineId>, EngineIdAllocator) {
    if a.next < usize::MAX {
        (Some(EngineId { id: a.next }), EngineIdAllocator { next: (a.next + 1) as usize })
    } else {
        (None, a)
    }
}

/// The identifiers handed out by `n` allocations from state `a`, in order.
pub open spec fn allocations(a: EngineIdAllocator, n: nat) -> Seq<Option<EngineId>>
    decreases n,
{
    if n == 0 {
        seq![]
    } else {
        seq![allocation(a).0] + allocations(allocation(a).1, (n - 1) as nat)
    }
}

impl EngineIdAllocator {
    /// The number the next identifier will carry.
    pub closed spec fn next_value(&self) -> nat {
        self.next as nat
    }

    /// An allocator whose first identifier is 0.
    pub fn new() -> (r: EngineIdAllocator)
        ensures
            r.next_value() == 0,
    {
        EngineIdAllocator { next: 0 }
    }

    /// A fresh identifier, or `None` once every number has been handed out.
    pub fn allocate(&mut self) -> (r: Option<EngineId>)
        ensures
            (r, *final(self)) == allocation(*old(self)),
            old(self).next_value() < usize::MAX ==> r is Some && r.unwrap().value()
                == old(self).next_value() && final(self).next_value() == old(self).next_value() + 1,
            old(self).next_value() == usize::MAX ==> r is None && *final(self) == *old(self),
    {
        if self.next < usize::MAX {
            let id = EngineId { id: self.next };
            self.next = self.next + 1;
            Some(id)
        } else {
            None
        }
    }
}

/// Identifiers handed out one after another by one allocator strictly
/// increase, so no two of them are equal.
pub proof fn lemma_allocations_increase(a: EngineIdAllocator, n: nat, i: int, j: int)
    requires
        0 <= i < j < n,
        allocations(a, n)[j] is Some,
    ensures
        allocations(a, n)[i] is Some,
        allocations(a, n)[i].unwrap().value() < allocations(a, n)[j].unwrap().value(),
{
    lemma_allocations_shape(a, n);
}

/// The `k`-th of `n` allocations from `a` carries `a`'s next number plus
/// `k`, while that stays below the last number; after that none is given.
proof fn lemma_allocations_shape(a: EngineIdAllocator, n: nat)
    ensures
        allocations(a, n).len() == n,
        forall|k: int|
            0 <= k < n ==> (#[trigger] allocations(a, n)[k] is Some <==> a.next + k < usize::MAX),
        forall|k: int|
            0 <= k < n && a.next + k < usize::MAX ==> (#[trigger] allocations(a, n)[k]).unwrap().id
                == a.next + k,
    decreases n,
{
    if n > 0 {
        lemma_allocations_shape(allocation(a).1, (n - 1) as nat);
        let rest = allocations(allocation(a).1, (n - 1) as nat);
        assert(allocations(a, n) == seq![allocation(a).0] + rest);
        assert forall|k: int| 0 < k < n implies allocations(a, n)[k] == rest[k - 1] by {}
    }
}

} // verus!
