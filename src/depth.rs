//! The recursion budget of the shading evaluator.
//!
//! A call of the evaluator carries a depth that is either active, with the
//! number of bounces taken so far, or exhausted. An exhausted call returns the
//! background color without querying the scene.
use vstd::prelude::*;

verus! {

/// The largest depth at which a call still queries the scene.
pub const MAX_DEPTH: usize = 4;

#[derive(Clone, Copy, Debug, PartialEq, Eq, Structural)]
pub enum Depth {
    Active(usize),
    Exhausted,
}

impl Depth {
    /// A depth is valid when an active count never exceeds the limit.
    pub open spec fn wf(self) -> bool {
        match self {
            Depth::Active(n) => n <= MAX_DEPTH,
            Depth::Exhausted => true,
        }
    }

    /// The depth of the next nested call.
    pub open spec fn next_spec(self) -> Depth {
        match self {
            Depth::Active(n) => if n + 1 <= MAX_DEPTH {
                Depth::Active((n + 1) as usize)
            } else {
                Depth::Exhausted
            },
            Depth::Exhausted => Depth::Exhausted,
        }
    }

    /// How many more calls may query the scene, this one included.
    pub open spec fn remaining(self) -> nat {
        match self {
            Depth::Active(n) => if n <= MAX_DEPTH {
                (MAX_DEPTH - n + 1) as nat
            } else {
                1
            },
            Depth::Exhausted => 0,
        }
    }

    /// The depth reached from `self` after `k` nested calls.
    pub open spec fn after(self, k: nat) -> Depth
        decreases k,
    {
        if k == 0 {
            self
        } else {
            self.next_spec().after((k - 1) as nat)
        }
    }

    /// The depth of a primary ray.
    pub fn start() -> (r: Depth)
        ensures
            r == Depth::Active(0),
            r.wf(),
    {
        Depth::Active(0)
    }

    /// Whether a call at this depth queries the scene.
    pub fn is_active(&self) -> (r: bool)
        ensures
            r <==> self is Active,
    {
        match self {
            Depth::Active(_) => true,
            Depth::Exhausted => false,
        }
    }

    /// The depth handed to the reflected ray: one more bounce, or exhausted
    /// once the count would pass the limit.
    pub fn next(&self) -> (r: Depth)
        requires
            self.wf(),
        ensures
            r == self.next_spec(),
            r.wf(),
            self is Active ==> r.remaining() + 1 == self.remaining(),
            self is Exhausted ==> r is Exhausted,
    {
        match self {
            Depth::Active(n) => if *n < MAX_DEPTH {
                Depth::Active(*n + 1)
            } else {
                Depth::Exhausted
            },
            Depth::Exhausted => Depth::Exhausted,
        }
    }
}

/// From a valid depth, each nested call takes one unit of budget until none is
/// left, and an exhausted depth stays exhausted.
pub proof fn lemma_after(d: Depth, k: nat)
    requires
        d.wf(),
    ensures
        d.after(k).wf(),
        d.after(k) is Active <==> k < d.remaining(),
        d.after(k) is Active ==> d.after(k) == Depth::Active((d->Active_0 + k) as usize),
    decreases k,
{
    if k > 0 {
        lemma_after(d.next_spec(), (k - 1) as nat);
    }
}

/// A primary ray starts a chain of exactly `MAX_DEPTH + 1` calls that query
/// the scene; every later call in the chain is exhausted.
pub proof fn lemma_primary_chain(k: nat)
    ensures
        Depth::Active(0).after(k) is Active <==> k <= MAX_DEPTH,
        k <= MAX_DEPTH ==> Depth::Active(0).after(k) == Depth::Active(k as usize),
{
    lemma_after(Depth::Active(0), k);
}

} // verus!
