//! Dirty gates: comparators over a tuple of version numbers, used to decide
//! whether expensive side-effecting work (the actual render submission, the
//! actual copy to the output target) must repeat.
//!
//! Unlike a memoizing stage, a gate caches no output; it only remembers the
//! tuple it saw last. [`VersionedGate`] additionally carries a version of its
//! own, bumped each time it fires, so that a later gate can key on "the
//! render gate fired since I last looked".

use vstd::prelude::*;

use crate::versioned::{bump, spec_bump};

verus! {

/// A gate that has seen nothing yet.
pub open spec fn gate_fresh(g: DirtyGate) -> bool {
    g.spec_last_seen() is None
}

/// A counting gate that has seen nothing and never fired.
pub open spec fn vgate_fresh(g: VersionedGate) -> bool {
    g.spec_last_seen() is None && g.spec_version() == 0
}

/// Remembers the last version tuple it was shown and reports whether the
/// current one differs.
pub struct DirtyGate {
    last_seen: Option<Vec<u64>>,
}

impl DirtyGate {
    /// The tuple seen at the last check, absent before the first check.
    pub closed spec fn spec_last_seen(&self) -> Option<Seq<u64>> {
        match self.last_seen {
            Option::Some(v) => Option::Some(v@),
            Option::None => Option::None,
        }
    }

    /// Whether the given tuple counts as dirty: always on the first check,
    /// afterwards exactly when it differs from the remembered tuple.
    pub open spec fn spec_dirty(&self, current: Seq<u64>) -> bool {
        self.spec_last_seen() != Some(current)
    }

    /// A gate that has seen nothing yet.
    pub fn new() -> (g: Self)
        ensures
            g.spec_last_seen() is None,
    {
        DirtyGate { last_seen: None }
    }

    /// Reports whether `current` differs from the remembered tuple and
    /// remembers `current` either way.
    pub fn check_and_update(&mut self, current: &Vec<u64>) -> (r: bool)
        ensures
            r == old(self).spec_dirty(current@),
            final(self).spec_last_seen() == Some(current@),
    {
        let dirty = match &self.last_seen {
            Option::None => true,
            Option::Some(t) => !crate::memo::tuple_eq(t, current),
        };
        self.last_seen = Some(current.clone());
        proof {
            assert(self.last_seen matches Some(v) && v@ =~= current@);
        }
        dirty
    }
}

/// How one engine tick relates a plain gate before and after it: when the
/// gate was consulted it fired exactly on a changed tuple and remembered the
/// tuple; otherwise it is untouched and did not fire.
pub open spec fn gate_step_rel(
    pre: DirtyGate,
    post: DirtyGate,
    stepped: bool,
    tuple: Seq<u64>,
    fired: bool,
) -> bool {
    if stepped {
        &&& fired == pre.spec_dirty(tuple)
        &&& post.spec_last_seen() == Some(tuple)
    } else {
        &&& post == pre
        &&& !fired
    }
}

/// As [`gate_step_rel`], for a gate that also counts its firings.
pub open spec fn vgate_step_rel(
    pre: VersionedGate,
    post: VersionedGate,
    stepped: bool,
    tuple: Seq<u64>,
    fired: bool,
) -> bool {
    if stepped {
        &&& fired == pre.spec_dirty(tuple)
        &&& post.spec_last_seen() == Some(tuple)
        &&& post.spec_version() == if fired {
            spec_bump(pre.spec_version())
        } else {
            pre.spec_version()
        }
    } else {
        &&& post == pre
        &&& !fired
    }
}

/// Cold-start law: a gate that has seen nothing reports dirty for every
/// tuple.
pub proof fn lemma_gate_cold_start(g: DirtyGate, current: Seq<u64>)
    requires
        g.spec_last_seen() is None,
    ensures
        g.spec_dirty(current),
{
}

/// Repetition law: a gate that just saw a tuple reports clean for an
/// immediately repeated identical tuple.
pub proof fn lemma_gate_repeat(g: DirtyGate, current: Seq<u64>)
    requires
        g.spec_last_seen() == Some(current),
    ensures
        !g.spec_dirty(current),
{
}

/// A dirty gate that also counts how often it fired: its version is bumped
/// exactly when a check reports dirty.
pub struct VersionedGate {
    gate: DirtyGate,
    version: u64,
}

impl VersionedGate {
    pub closed spec fn spec_last_seen(&self) -> Option<Seq<u64>> {
        self.gate.spec_last_seen()
    }

    pub open spec fn spec_dirty(&self, current: Seq<u64>) -> bool {
        self.spec_last_seen() != Some(current)
    }

    /// How often this gate has fired; the counter saturates at a bound no
    /// real run can reach.
    pub closed spec fn spec_version(&self) -> u64 {
        self.version
    }

    pub fn new() -> (g: Self)
        ensures
            g.spec_last_seen() is None,
            g.spec_version() == 0,
    {
        VersionedGate { gate: DirtyGate::new(), version: 0 }
    }

    /// Reports whether `current` differs from the remembered tuple,
    /// remembers `current`, and counts the firing.
    pub fn check_and_update(&mut self, current: &Vec<u64>) -> (r: bool)
        ensures
            r == old(self).spec_dirty(current@),
            final(self).spec_last_seen() == Some(current@),
            r ==> final(self).spec_version() == spec_bump(old(self).spec_version()),
            !r ==> final(self).spec_version() == old(self).spec_version(),
    {
        let fired = self.gate.check_and_update(current);
        if fired {
            self.version = bump(self.version);
        }
        fired
    }

    /// How often this gate has fired so far.
    pub fn get_version(&self) -> (v: u64)
        ensures
            v == self.spec_version(),
    {
        self.version
    }
}

} // verus!
