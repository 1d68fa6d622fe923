//! A memoizing stage: a cached computation step that must be rerun exactly
//! when the version tuple of its inputs differs from the tuple recorded at
//! the last run.
//!
//! The stage itself performs no computation. A consumer first asks
//! [`Stage::needs_run`]; only when that answers `true` may it perform the
//! underlying work and store the result with [`Stage::record`], which also
//! bumps the stage's own output version. Splitting the check from the run
//! lets the engine keep the (possibly device-bound) work outside this type
//! while the bookkeeping stays fully checked.

use vstd::prelude::*;

use crate::versioned::{bump, spec_bump, VersionedCell};

verus! {

/// How one engine tick relates a stage before and after it: when the stage
/// was ready (every required input present) and the tuple differed from the
/// recorded one, the work ran and was recorded; otherwise the stage is
/// untouched.
pub open spec fn stage_step_rel<O>(
    pre: Stage<O>,
    post: Stage<O>,
    ready: bool,
    tuple: Seq<u64>,
) -> bool {
    if ready && pre.spec_needs(tuple) {
        &&& post.spec_last() == Some(tuple)
        &&& post.spec_cached() is Some
        &&& post.spec_out_version() == spec_bump(pre.spec_out_version())
    } else {
        post == pre
    }
}

/// Compares two version tuples, as sequences.
pub(crate) fn tuple_eq(a: &Vec<u64>, b: &Vec<u64>) -> (r: bool)
    ensures
        r == (a@ == b@),
{
    let r = a == b;
    proof {
        if r {
            assert(a@ =~= b@);
        } else {
            if a@ == b@ {
                assert(a.len() == b.len());
                assert(forall|i: int| #![auto] 0 <= i < a.len() ==> a[i] == b[i]);
            }
        }
    }
    r
}

/// A stage that has never run: no recorded tuple, no cached output, output
/// version 0.
pub open spec fn stage_fresh<O>(s: Stage<O>) -> bool {
    &&& s.spec_last() is None
    &&& s.spec_cached() is None
    &&& s.spec_out_version() == 0
}

/// A cached computation step keyed on the version tuple of its inputs.
pub struct Stage<O> {
    last_inputs: Option<Vec<u64>>,
    cached: Option<O>,
    output_version: u64,
}

impl<O> Stage<O> {
    /// The input-version tuple recorded at the last run, absent before the
    /// first run.
    pub closed spec fn spec_last(&self) -> Option<Seq<u64>> {
        match self.last_inputs {
            Option::Some(v) => Option::Some(v@),
            Option::None => Option::None,
        }
    }

    /// The output of the last run, absent before the first run.
    pub closed spec fn spec_cached(&self) -> Option<O> {
        self.cached
    }

    /// The stage's own version: bumped exactly when a run is recorded.
    pub closed spec fn spec_out_version(&self) -> u64 {
        self.output_version
    }

    /// Whether the underlying work must run for the given input tuple:
    /// on the very first call, and whenever the tuple differs from the
    /// recorded one.
    pub open spec fn spec_needs(&self, inputs: Seq<u64>) -> bool {
        match self.spec_last() {
            Option::None => true,
            Option::Some(t) => t != inputs,
        }
    }

    /// A stage that has never run: no recorded tuple, no cached output,
    /// output version 0.
    pub fn new() -> (s: Self)
        ensures
            s.spec_last() is None,
            s.spec_cached() is None,
            s.spec_out_version() == 0,
    {
        Stage { last_inputs: None, cached: None, output_version: 0 }
    }

    /// Decides [`Stage::spec_needs`] at run time.
    pub fn needs_run(&self, inputs: &Vec<u64>) -> (r: bool)
        ensures
            r == self.spec_needs(inputs@),
    {
        match &self.last_inputs {
            Option::None => true,
            Option::Some(t) => !tuple_eq(t, inputs),
        }
    }

    /// Stores the result of a run for the given input tuple. May only be
    /// called when the run was actually due, so that the underlying work is
    /// performed exactly once per distinct input-version tuple.
    pub fn record(&mut self, inputs: &Vec<u64>, out: O)
        requires
            old(self).spec_needs(inputs@),
        ensures
            final(self).spec_last() == Some(inputs@),
            final(self).spec_cached() == Some(out),
            final(self).spec_out_version() == spec_bump(old(self).spec_out_version()),
            final(self).spec_out_version() >= old(self).spec_out_version(),
    {
        self.last_inputs = Some(inputs.clone());
        self.cached = Some(out);
        self.output_version = bump(self.output_version);
        proof {
            assert(self.last_inputs matches Some(v) && v@ =~= inputs@);
        }
    }

    /// The cached output of the last run.
    pub fn output(&self) -> (r: &Option<O>)
        ensures
            *r == self.spec_cached(),
    {
        &self.cached
    }

    /// The stage's own version.
    pub fn output_version(&self) -> (v: u64)
        ensures
            v == self.spec_out_version(),
    {
        self.output_version
    }

    /// The cached output together with the stage's own version, as a cell,
    /// so a downstream consumer keys off the stage's change counter rather
    /// than the value.
    pub fn as_cell(&self) -> (c: VersionedCell<O>) where O: Copy
        ensures
            c.value == self.spec_cached(),
            c.version == self.spec_out_version(),
    {
        VersionedCell::from_parts(*self.output(), self.output_version())
    }
}

/// A one-entry version tuple.
pub fn tuple1(a: u64) -> (v: Vec<u64>)
    ensures
        v@ =~= seq![a],
{
    let mut v: Vec<u64> = Vec::new();
    v.push(a);
    v
}

/// A two-entry version tuple.
pub fn tuple2(a: u64, b: u64) -> (v: Vec<u64>)
    ensures
        v@ =~= seq![a, b],
{
    let mut v = tuple1(a);
    v.push(b);
    v
}

/// A three-entry version tuple.
pub fn tuple3(a: u64, b: u64, c: u64) -> (v: Vec<u64>)
    ensures
        v@ =~= seq![a, b, c],
{
    let mut v = tuple2(a, b);
    v.push(c);
    v
}

/// A four-entry version tuple.
pub fn tuple4(a: u64, b: u64, c: u64, d: u64) -> (v: Vec<u64>)
    ensures
        v@ =~= seq![a, b, c, d],
{
    let mut v = tuple3(a, b, c);
    v.push(d);
    v
}

/// A five-entry version tuple.
pub fn tuple5(a: u64, b: u64, c: u64, d: u64, e: u64) -> (v: Vec<u64>)
    ensures
        v@ =~= seq![a, b, c, d, e],
{
    let mut v = tuple4(a, b, c, d);
    v.push(e);
    v
}

/// A seven-entry version tuple.
pub fn tuple7(a: u64, b: u64, c: u64, d: u64, e: u64, f: u64, g: u64) -> (v: Vec<u64>)
    ensures
        v@ =~= seq![a, b, c, d, e, f, g],
{
    let mut v = tuple5(a, b, c, d, e);
    v.push(f);
    v.push(g);
    v
}

/// Pure memoization law: once a run for some input-version tuple is on
/// record, the same tuple needs no further run — together with the
/// precondition of [`Stage::record`] (a run may only be recorded when it was
/// due), the underlying work runs exactly once per distinct tuple.
pub proof fn lemma_memoized_once<O>(s: Stage<O>, inputs: Seq<u64>)
    requires
        s.spec_last() == Some(inputs),
    ensures
        !s.spec_needs(inputs),
{
}

} // verus!
