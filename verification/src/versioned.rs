//! A value paired with a monotonically increasing change counter.
//!
//! Every raw input of the engine and every cached stage output is held in a
//! [`VersionedCell`]. Downstream consumers decide whether work must repeat by
//! comparing version numbers alone, never by comparing the (possibly opaque)
//! values themselves.

use vstd::prelude::*;

verus! {

/// The successor of a version number. Version counters are never expected to
/// reach `u64::MAX` in any real run; should one ever get there it stays put,
/// so that versions are non-decreasing without any precondition.
pub open spec fn spec_bump(v: u64) -> u64 {
    if v < u64::MAX {
        (v + 1) as u64
    } else {
        v
    }
}

/// Executable twin of [`spec_bump`].
pub fn bump(v: u64) -> (r: u64)
    ensures
        r == spec_bump(v),
{
    if v < u64::MAX {
        v + 1
    } else {
        v
    }
}

/// Content equality, as the engine's change detection understands it: for a
/// `String` it compares the characters, for plain values the values.
pub trait ContentEq: Sized {
    /// What it means for two contents to be unchanged.
    spec fn eqv(&self, other: &Self) -> bool;

    /// Decides [`ContentEq::eqv`] at run time.
    fn eq_content(&self, other: &Self) -> (r: bool)
        ensures
            r == self.eqv(other),
    ;
}

impl ContentEq for String {
    open spec fn eqv(&self, other: &Self) -> bool {
        self@ == other@
    }

    fn eq_content(&self, other: &Self) -> (r: bool)
        ensures
            r == self.eqv(other),
    {
        self.eq(other)
    }
}

impl ContentEq for (u32, u32) {
    open spec fn eqv(&self, other: &Self) -> bool {
        self.0 == other.0 && self.1 == other.1
    }

    fn eq_content(&self, other: &Self) -> (r: bool)
        ensures
            r == self.eqv(other),
    {
        self.0 == other.0 && self.1 == other.1
    }
}

/// Equality of optional contents: both absent, or both present and equal.
pub open spec fn opt_eqv<T: ContentEq>(a: Option<T>, b: Option<T>) -> bool {
    match (a, b) {
        (Option::None, Option::None) => true,
        (Option::Some(x), Option::Some(y)) => x.eqv(&y),
        _ => false,
    }
}

/// A value with a monotonically increasing version counter.
///
/// The initial state holds no value at version 0. `advance` replaces the
/// value and bumps the version; `advance_if_changed` leaves the version
/// untouched when the new content equals the current one, so that an
/// identical resend never triggers downstream recomputation.
pub struct VersionedCell<T> {
    pub value: Option<T>,
    pub version: u64,
}

/// How `advance_if_changed` relates the cell before and after the call:
/// unchanged content is a no-op, changed content is stored under the next
/// version.
pub open spec fn advance_if_changed_rel<T: ContentEq>(
    pre: VersionedCell<T>,
    post: VersionedCell<T>,
    v: Option<T>,
) -> bool {
    if opt_eqv(pre.value, v) {
        post == pre
    } else {
        post.value == v && post.version == spec_bump(pre.version)
    }
}

/// The cell that `advance_if_changed` leaves behind, as a function of the
/// cell before and the offered content.
pub open spec fn spec_cell_if_changed<T: ContentEq>(
    pre: VersionedCell<T>,
    v: Option<T>,
) -> VersionedCell<T> {
    if opt_eqv(pre.value, v) {
        pre
    } else {
        VersionedCell { value: v, version: spec_bump(pre.version) }
    }
}

/// A cell in its initial state: no value, version 0.
pub open spec fn cell_fresh<T>(c: VersionedCell<T>) -> bool {
    c.value is None && c.version == 0
}

impl<T> VersionedCell<T> {
    /// Whether the cell holds a value yet.
    pub open spec fn spec_has(&self) -> bool {
        self.value is Some
    }

    /// The empty cell: no value yet, version 0.
    pub fn new() -> (c: Self)
        ensures
            c.version == 0,
            c.value is None,
    {
        VersionedCell { value: None, version: 0 }
    }

    /// A cell assembled from an already-tracked value and its version, to
    /// hand a stage's cached output on without re-versioning it.
    pub fn from_parts(value: Option<T>, version: u64) -> (c: Self)
        ensures
            c.value == value,
            c.version == version,
    {
        VersionedCell { value, version }
    }

    /// Unconditionally replaces the content and bumps the version.
    pub fn advance(&mut self, v: Option<T>)
        ensures
            final(self).value == v,
            final(self).version == spec_bump(old(self).version),
            final(self).version >= old(self).version,
    {
        self.value = v;
        self.version = bump(self.version);
    }

    /// Replaces the content and bumps the version only when the new content
    /// differs from the current one; an equal resend is a no-op.
    pub fn advance_if_changed(&mut self, v: Option<T>) where T: ContentEq
        ensures
            advance_if_changed_rel(*old(self), *final(self), v),
            final(self).version >= old(self).version,
    {
        let unchanged = match (&self.value, &v) {
            (Option::None, Option::None) => true,
            (Option::Some(cur), Option::Some(new)) => cur.eq_content(new),
            _ => false,
        };
        if !unchanged {
            self.advance(v);
        }
    }

    /// A cell holding `f` of this cell's content, under the same version
    /// tag, so that downstream dirt tracking still keys off the upstream
    /// change and never off a derived value's incidental inequality.
    pub fn map<U, F: Fn(&T) -> U>(&self, f: F) -> (r: VersionedCell<U>)
        requires
            self.value matches Some(t) ==> call_requires(f, (&t,)),
        ensures
            r.version == self.version,
            self.value is None ==> r.value is None,
            self.value matches Some(t) ==> (r.value matches Some(u) && call_ensures(
                f,
                (&t,),
                u,
            )),
    {
        let value = match &self.value {
            Option::Some(t) => Option::Some(f(t)),
            Option::None => Option::None,
        };
        VersionedCell { value, version: self.version }
    }

    /// A cell holding a reference to this cell's content, at the same
    /// version, to thread a value through consumers without cloning it.
    pub fn as_ref(&self) -> (r: VersionedCell<&T>)
        ensures
            r.version == self.version,
            self.value is None ==> r.value is None,
            self.value matches Some(t) ==> r.value matches Some(rt) && *rt == t,
    {
        VersionedCell { value: self.value.as_ref(), version: self.version }
    }
}

} // verus!
