use vstd::prelude::*;
use crate::error::{Error, ErrorKind, CLASS_INVALID};

verus! {

/// The engine's revparse flag for an expression naming one object.
pub const REVPARSE_SINGLE: u32 = 1;
/// The engine's revparse flag for a range `a..b`.
pub const REVPARSE_RANGE: u32 = 2;
/// The engine's revparse flag for a merge-base range `a...b`.
pub const REVPARSE_MERGE_BASE: u32 = 4;

/// What a parsed revision expression denotes.
#[derive(Debug, Clone, Copy, PartialEq, Eq, Structural)]
pub enum RevspecKind {
    /// One object: only `from` is set.
    Single,
    /// The objects reachable from `to` but not from `from`.
    Range,
    /// A range whose lower end is the merge base of the two objects.
    MergeBase,
}

/// The kind that the engine's `flags` describe, `None` when they describe
/// neither one object nor a range.
pub open spec fn kind_of(flags: u32) -> Option<RevspecKind> {
    if flags & REVPARSE_SINGLE != 0 {
        Some(RevspecKind::Single)
    } else if flags & REVPARSE_RANGE != 0 {
        if flags & REVPARSE_MERGE_BASE != 0 {
            Some(RevspecKind::MergeBase)
        } else {
            Some(RevspecKind::Range)
        }
    } else {
        None
    }
}

/// A parsed revision expression: one or two objects and what they denote.
/// It owns its objects.
#[derive(Debug)]
pub struct Revspec<O> {
    from: Option<O>,
    to: Option<O>,
    kind: RevspecKind,
}

impl<O> Revspec<O> {
    pub closed spec fn from_spec(&self) -> Option<O> {
        self.from
    }

    pub closed spec fn to_spec(&self) -> Option<O> {
        self.to
    }

    pub closed spec fn kind_spec(&self) -> RevspecKind {
        self.kind
    }

    /// A revspec that names one object holds it, and no second one.
    pub open spec fn wf(&self) -> bool {
        self.kind_spec() == RevspecKind::Single ==> self.from_spec() is Some && self.to_spec() is None
    }

    /// Builds the revspec from what the engine's revparse gave: its flags and
    /// its two object slots (`None` for an empty slot). For a single object
    /// the engine always fills the first slot and never the second; callers
    /// check that first, since anything else means the engine broke its own
    /// contract.
    pub fn from_native(flags: u32, from: Option<O>, to: Option<O>) -> (r: Result<Revspec<O>, Error>)
        requires
            flags & REVPARSE_SINGLE != 0 ==> from is Some && to is None,
        ensures
            r is Ok <==> kind_of(flags) is Some,
            r matches Ok(s) ==> {
                &&& s.wf()
                &&& Some(s.kind_spec()) == kind_of(flags)
                &&& s.from_spec() == from
                &&& s.to_spec() == to
            },
            r matches Err(e) ==> e.kind == ErrorKind::UnsupportedRevspec,
    {
        let kind = if flags & REVPARSE_SINGLE != 0 {
            RevspecKind::Single
        } else if flags & REVPARSE_RANGE != 0 {
            if flags & REVPARSE_MERGE_BASE != 0 {
                RevspecKind::MergeBase
            } else {
                RevspecKind::Range
            }
        } else {
            return Err(Error::local(
                ErrorKind::UnsupportedRevspec,
                CLASS_INVALID,
                "revision expression is neither an object nor a range".to_string(),
            ));
        };
        Ok(Revspec { from, to, kind })
    }

    /// The first object, or the only one of a single-object revspec.
    pub fn from(&self) -> (r: Option<&O>)
        ensures
            r is None <==> self.from_spec() is None,
            r matches Some(o) ==> self.from_spec() == Some(*o),
    {
        match &self.from {
            Some(o) => Some(o),
            None => None,
        }
    }

    /// The second object of a range.
    pub fn to(&self) -> (r: Option<&O>)
        ensures
            r is None <==> self.to_spec() is None,
            r matches Some(o) ==> self.to_spec() == Some(*o),
    {
        match &self.to {
            Some(o) => Some(o),
            None => None,
        }
    }

    pub fn kind(&self) -> (r: RevspecKind)
        ensures
            r == self.kind_spec(),
    {
        self.kind
    }
}

/// A revspec built from flags that say "single" holds its object and no
/// second one.
pub proof fn lemma_single_has_no_to<O>(flags: u32, s: Revspec<O>)
    requires
        s.wf(),
        Some(s.kind_spec()) == kind_of(flags),
        flags & REVPARSE_SINGLE != 0,
    ensures
        s.from_spec() is Some,
        s.to_spec() is None,
{
}

} // verus!
