//! Tagged scalar values and four-field memory cells (quads).
//!
//! A [`Any`] is immutable once created and compared structurally: a small
//! signed integer (fixnum), an unforgeable capability reference, a memory
//! pointer, one of the singleton constants, or one of the marker values
//! that tag a quad's first field with the cell's role.

use vstd::prelude::*;

verus! {

/// A tagged scalar value of the actor machine.
///
/// The `*T` variants are the marker values stored in a quad's first field
/// to say how the remaining fields are to be read: a pair cell, a stub
/// record, a proxy record, an ordinary actor/device record, or a cell
/// released back to the allocator.  An event quad carries its sponsor
/// (an arbitrary value) in the first field, so events are recognised by
/// context, not by a marker.
#[derive(Clone, Copy, PartialEq, Eq, Structural, Debug)]
pub enum Any {
    /// Small signed integer.
    Fix(i64),
    /// Unforgeable capability reference to the quad at this index.
    Cap(usize),
    /// Memory pointer to the quad at this index.
    Ptr(usize),
    /// The undefined singleton.
    Undef,
    /// The true singleton.
    True,
    /// The false singleton.
    False,
    /// The empty-list singleton.
    Nil,
    /// Marker: the quad is a pair cell `(head . tail)`.
    PairT,
    /// Marker: the quad is a stub record `(owner, target)`.
    StubT,
    /// Marker: the quad is a proxy record `(owner, handle)`.
    ProxyT,
    /// Marker: the quad is an ordinary actor or device record.
    ActorT,
    /// Marker: the quad has been released back to the allocator.
    FreeT,
}

impl Any {
    /// Whether this value is a fixnum.
    pub open spec fn spec_is_fix(self) -> bool {
        self is Fix
    }

    #[verifier::when_used_as_spec(spec_is_fix)]
    /// Whether this value is a fixnum.
    pub fn is_fix(self) -> (r: bool)
        ensures
            r == self.spec_is_fix(),
    {
        matches!(self, Any::Fix(_))
    }

    /// Whether this value is a capability reference.
    pub open spec fn spec_is_cap(self) -> bool {
        self is Cap
    }

    #[verifier::when_used_as_spec(spec_is_cap)]
    /// Whether this value is a capability reference.
    pub fn is_cap(self) -> (r: bool)
        ensures
            r == self.spec_is_cap(),
    {
        matches!(self, Any::Cap(_))
    }

    /// Whether this value is a memory pointer.
    pub open spec fn spec_is_ram(self) -> bool {
        self is Ptr
    }

    #[verifier::when_used_as_spec(spec_is_ram)]
    /// Whether this value is a memory pointer.
    pub fn is_ram(self) -> (r: bool)
        ensures
            r == self.spec_is_ram(),
    {
        matches!(self, Any::Ptr(_))
    }

    /// The index carried by a pointer or capability.
    pub open spec fn idx(self) -> int {
        match self {
            Any::Cap(i) => i as int,
            Any::Ptr(i) => i as int,
            _ => 0,
        }
    }
}

/// Fault codes reported to a sponsor.
pub type Error = i64;

/// Success: the event was handled.
pub const E_OK: Error = 0;
/// A required capability-typed field was not a capability.
pub const E_NOT_CAP: Error = -5;
/// A required integer field was not a fixnum.
pub const E_NOT_FIX: Error = -4;
/// A live memory cell was required (e.g. releasing a stub twice).
pub const E_NOT_RAM: Error = -8;
/// Quad/event reservation exhausted the memory quota.
pub const E_MEM_LIM: Error = -9;

/// A four-field memory cell, reinterpreted according to its first field.
#[derive(Clone, Copy, PartialEq, Eq, Structural, Debug)]
pub struct Quad {
    /// Role marker, or the sponsor of an event quad.
    pub t: Any,
    /// Head of a pair; target of an event; owner of a stub or proxy.
    pub x: Any,
    /// Tail of a pair; message of an event; target of a stub; handle of a proxy.
    pub y: Any,
    /// Link field, unused by this layer.
    pub z: Any,
}

impl Quad {
    /// A pair cell `(head . tail)`.
    pub fn pair_t(head: Any, tail: Any) -> (q: Quad)
        ensures
            q == Quad::pair(head, tail),
    {
        Quad { t: Any::PairT, x: head, y: tail, z: Any::Undef }
    }

    /// A pair cell `(head . tail)`.
    pub open spec fn pair(head: Any, tail: Any) -> Quad {
        Quad { t: Any::PairT, x: head, y: tail, z: Any::Undef }
    }

    /// An event cell `(sponsor, target, message)`.
    pub fn new_event(sponsor: Any, target: Any, message: Any) -> (q: Quad)
        ensures
            q == Quad::event(sponsor, target, message),
    {
        Quad { t: sponsor, x: target, y: message, z: Any::Nil }
    }

    /// An event cell `(sponsor, target, message)`.
    pub open spec fn event(sponsor: Any, target: Any, message: Any) -> Quad {
        Quad { t: sponsor, x: target, y: message, z: Any::Nil }
    }

    /// A stub record pinning `target` on behalf of `owner`.
    pub open spec fn stub(owner: Any, target: Any) -> Quad {
        Quad { t: Any::StubT, x: owner, y: target, z: Any::Nil }
    }

    /// A proxy record wrapping `handle` on behalf of `owner`.
    pub open spec fn proxy(owner: Any, handle: Any) -> Quad {
        Quad { t: Any::ProxyT, x: owner, y: handle, z: Any::Nil }
    }

    /// A cell released back to the allocator.
    pub open spec fn freed() -> Quad {
        Quad { t: Any::FreeT, x: Any::Undef, y: Any::Undef, z: Any::Undef }
    }
}

} // verus!
