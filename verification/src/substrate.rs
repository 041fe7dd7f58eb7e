//! The substrate interface the devices rely on: quad memory, the event
//! queue, and the stub/proxy lifecycle.
//!
//! The actor core proper (instruction execution, scheduling, garbage
//! collection) is an external collaborator; this module models exactly the
//! primitives the device layer consumes: quad reservation, event
//! enqueueing, stub/proxy reservation and release, positional list
//! addressing, and type queries.  [`CoreModel`] is the mathematical view of
//! a [`Core`]; every primitive's contract pins its outcome as a function of
//! that view.

use vstd::prelude::*;
use crate::value::{Any, Quad, Error, E_MEM_LIM, E_NOT_RAM};

verus! {

/// The pointer that addresses the same quad as the capability `c`.
pub open spec fn cap_ptr(c: Any) -> Any {
    Any::Ptr(c.idx() as usize)
}

/// Mathematical view of a [`Core`]: the reserved quads in reservation
/// order, the pointers of the enqueued events in enqueue order, and the
/// total number of quads that may ever be reserved.
pub ghost struct CoreModel {
    /// Every quad ever reserved, in reservation order; released cells are
    /// overwritten with [`Quad::freed`].
    pub quads: Seq<Quad>,
    /// Pointers of the enqueued events, oldest first.
    pub queue: Seq<Any>,
    /// Upper bound on how many quads may ever be reserved.
    pub quota: nat,
}

impl CoreModel {
    /// Whether `p` is a memory pointer to a reserved quad.
    pub open spec fn valid_ptr(self, p: Any) -> bool {
        p is Ptr && 0 <= p.idx() < self.quads.len()
    }

    /// Whether `c` is a capability referring to a reserved quad.
    pub open spec fn valid_cap(self, c: Any) -> bool {
        c is Cap && 0 <= c.idx() < self.quads.len()
    }

    /// The quad referred to by the pointer or capability `p`.
    pub open spec fn quad(self, p: Any) -> Quad {
        self.quads[p.idx()]
    }

    /// Whether one more quad may be reserved.
    pub open spec fn can_reserve(self) -> bool {
        self.quads.len() < self.quota
    }

    /// Whether `k` more quads may be reserved.
    pub open spec fn room(self, k: int) -> bool {
        self.quads.len() + k <= self.quota
    }

    /// The pointer the next reservation returns.
    pub open spec fn next_ptr(self) -> Any {
        Any::Ptr(self.quads.len() as usize)
    }

    /// The capability the next proxy reservation returns.
    pub open spec fn next_cap(self) -> Any {
        Any::Cap(self.quads.len() as usize)
    }

    /// The state after reserving one quad with contents `q`.
    pub open spec fn grow(self, q: Quad) -> CoreModel {
        CoreModel { quads: self.quads.push(q), ..self }
    }

    /// The state after enqueueing the event at `ep`.
    pub open spec fn enq(self, ep: Any) -> CoreModel {
        CoreModel { queue: self.queue.push(ep), ..self }
    }

    /// The state after overwriting the `y` field of the quad at `p`.
    pub open spec fn set_y(self, p: Any, v: Any) -> CoreModel {
        CoreModel {
            quads: self.quads.update(p.idx(), Quad { y: v, ..self.quad(p) }),
            ..self
        }
    }

    /// Whether `h` points to a stub record that has not been released.
    pub open spec fn is_live_stub(self, h: Any) -> bool {
        self.valid_ptr(h) && self.quad(h).t == Any::StubT
    }

    /// The state after releasing the stub at `h`: the cell is freed if the
    /// stub is live, and nothing changes otherwise (a release never frees
    /// the same stub twice).
    pub open spec fn release(self, h: Any) -> CoreModel {
        if self.is_live_stub(h) {
            CoreModel { quads: self.quads.update(h.idx(), Quad::freed()), ..self }
        } else {
            self
        }
    }

    /// Whether `v` points to a quad whose role marker is `t`.
    pub open spec fn has_type(self, t: Any, v: Any) -> bool {
        self.valid_ptr(v) && self.quad(v).t == t
    }

    /// Whether `v` is a pair cell.
    pub open spec fn is_pair(self, v: Any) -> bool {
        self.has_type(Any::PairT, v)
    }

    /// Positional accessor on a message list.  For `n >= 1`, the n-th
    /// element counting from the front; for `n <= -1`, the rest of the
    /// list after removing the first `|n|` elements (possibly an atom if
    /// the list is improper); for `n == 0`, the value itself.  Element
    /// access past the end of a list, or into an atom, yields undefined.
    pub open spec fn nth(self, v: Any, n: int) -> Any
        decreases (if n >= 0 { n } else { -n }),
    {
        if n == 0 {
            v
        } else if !self.is_pair(v) {
            Any::Undef
        } else if n == 1 {
            self.quad(v).x
        } else if n == -1 {
            self.quad(v).y
        } else if n > 1 {
            self.nth(self.quad(v).y, n - 1)
        } else {
            self.nth(self.quad(v).y, n + 1)
        }
    }
}

/// The substrate a device manipulates while handling an event: quad
/// memory, the event queue, and the reservation quota.
#[derive(Debug)]
pub struct Core {
    /// Every quad ever reserved, in reservation order.
    pub quads: Vec<Quad>,
    /// Pointers of the enqueued events, oldest first.
    pub queue: Vec<Any>,
    /// Upper bound on how many quads may ever be reserved.
    pub quota: usize,
}

impl View for Core {
    type V = CoreModel;

    open spec fn view(&self) -> CoreModel {
        CoreModel { quads: self.quads@, queue: self.queue@, quota: self.quota as nat }
    }
}

impl Core {
    /// An empty substrate that may reserve up to `quota` quads.
    pub fn new(quota: usize) -> (core: Core)
        ensures
            core@.quads.len() == 0,
            core@.queue.len() == 0,
            core@.quota == quota,
    {
        Core { quads: Vec::new(), queue: Vec::new(), quota }
    }

    /// Read the quad at pointer or capability `p`.
    pub fn mem(&self, p: Any) -> (q: Quad)
        requires
            self@.valid_ptr(p) || self@.valid_cap(p),
        ensures
            q == self@.quad(p),
    {
        match p {
            Any::Ptr(i) => self.quads[i],
            Any::Cap(i) => self.quads[i],
            _ => vstd::pervasive::unreached(),
        }
    }

    /// Read the quad at pointer `p`.
    pub fn ram(&self, p: Any) -> (q: Quad)
        requires
            self@.valid_ptr(p),
        ensures
            q == self@.quad(p),
    {
        self.mem(p)
    }

    /// Overwrite the `y` field of the quad at pointer `p`.
    pub fn ram_set_y(&mut self, p: Any, v: Any)
        requires
            old(self)@.valid_ptr(p),
        ensures
            final(self)@ == old(self)@.set_y(p, v),
    {
        match p {
            Any::Ptr(i) => {
                let q = self.quads[i];
                self.quads[i] = Quad { y: v, ..q };
            },
            _ => {
                proof { assert(false); }
            },
        }
    }

    /// Turn a capability into the pointer to the same quad.
    pub fn cap_to_ptr(&self, c: Any) -> (p: Any)
        requires
            c is Cap,
        ensures
            p == cap_ptr(c),
    {
        match c {
            Any::Cap(i) => Any::Ptr(i),
            _ => vstd::pervasive::unreached(),
        }
    }

    /// Whether `v` points to a quad whose role marker is `t`.
    pub fn typeq(&self, t: Any, v: Any) -> (r: bool)
        ensures
            r == self@.has_type(t, v),
    {
        match v {
            Any::Ptr(i) => i < self.quads.len() && self.quads[i].t == t,
            _ => false,
        }
    }

    /// Reserve a fresh quad with contents `*template`.  Fails with
    /// [`E_MEM_LIM`] exactly when the quota is exhausted.
    pub fn reserve(&mut self, template: &Quad) -> (r: Result<Any, Error>)
        ensures
            old(self)@.can_reserve() ==> r == Ok::<Any, Error>(old(self)@.next_ptr())
                && final(self)@ == old(self)@.grow(*template),
            !old(self)@.can_reserve() ==> r == Err::<Any, Error>(E_MEM_LIM)
                && final(self)@ == old(self)@,
    {
        if self.quads.len() < self.quota {
            let p = Any::Ptr(self.quads.len());
            self.quads.push(*template);
            Ok(p)
        } else {
            Err(E_MEM_LIM)
        }
    }

    /// Reserve an event quad `(sponsor, target, message)`.
    pub fn reserve_event(&mut self, sponsor: Any, target: Any, message: Any) -> (r: Result<
        Any,
        Error,
    >)
        ensures
            old(self)@.can_reserve() ==> r == Ok::<Any, Error>(old(self)@.next_ptr())
                && final(self)@ == old(self)@.grow(Quad::event(sponsor, target, message)),
            !old(self)@.can_reserve() ==> r == Err::<Any, Error>(E_MEM_LIM)
                && final(self)@ == old(self)@,
    {
        self.reserve(&Quad::new_event(sponsor, target, message))
    }

    /// Reserve a stub pinning `target` against reclamation on behalf of
    /// the device `device`.
    pub fn reserve_stub(&mut self, device: Any, target: Any) -> (r: Result<Any, Error>)
        ensures
            old(self)@.can_reserve() ==> r == Ok::<Any, Error>(old(self)@.next_ptr())
                && final(self)@ == old(self)@.grow(Quad::stub(device, target)),
            !old(self)@.can_reserve() ==> r == Err::<Any, Error>(E_MEM_LIM)
                && final(self)@ == old(self)@,
    {
        self.reserve(&Quad { t: Any::StubT, x: device, y: target, z: Any::Nil })
    }

    /// Release the stub at `h`.  Exactly one release per stub: a second
    /// release of the same handle fails with [`E_NOT_RAM`] and changes
    /// nothing, so a double release can never free a cell twice.
    pub fn release_stub(&mut self, h: Any) -> (r: Result<(), Error>)
        ensures
            final(self)@ == old(self)@.release(h),
            r == if old(self)@.is_live_stub(h) {
                Ok::<(), Error>(())
            } else {
                Err::<(), Error>(E_NOT_RAM)
            },
    {
        match h {
            Any::Ptr(i) => {
                if i < self.quads.len() && self.quads[i].t == Any::StubT {
                    self.quads[i] = Quad {
                        t: Any::FreeT,
                        x: Any::Undef,
                        y: Any::Undef,
                        z: Any::Undef,
                    };
                    Ok(())
                } else {
                    Err(E_NOT_RAM)
                }
            },
            _ => Err(E_NOT_RAM),
        }
    }

    /// Reserve a proxy record wrapping `handle` on behalf of `device`,
    /// returning the capability that actor code may use to address it.
    pub fn reserve_proxy(&mut self, device: Any, handle: Any) -> (r: Result<Any, Error>)
        ensures
            old(self)@.can_reserve() ==> r == Ok::<Any, Error>(old(self)@.next_cap())
                && final(self)@ == old(self)@.grow(Quad::proxy(device, handle)),
            !old(self)@.can_reserve() ==> r == Err::<Any, Error>(E_MEM_LIM)
                && final(self)@ == old(self)@,
    {
        if self.quads.len() < self.quota {
            let c = Any::Cap(self.quads.len());
            self.quads.push(Quad { t: Any::ProxyT, x: device, y: handle, z: Any::Nil });
            Ok(c)
        } else {
            Err(E_MEM_LIM)
        }
    }

    /// Append the event at `ep` to the event queue.
    pub fn event_enqueue(&mut self, ep: Any)
        requires
            old(self)@.valid_ptr(ep),
        ensures
            final(self)@ == old(self)@.enq(ep),
    {
        self.queue.push(ep);
    }

    /// Positional accessor on a message list; see [`CoreModel::nth`].
    pub fn nth(&self, v: Any, n: i64) -> (r: Any)
        ensures
            r == self@.nth(v, n as int),
        decreases (if n >= 0 { n as int } else { -(n as int) }),
    {
        if n == 0 {
            v
        } else if !self.typeq(Any::PairT, v) {
            Any::Undef
        } else {
            let q = self.mem(v);
            if n == 1 {
                q.x
            } else if n == -1 {
                q.y
            } else if n > 1 {
                self.nth(q.y, n - 1)
            } else {
                self.nth(q.y, n + 1)
            }
        }
    }
}

/// Law: a stub release is one-shot.  After a release of `h`, a second
/// release of `h` changes nothing, so the single-releaser discipline can
/// never free the same cell twice — whichever of a device and an external
/// completion releases second performs a no-op.
pub proof fn lemma_release_idempotent(m: CoreModel, h: Any)
    ensures
        m.release(h).release(h) == m.release(h),
{
}

/// Law: once a live stub is released it is live no longer, so an external
/// completion that checks liveness before acting observes the release.
pub proof fn lemma_release_frees(m: CoreModel, h: Any)
    requires
        m.is_live_stub(h),
    ensures
        !m.release(h).is_live_stub(h),
{
}

} // verus!
