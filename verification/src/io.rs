//! The I/O device: an optional-synchronous read path that collapses to an
//! immediate reply, an asynchronous read path that leaves a pinned stub
//! behind, and a synchronous write path.

use vstd::prelude::*;
use crate::value::{Any, Quad, Error, E_OK, E_MEM_LIM, E_NOT_CAP};
use crate::substrate::{Core, CoreModel};

verus! {

/// The inert default write primitive: reports success.
pub fn ok_write(_code: Any) -> (r: Any)
    ensures
        r == Any::Fix(E_OK),
{
    Any::Fix(E_OK)
}

/// The inert default read primitive: never answers synchronously.
pub fn pending_read(_stub: Any) -> (r: Any)
    ensures
        r == Any::Undef,
{
    Any::Undef
}

/// Connects the core to host byte I/O.  Messages have the shape
/// `(to_cancel callback . data)`; a non-pair message is silently ignored.
/// An undefined `data` is a read request: a reply event is reserved and
/// pinned with a stub, and the stub is handed to the injected read
/// primitive.  A fixnum answer means a byte was available at once — the
/// reply is completed and enqueued and the stub released before the call
/// returns; any other answer leaves the stub pinned for the external
/// completion.  A fixnum `data` is a write request, answered
/// synchronously.  The `to_cancel` field is accepted in the message shape
/// but cancellation is not implemented by this device: a known gap,
/// documented rather than silently dropped.
pub struct IoDevice<W: Fn(Any) -> Any, R: Fn(Any) -> Any> {
    /// Injected write primitive, handed the fixnum to write.
    pub write: W,
    /// Injected read primitive, handed the stub pinning the reply event.
    pub read: R,
}

impl<W: Fn(Any) -> Any, R: Fn(Any) -> Any> IoDevice<W, R> {
    /// Deliver one event to the I/O device.
    ///
    /// A non-pair message, or a pair whose `data` is neither undefined
    /// nor a fixnum, is dropped without fault or effect.  A non-capability
    /// callback faults with [`E_NOT_CAP`].  A read request whose
    /// primitive answers a fixnum enqueues exactly one reply
    /// `(true . byte)` and releases its stub before returning; one whose
    /// primitive answers anything else enqueues nothing and leaves the
    /// stub live, pinning the reply event.  A write request invokes the
    /// write primitive with the fixnum and enqueues exactly one reply
    /// `(true . undefined)`.  Exhausted reservation faults with
    /// [`E_MEM_LIM`], leaving the substrate exactly as stated below.
    pub fn handle_event(&mut self, core: &mut Core, ep: Any) -> (r: Result<(), Error>)
        requires
            old(core)@.valid_ptr(ep),
            forall|s: Any| #[trigger] call_requires(old(self).read, (s,)),
            forall|d: Any| #[trigger] call_requires(old(self).write, (d,)),
        ensures
            *final(self) == *old(self),
            ({
                let m0 = old(core)@;
                let e = m0.quad(ep);
                let sponsor = e.t;
                let dev = e.x;
                let msg = e.y;
                if !m0.is_pair(msg) {
                    r == Ok::<(), Error>(()) && final(core)@ == m0
                } else {
                    let callback = m0.nth(msg, 2);
                    let data = m0.nth(msg, -2);
                    if !(callback is Cap) {
                        r == Err::<(), Error>(E_NOT_CAP) && final(core)@ == m0
                    } else if data == Any::Undef {
                        // read request
                        let evtp = m0.next_ptr();
                        let m1 = m0.grow(Quad::event(sponsor, callback, Any::Undef));
                        let stubp = m1.next_ptr();
                        let m2 = m1.grow(Quad::stub(dev, evtp));
                        if !m0.room(1) {
                            r == Err::<(), Error>(E_MEM_LIM) && final(core)@ == m0
                        } else if !m0.room(2) {
                            r == Err::<(), Error>(E_MEM_LIM) && final(core)@ == m1
                        } else {
                            exists|ch: Any|
                                #[trigger] call_ensures(old(self).read, (stubp,), ch) && (if !(ch
                                    is Fix) {
                                    // asynchronous path: nothing enqueued, the stub stays live
                                    r == Ok::<(), Error>(()) && final(core)@ == m2
                                } else if !m0.room(3) {
                                    r == Err::<(), Error>(E_MEM_LIM) && final(core)@ == m2
                                } else {
                                    // synchronous path: complete, enqueue, release
                                    let pairp = m2.next_ptr();
                                    let m3 = m2.grow(Quad::pair(Any::True, ch));
                                    r == Ok::<(), Error>(()) && final(core)@ == m3.set_y(
                                        evtp,
                                        pairp,
                                    ).enq(evtp).release(stubp)
                                })
                        }
                    } else if data is Fix {
                        // write request
                        let pairp = m0.next_ptr();
                        let m1 = m0.grow(Quad::pair(Any::True, Any::Undef));
                        let evtp = m1.next_ptr();
                        let m2 = m1.grow(Quad::event(sponsor, callback, pairp)).enq(evtp);
                        &&& exists|w: Any| #[trigger] call_ensures(old(self).write, (data,), w)
                        &&& (if !m0.room(1) {
                            r == Err::<(), Error>(E_MEM_LIM) && final(core)@ == m0
                        } else if !m0.room(2) {
                            r == Err::<(), Error>(E_MEM_LIM) && final(core)@ == m1
                        } else {
                            r == Ok::<(), Error>(()) && final(core)@ == m2
                        })
                    } else {
                        // unrecognized message shapes are permitted to be dropped
                        r == Ok::<(), Error>(()) && final(core)@ == m0
                    }
                }
            }),
    {
        let event = core.mem(ep);
        let sponsor = event.t;
        let dev = event.x;
        let msg = event.y;  // (to_cancel callback . #?) | (to_cancel callback . fixnum)
        if core.typeq(Any::PairT, msg) {
            // the cancel capability at position 1 is part of the shape but unused
            let callback = core.nth(msg, 2);
            if !callback.is_cap() {
                return Err(E_NOT_CAP);
            }
            let data = core.nth(msg, -2);
            if data == Any::Undef {
                // read request
                let evt = match core.reserve_event(sponsor, callback, Any::Undef) {
                    Ok(p) => p,
                    Err(e) => {
                        return Err(e);
                    },
                };
                let stub = match core.reserve_stub(dev, evt) {
                    Ok(s) => s,
                    Err(e) => {
                        return Err(e);
                    },
                };
                let ch = (self.read)(stub);
                if ch.is_fix() {
                    // `read` answered synchronously: reply immediately
                    let pair = match core.reserve(&Quad::pair_t(Any::True, ch)) {
                        Ok(p) => p,
                        Err(e) => {
                            return Err(e);
                        },
                    };
                    core.ram_set_y(evt, pair);
                    core.event_enqueue(evt);
                    let _ = core.release_stub(stub);
                }
            } else if data.is_fix() {
                // write request; the write primitive is synchronous
                let _ = (self.write)(data);
                let pair = match core.reserve(&Quad::pair_t(Any::True, Any::Undef)) {
                    Ok(p) => p,
                    Err(e) => {
                        return Err(e);
                    },
                };
                let evt = match core.reserve_event(sponsor, callback, pair) {
                    Ok(p) => p,
                    Err(e) => {
                        return Err(e);
                    },
                };
                core.event_enqueue(evt);
            }
        }
        // unrecognized messages may be ignored
        Ok(())
    }
}

/// Law: the synchronous read path leaks no stub.  In the state the read
/// branch leaves behind when the read primitive answered the fixnum `ch`,
/// exactly one reply — the completed `(true . ch)` event for the callback —
/// has been enqueued, and the stub that pinned it is live no longer.
pub proof fn lemma_sync_read_outcome(
    m0: CoreModel,
    sponsor: Any,
    dev: Any,
    callback: Any,
    ch: Any,
)
    requires
        m0.quads.len() + 3 <= usize::MAX,
    ensures
        ({
            let evtp = m0.next_ptr();
            let m1 = m0.grow(Quad::event(sponsor, callback, Any::Undef));
            let stubp = m1.next_ptr();
            let m2 = m1.grow(Quad::stub(dev, evtp));
            let pairp = m2.next_ptr();
            let m3 = m2.grow(Quad::pair(Any::True, ch));
            let mf = m3.set_y(evtp, pairp).enq(evtp).release(stubp);
            &&& mf.queue == m0.queue.push(evtp)
            &&& !mf.is_live_stub(stubp)
            &&& mf.quad(evtp) == Quad { t: sponsor, x: callback, y: pairp, z: Any::Nil }
            &&& mf.quad(pairp) == Quad::pair(Any::True, ch)
        }),
{
}

/// Law: the asynchronous read path enqueues nothing and leaves the stub
/// live, pinning the reserved reply event for the external completion;
/// by [`crate::substrate::lemma_release_frees`] and
/// [`crate::substrate::lemma_release_idempotent`] that completion can
/// release it exactly once.
pub proof fn lemma_async_read_outcome(m0: CoreModel, sponsor: Any, dev: Any, callback: Any)
    requires
        m0.quads.len() + 2 <= usize::MAX,
    ensures
        ({
            let evtp = m0.next_ptr();
            let m1 = m0.grow(Quad::event(sponsor, callback, Any::Undef));
            let stubp = m1.next_ptr();
            let m2 = m1.grow(Quad::stub(dev, evtp));
            &&& m2.queue == m0.queue
            &&& m2.is_live_stub(stubp)
            &&& m2.quad(stubp).y == evtp
            &&& m2.quad(evtp) == Quad::event(sponsor, callback, Any::Undef)
        }),
{
}

} // verus!
