//! The timer device: delayed asynchronous replies with a cancellation
//! proxy.
//!
//! A start request pins a pre-built reply event with a stub and hands
//! `(delay, stub)` to the injected start primitive; the external timer
//! mechanism later enqueues the pinned event and releases the stub.  The
//! requestor form additionally mints a proxy capability wrapping the stub
//! and delivers it to `to_cancel`, so one start request can yield two
//! independently delivered outcomes.  A stop request (an event whose
//! target resolves to a proxy record) invokes the injected stop primitive
//! and, only on success, releases the stub; the proxy's handle field is
//! cleared either way, so a second stop is a no-op.

use vstd::prelude::*;
use crate::value::{Any, Quad, Error, E_MEM_LIM, E_NOT_CAP, E_NOT_FIX};
use crate::substrate::{Core, CoreModel, cap_ptr};

verus! {

/// The stop-request transition on the substrate model, for a stop event
/// whose target resolves to the proxy record at `pptr`: if the proxy still
/// holds a pointer handle, the stub is released exactly when the injected
/// stop primitive reported success (`stopped`), and the handle field is
/// cleared either way; an already-cleared proxy is left untouched.
pub open spec fn timer_stop_model(m: CoreModel, pptr: Any, stopped: bool) -> CoreModel {
    let handle = m.quad(pptr).y;
    if handle is Ptr {
        (if stopped {
            m.release(handle)
        } else {
            m
        }).set_y(pptr, Any::Undef)
    } else {
        m
    }
}

/// The inert default start primitive: there is no timer mechanism, so a
/// started timer never fires.
pub fn no_start(_delay: Any, _stub: Any) {
}

/// The inert default stop primitive: nothing was pending, nothing stops.
pub fn never_stop(_handle: Any) -> (r: bool)
    ensures
        r == false,
{
    false
}

/// Connects the core to a host timer mechanism.
pub struct TimerDevice<S: Fn(Any, Any), T: Fn(Any) -> bool> {
    /// Injected start primitive: hands `(delay, stub)` to the host; the
    /// host later enqueues the pinned event and releases the stub.
    pub start_timer: S,
    /// Injected stop primitive: reports whether the pending operation for
    /// the handle was cancelled before it fired.
    pub stop_timer: T,
}

impl<S: Fn(Any, Any), T: Fn(Any) -> bool> TimerDevice<S, T> {
    /// Deliver one event to the timer device or to one of its proxies.
    ///
    /// Stop request (the target resolves to a proxy record): if the proxy
    /// holds a pointer handle, the outcome is [`timer_stop_model`] for the
    /// value the stop primitive returned, otherwise nothing changes; both
    /// ways the event is handled without fault.  Start request, simple
    /// form `(delay target . payload)`: a delayed reply event is reserved
    /// and pinned with a stub, `(delay, stub)` reaches the start
    /// primitive, and nothing is enqueued.  Start request, requestor form
    /// `(to_cancel callback delay . result)`: the same, and when
    /// `to_cancel` is a capability a proxy wrapping the stub is minted and
    /// delivered to it by a second, immediately enqueued event.  A
    /// non-capability target or callback faults with [`E_NOT_CAP`], a
    /// non-fixnum requestor delay with [`E_NOT_FIX`], and exhausted
    /// reservation with [`E_MEM_LIM`], each leaving the substrate exactly
    /// as stated below.
    pub fn handle_event(&mut self, core: &mut Core, ep: Any) -> (r: Result<(), Error>)
        requires
            old(core)@.valid_ptr(ep),
            old(core)@.valid_cap(old(core)@.quad(ep).x),
            forall|d: Any, s: Any| #[trigger] call_requires(old(self).start_timer, (d, s)),
            forall|h: Any| #[trigger] call_requires(old(self).stop_timer, (h,)),
        ensures
            *final(self) == *old(self),
            ({
                let m0 = old(core)@;
                let e = m0.quad(ep);
                let sponsor = e.t;
                let dev = e.x;
                let msg = e.y;
                let pptr = cap_ptr(dev);
                if m0.quad(pptr).t == Any::ProxyT {
                    let handle = m0.quad(pptr).y;
                    &&& r == Ok::<(), Error>(())
                    &&& (handle is Ptr ==> exists|stopped: bool|
                        #[trigger] call_ensures(old(self).stop_timer, (handle,), stopped)
                            && final(core)@ == timer_stop_model(m0, pptr, stopped))
                    &&& (!(handle is Ptr) ==> final(core)@ == m0)
                } else {
                    let arg1 = m0.nth(msg, 1);
                    if arg1 is Fix {
                        let target = m0.nth(msg, 2);
                        let payload = m0.nth(msg, -2);
                        let m1 = m0.grow(Quad::event(sponsor, target, payload));
                        let m2 = m1.grow(Quad::stub(dev, m0.next_ptr()));
                        if !(target is Cap) {
                            r == Err::<(), Error>(E_NOT_CAP) && final(core)@ == m0
                        } else if !m0.room(1) {
                            r == Err::<(), Error>(E_MEM_LIM) && final(core)@ == m0
                        } else if !m0.room(2) {
                            r == Err::<(), Error>(E_MEM_LIM) && final(core)@ == m1
                        } else {
                            &&& r == Ok::<(), Error>(())
                            &&& final(core)@ == m2
                            &&& call_ensures(old(self).start_timer, (arg1, m1.next_ptr()), ())
                        }
                    } else {
                        let to_cancel = arg1;
                        let callback = m0.nth(msg, 2);
                        let delay = m0.nth(msg, 3);
                        let resm = m0.nth(msg, -3);
                        let m1 = m0.grow(Quad::event(sponsor, callback, resm));
                        let stubp = m1.next_ptr();
                        let m2 = m1.grow(Quad::stub(dev, m0.next_ptr()));
                        let proxyc = m2.next_cap();
                        let m3 = m2.grow(Quad::proxy(dev, stubp));
                        let m4 = m3.grow(Quad::event(sponsor, to_cancel, proxyc)).enq(
                            m3.next_ptr(),
                        );
                        if !(callback is Cap) {
                            r == Err::<(), Error>(E_NOT_CAP) && final(core)@ == m0
                        } else if !(delay is Fix) {
                            r == Err::<(), Error>(E_NOT_FIX) && final(core)@ == m0
                        } else if !m0.room(1) {
                            r == Err::<(), Error>(E_MEM_LIM) && final(core)@ == m0
                        } else if !m0.room(2) {
                            r == Err::<(), Error>(E_MEM_LIM) && final(core)@ == m1
                        } else if !(to_cancel is Cap) {
                            &&& r == Ok::<(), Error>(())
                            &&& final(core)@ == m2
                            &&& call_ensures(old(self).start_timer, (delay, stubp), ())
                        } else if !m0.room(3) {
                            &&& r == Err::<(), Error>(E_MEM_LIM)
                            &&& final(core)@ == m2
                            &&& call_ensures(old(self).start_timer, (delay, stubp), ())
                        } else if !m0.room(4) {
                            &&& r == Err::<(), Error>(E_MEM_LIM)
                            &&& final(core)@ == m3
                            &&& call_ensures(old(self).start_timer, (delay, stubp), ())
                        } else {
                            &&& r == Ok::<(), Error>(())
                            &&& final(core)@ == m4
                            &&& call_ensures(old(self).start_timer, (delay, stubp), ())
                        }
                    }
                }
            }),
    {
        let event = core.mem(ep);
        let sponsor = event.t;
        let dev = event.x;
        let msg = event.y;
        let ptr = core.cap_to_ptr(dev);
        let myself = core.ram(ptr);
        if myself.t == Any::ProxyT {
            // stop timer request
            let handle = myself.y;
            if handle.is_ram() {
                if (self.stop_timer)(handle) {
                    let _ = core.release_stub(handle);
                }
                core.ram_set_y(ptr, Any::Undef);
            }
        } else {
            let arg_1 = core.nth(msg, 1);
            if arg_1.is_fix() {
                // start timer request: simple delayed message (delay target . payload)
                let delay = arg_1;
                let target = core.nth(msg, 2);
                if !target.is_cap() {
                    return Err(E_NOT_CAP);
                }
                let payload = core.nth(msg, -2);
                let delayed = Quad::new_event(sponsor, target, payload);
                let dptr = match core.reserve(&delayed) {
                    Ok(p) => p,
                    Err(e) => {
                        return Err(e);
                    },
                };
                let stub = match core.reserve_stub(dev, dptr) {
                    Ok(s) => s,
                    Err(e) => {
                        return Err(e);
                    },
                };
                (self.start_timer)(delay, stub);
                return Ok(());
            }
            // start timer request: requestor form (to_cancel callback delay . result)
            let to_cancel = arg_1;
            let callback = core.nth(msg, 2);
            if !callback.is_cap() {
                return Err(E_NOT_CAP);
            }
            let delay = core.nth(msg, 3);
            if !delay.is_fix() {
                return Err(E_NOT_FIX);
            }
            let resm = core.nth(msg, -3);
            let delayed = Quad::new_event(sponsor, callback, resm);
            let dptr = match core.reserve(&delayed) {
                Ok(p) => p,
                Err(e) => {
                    return Err(e);
                },
            };
            let stub = match core.reserve_stub(dev, dptr) {
                Ok(s) => s,
                Err(e) => {
                    return Err(e);
                },
            };
            (self.start_timer)(delay, stub);
            if to_cancel.is_cap() {
                let proxy = match core.reserve_proxy(dev, stub) {
                    Ok(c) => c,
                    Err(e) => {
                        return Err(e);
                    },
                };
                let evt = match core.reserve_event(sponsor, to_cancel, proxy) {
                    Ok(p) => p,
                    Err(e) => {
                        return Err(e);
                    },
                };
                core.event_enqueue(evt);
            }
        }
        Ok(())
    }
}

/// Law: a stop request is idempotent.  Whatever the stop primitive
/// reports the first time, the first stop clears the proxy's handle, so a
/// second stop of the same proxy finds no pointer handle and changes
/// nothing — no fault and no second release.
pub proof fn lemma_stop_idempotent(m: CoreModel, pptr: Any, s1: bool, s2: bool)
    requires
        m.valid_ptr(pptr),
    ensures
        timer_stop_model(timer_stop_model(m, pptr, s1), pptr, s2) == timer_stop_model(
            m,
            pptr,
            s1,
        ),
{
}

/// Law: a successful stop of a proxy that still holds a pointer handle
/// (distinct from the proxy's own cell) leaves that handle's stub no
/// longer live, and clears the proxy's handle field.  An external timer
/// completion that checks stub liveness before enqueueing therefore never
/// delivers the delayed reply after a successful stop.
pub proof fn lemma_stop_releases_stub(m: CoreModel, pptr: Any)
    requires
        m.valid_ptr(pptr),
        m.quad(pptr).y is Ptr,
        pptr.idx() != m.quad(pptr).y.idx(),
    ensures
        !timer_stop_model(m, pptr, true).is_live_stub(m.quad(pptr).y),
        timer_stop_model(m, pptr, true).quad(pptr).y == Any::Undef,
{
}

} // verus!
