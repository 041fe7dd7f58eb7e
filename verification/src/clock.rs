//! The clock device: a fully synchronous reply with the current time.

use vstd::prelude::*;
use crate::value::{Any, Quad, Error, E_MEM_LIM};
use crate::substrate::Core;

verus! {

/// The inert default time source: always reports fixnum zero.
pub fn zero_clock() -> (r: Any)
    ensures
        r == Any::Fix(0),
{
    Any::Fix(0)
}

/// Connects the core to a host clock.  On any event, the injected
/// zero-argument time source is read and exactly one reply event
/// `(sponsor, customer, now)` is enqueued, where the customer is the
/// event's message itself.  No stubs are involved; the only failure mode
/// is reservation exhaustion, never the time source.
pub struct ClockDevice<C: Fn() -> Any> {
    /// Injected zero-argument time source.
    pub read_clock: C,
}

impl<C: Fn() -> Any> ClockDevice<C> {
    /// Deliver one event to the clock device.
    ///
    /// If a quad can still be reserved, exactly one reply event is
    /// enqueued, carrying the triggering event's sponsor, its message as
    /// the customer, and some possible output of the time source as the
    /// message; otherwise nothing changes and the resource fault is
    /// reported.
    pub fn handle_event(&mut self, core: &mut Core, ep: Any) -> (r: Result<(), Error>)
        requires
            old(core)@.valid_ptr(ep),
            call_requires(old(self).read_clock, ()),
        ensures
            *final(self) == *old(self),
            ({
                let m0 = old(core)@;
                let sponsor = m0.quad(ep).t;
                let cust = m0.quad(ep).y;
                if m0.can_reserve() {
                    &&& r == Ok::<(), Error>(())
                    &&& exists|now: Any|
                        #[trigger] call_ensures(old(self).read_clock, (), now)
                            && final(core)@ == m0.grow(Quad::event(sponsor, cust, now)).enq(
                            m0.next_ptr(),
                        )
                } else {
                    &&& r == Err::<(), Error>(E_MEM_LIM)
                    &&& final(core)@ == m0
                }
            }),
    {
        let event = core.mem(ep);
        let sponsor = event.t;
        let cust = event.y;
        let now = (self.read_clock)();
        let evt = match core.reserve_event(sponsor, cust, now) {
            Ok(evt) => evt,
            Err(e) => {
                return Err(e);
            },
        };
        core.event_enqueue(evt);
        Ok(())
    }
}

} // verus!
