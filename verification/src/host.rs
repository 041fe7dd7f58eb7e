//! The host device: a boundary crossing with fault propagation.

use vstd::prelude::*;
use crate::value::{Any, Quad, Error, E_OK, E_MEM_LIM};
use crate::substrate::Core;

verus! {

/// The inert default host callback: always reports success.
pub fn ok_host(_value: Any) -> (r: Error)
    ensures
        r == E_OK,
{
    E_OK
}

/// Connects the core to a generic host callback.  Every event received is
/// first pinned whole with a stub (so the quad survives the boundary
/// crossing) and forwarded, as the stub handle, to the injected host
/// callback.  On success the stub remains owned by the host side, to be
/// released by the host later; on a failure code the stub is released at
/// once — no one else remains who could release it — and the same code
/// propagates to the sponsor.
pub struct HostDevice<H: Fn(Any) -> Error> {
    /// Injected host callback; a return of [`E_OK`] means success, any
    /// other code is an opaque host fault.
    pub to_host: H,
}

impl<H: Fn(Any) -> Error> HostDevice<H> {
    /// Deliver one event to the host device.
    ///
    /// If a quad can still be reserved, the event is pinned with a stub
    /// and the stub handle reaches the host callback: a success code
    /// leaves the stub live and owned by the host; any other code
    /// releases the stub and surfaces that same code as the call's
    /// failure.  Exhausted reservation faults with [`E_MEM_LIM`] and
    /// changes nothing.
    pub fn handle_event(&mut self, core: &mut Core, ep: Any) -> (r: Result<(), Error>)
        requires
            old(core)@.valid_ptr(ep),
            forall|x: Any| #[trigger] call_requires(old(self).to_host, (x,)),
        ensures
            *final(self) == *old(self),
            ({
                let m0 = old(core)@;
                let device = m0.quad(ep).x;
                let stubp = m0.next_ptr();
                let m1 = m0.grow(Quad::stub(device, ep));
                if m0.can_reserve() {
                    exists|code: Error|
                        #[trigger] call_ensures(old(self).to_host, (stubp,), code) && (if code
                            == E_OK {
                            r == Ok::<(), Error>(()) && final(core)@ == m1
                        } else {
                            r == Err::<(), Error>(code) && final(core)@ == m1.release(stubp)
                        })
                } else {
                    r == Err::<(), Error>(E_MEM_LIM) && final(core)@ == m0
                }
            }),
    {
        let event = core.mem(ep);
        let device = event.x;
        let event_stub = match core.reserve_stub(device, ep) {
            Ok(s) => s,
            Err(e) => {
                return Err(e);
            },
        };
        let code = (self.to_host)(event_stub);
        if code == E_OK {
            Ok(())
        } else {
            let _ = core.release_stub(event_stub);
            Err(code)
        }
    }

    /// Reclamation hook: invoked by the substrate when a proxy previously
    /// handed out by this device is no longer reachable from actor code.
    /// The reclaimed proxy is forwarded to the host callback — this is how
    /// host-side resources learn of actor-side unreachability — and the
    /// callback's result is ignored; the substrate is untouched.
    pub fn drop_proxy(&mut self, _core: &mut Core, proxy: Any)
        requires
            forall|x: Any| #[trigger] call_requires(old(self).to_host, (x,)),
        ensures
            *final(self) == *old(self),
            final(_core)@ == old(_core)@,
            exists|code: Error| #[trigger] call_ensures(old(self).to_host, (proxy,), code),
    {
        let _ = (self.to_host)(proxy);
    }
}

} // verus!
