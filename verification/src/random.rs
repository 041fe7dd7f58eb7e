//! The random device: branch-on-shape decoding with a synchronous reply.

use vstd::prelude::*;
use crate::value::{Any, Quad, Error, E_MEM_LIM};
use crate::substrate::{Core, CoreModel};

verus! {

/// The customer a random request replies to: the message itself when it
/// is a bare capability, otherwise the first element of the list.
pub open spec fn random_customer(m: CoreModel, msg: Any) -> Any {
    if msg is Cap {
        msg
    } else {
        m.nth(msg, 1)
    }
}

/// The argument pair handed to the random source, by message shape:
/// a bare capability asks for an unbounded value `(#?, #?)`; a fixnum
/// tail `(cust . limit)` asks for a single bound `(limit, #?)`; anything
/// else `(cust a . b)` asks for the range `(a, b)`.
pub open spec fn random_args(m: CoreModel, msg: Any) -> (Any, Any) {
    if msg is Cap {
        (Any::Undef, Any::Undef)
    } else if m.nth(msg, -1) is Fix {
        (m.nth(msg, -1), Any::Undef)
    } else {
        (m.nth(msg, 2), m.nth(msg, -2))
    }
}

/// The inert default random source: always draws fixnum zero.
pub fn zero_random(_a: Any, _b: Any) -> (r: Any)
    ensures
        r == Any::Fix(0),
{
    Any::Fix(0)
}

/// Connects the core to a host randomness source.  The message is one of
/// `cust`, `(cust . limit)`, or `(cust a . b)`; the decoded bound or
/// range reaches the injected source, and exactly one reply event
/// carrying the drawn value is enqueued for the customer.  Fully
/// synchronous; the only failure mode is reservation exhaustion.
pub struct RandomDevice<G: Fn(Any, Any) -> Any> {
    /// Injected random source, taking a bound/range pair.
    pub get_random: G,
}

impl<G: Fn(Any, Any) -> Any> RandomDevice<G> {
    /// Deliver one event to the random device.
    ///
    /// If a quad can still be reserved, the random source is invoked with
    /// exactly [`random_args`] of the message, and exactly one reply
    /// event carrying some possible output of that invocation is enqueued
    /// for [`random_customer`]; otherwise nothing changes and the
    /// resource fault is reported.
    pub fn handle_event(&mut self, core: &mut Core, ep: Any) -> (r: Result<(), Error>)
        requires
            old(core)@.valid_ptr(ep),
            forall|a: Any, b: Any| #[trigger] call_requires(old(self).get_random, (a, b)),
        ensures
            *final(self) == *old(self),
            ({
                let m0 = old(core)@;
                let sponsor = m0.quad(ep).t;
                let msg = m0.quad(ep).y;
                let cust = random_customer(m0, msg);
                if m0.can_reserve() {
                    &&& r == Ok::<(), Error>(())
                    &&& exists|v: Any|
                        #[trigger] call_ensures(old(self).get_random, random_args(m0, msg), v)
                            && final(core)@ == m0.grow(Quad::event(sponsor, cust, v)).enq(
                            m0.next_ptr(),
                        )
                } else {
                    &&& r == Err::<(), Error>(E_MEM_LIM)
                    &&& final(core)@ == m0
                }
            }),
    {
        let event = core.mem(ep);
        let sponsor = event.t;
        let msg = event.y;  // cust | (cust . limit) | (cust a . b)
        let cust = if msg.is_cap() {
            msg
        } else {
            core.nth(msg, 1)
        };
        let limit = core.nth(msg, -1);
        let a = core.nth(msg, 2);
        let b = core.nth(msg, -2);
        let random = if msg.is_cap() {
            (self.get_random)(Any::Undef, Any::Undef)
        } else if limit.is_fix() {
            (self.get_random)(limit, Any::Undef)
        } else {
            (self.get_random)(a, b)
        };
        proof {
            let m0 = old(core)@;
            let msgv = m0.quad(ep).y;
            assert(call_ensures(self.get_random, random_args(m0, msgv), random));
        }
        let evt = match core.reserve_event(sponsor, cust, random) {
            Ok(p) => p,
            Err(e) => {
                return Err(e);
            },
        };
        core.event_enqueue(evt);
        Ok(())
    }
}

} // verus!
