//! Device-extension layer of an actor-model virtual machine.
//!
//! The pure actor core delivers events to capabilities; some capabilities
//! are *devices*: host-injected endpoints that connect the core to clocks,
//! randomness, blocking I/O, timers, and a generic host boundary.  This
//! crate models the substrate interface the devices rely on (tagged values,
//! memory quads, the event queue, and the stub/proxy keep-alive protocol)
//! and verifies the five concrete devices against it.

pub mod value;
pub mod substrate;
pub mod clock;
pub mod timer;
pub mod io;
pub mod random;
pub mod host;
