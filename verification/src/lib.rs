//! Driver logic for a rotary input peripheral (a "dial") exposed as a USB
//! Human Interface Device: the raw-report protocol decoder, the haptic
//! feedback pattern, and the decision core of the background polling engine.
//!
//! Device enumeration, the HID transport and the background thread itself are
//! left to the host application; this crate holds the pure decisions and
//! transforms, each with a verified contract.

pub mod engine;
pub mod events;
pub mod facade;
pub mod protocol;
