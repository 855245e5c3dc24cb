//! A host/guest invocation bridge.
//!
//! A host process loads a compiled module, calls named operations inside it
//! with binary payloads, and lets the module call back into host-provided
//! capabilities. The crate is organised around five pieces:
//!
//! * [`codec`] — turns typed values into payload bytes and back;
//! * [`registry`] — maps operation names to handlers on the guest side;
//! * [`errors`] — the load, call, dispatch and codec error taxonomy;
//! * [`dispatch`] — the guest-side entry point that resolves an operation,
//!   decodes its payload, runs the handler and encodes the result;
//! * [`host`] — the host-side runtime that owns one module instance and
//!   mediates every call into and out of it.
//!
//! [`guest_hello`] and [`guest_render`] are two guest modules built on the
//! registry and dispatcher; [`lights`] holds small free-standing value types.

pub mod codec;
pub mod dispatch;
pub mod errors;
pub mod guest_hello;
pub mod guest_render;
pub mod host;
pub mod lights;
pub mod registry;
