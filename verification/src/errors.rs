//! The error taxonomy of the bridge.
//!
//! `LoadError` is fatal to a host runtime and never retried automatically.
//! `CallError` is what a boundary call surfaces to its caller. `DispatchError`
//! stays on the guest side and is always converted to a `CallError` before it
//! crosses back to the host. `CodecError` is wrapped by whichever component
//! invoked the codec and never escapes on its own.

use vstd::prelude::*;

verus! {

/// Why payload bytes could not be turned back into a value.
#[derive(Debug, Clone, Copy, PartialEq, Eq, Structural)]
pub enum CodecError {
    /// The bytes are not valid under the encoding.
    Malformed,
    /// The bytes decode, but not to the shape the caller expects.
    SchemaMismatch,
}

/// Why a module could not be loaded and instantiated.
#[derive(Debug, Clone)]
pub enum LoadError {
    /// The byte buffer is not a valid compiled unit for the execution sandbox.
    InvalidBinary,
    /// The unit compiled, but wiring it up failed; carries the engine's reason.
    InstantiationFailed(String),
    /// The backing file could not be read; carries the path and the detail.
    FileNotReadable(String, String),
}

/// Why a boundary call produced no payload.
#[derive(Debug, Clone)]
pub enum CallError {
    /// The module trapped or the host is unavailable; nothing ran to completion.
    Unreachable,
    /// The remote handler ran and returned an application-level error.
    Rejected(String),
    /// The remote returned bytes that are not valid payload framing.
    Malformed,
}

/// Why the guest dispatcher produced no payload.
#[derive(Debug, Clone)]
pub enum DispatchError {
    /// No handler is registered under the requested name.
    UnknownOperation(String),
    /// The call payload did not decode to the handler's argument type.
    DecodeFailed,
    /// The handler ran and failed; carries its message.
    HandlerFailed(String),
}

/// A dispatch error at the specification level: its message as a sequence.
pub enum DispatchErrorView {
    UnknownOperation(Seq<char>),
    DecodeFailed,
    HandlerFailed(Seq<char>),
}

impl View for DispatchError {
    type V = DispatchErrorView;

    open spec fn view(&self) -> DispatchErrorView {
        match self {
            DispatchError::UnknownOperation(n) => DispatchErrorView::UnknownOperation(n@),
            DispatchError::DecodeFailed => DispatchErrorView::DecodeFailed,
            DispatchError::HandlerFailed(m) => DispatchErrorView::HandlerFailed(m@),
        }
    }
}

/// The text that reports an unknown operation to the host.
pub open spec fn unknown_operation_message(name: Seq<char>) -> Seq<char> {
    "unknown operation: "@ + name
}

/// Converts a guest-side dispatch error into the call error the host sees.
///
/// A decode failure means the payload bytes were bad, so it crosses as
/// `Malformed`; an unknown operation and a handler failure both ran into
/// application-level trouble, so they cross as `Rejected` with a message.
pub fn dispatch_error_to_call_error(e: DispatchError) -> (r: CallError)
    ensures
        match e {
            DispatchError::UnknownOperation(n) => (r matches CallError::Rejected(m)
                && m@ == unknown_operation_message(n@)),
            DispatchError::DecodeFailed => r matches CallError::Malformed,
            DispatchError::HandlerFailed(m) => r matches CallError::Rejected(w) && w@ == m@,
        },
{
    match e {
        DispatchError::UnknownOperation(n) => {
            let mut m = "unknown operation: ".to_owned();
            m.append(n.as_str());
            CallError::Rejected(m)
        },
        DispatchError::DecodeFailed => CallError::Malformed,
        DispatchError::HandlerFailed(m) => CallError::Rejected(m),
    }
}

} // verus!
