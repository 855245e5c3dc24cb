//! The host-side runtime: owns one loaded module instance and mediates all
//! calls into and out of it.
//!
//! Loading compiles the module bytes; instantiation wires a host callback
//! into the sandbox so the guest can call back into the host. Both happen in
//! one step, and only a runtime that completed them is ever handed out, so a
//! runtime that exists is past `Unloaded` and `Loaded` and stands `Ready`.
//! A fatal boundary violation moves it to `Failed`; from then on every call
//! fails fast with `Unreachable` and nothing re-attempts execution.
//!
//! The engine reports a guest trap and a guest-reported failure on one
//! channel, as text, so the runtime cannot tell them apart by itself: a call
//! error surfaces as a rejection, and the supervisor that can tell — a
//! watchdog, a caller that saw a boundary violation — moves the runtime to
//! `Failed` through `abort`.

use vstd::prelude::*;

use crate::codec::{decode_string, encode_string};
use crate::errors::{CallError, LoadError};

verus! {

#[verifier::external_type_specification]
#[verifier::external_body]
pub struct ExWapcHost(wapc::WapcHost);

#[verifier::external_type_specification]
#[verifier::external_body]
pub struct ExWasmtimeEngineProvider(wasmtime_provider::WasmtimeEngineProvider);

/// Where a runtime stands in its life.
#[derive(Debug, Clone, Copy, PartialEq, Eq, Structural)]
pub enum RuntimeState {
    /// Loaded and instantiated; calls enter the module.
    Ready,
    /// Fatally stopped; calls fail fast and nothing re-attempts execution.
    Failed,
}

/// Relies on wasmtime_provider::WasmtimeEngineProviderBuilder: compiles the
/// module bytes into an engine; bytes that are no valid compiled unit are
/// reported as an error.
#[verifier::external_body]
fn engine_from_bytes(bytes: &Vec<u8>) -> (r: Result<
    wasmtime_provider::WasmtimeEngineProvider,
    String,
>) {
    let builder = wasmtime_provider::WasmtimeEngineProviderBuilder::new();
    match builder.module_bytes(bytes.as_slice()).build() {
        Ok(engine) => Ok(engine),
        Err(e) => Err(e.to_string()),
    }
}

/// Relies on wapc::WapcHost::new: instantiates the module on the engine and
/// installs the callback, which the sandbox may invoke, reentrantly, during
/// any later call; initialisation trouble is reported as an error.
#[verifier::external_body]
fn wapc_host_new<
    F: Fn(String, String, String, Vec<u8>) -> Result<Vec<u8>, String> + Send + Sync + 'static,
>(engine: wasmtime_provider::WasmtimeEngineProvider, callback: F) -> (r: Result<
    wapc::WapcHost,
    String,
>)
    requires
        forall|args: (String, String, String, Vec<u8>)| #[trigger] call_requires(callback, args),
{
    let hooked = move |_id: u64, b: &str, n: &str, o: &str, p: &[u8]|
        -> Result<Vec<u8>, Box<dyn std::error::Error + Send + Sync>> {
        callback(b.to_owned(), n.to_owned(), o.to_owned(), p.to_vec()).map_err(|m| m.into())
    };
    match wapc::WapcHost::new(Box::new(engine), Some(Box::new(hooked))) {
        Ok(h) => Ok(h),
        Err(e) => Err(e.to_string()),
    }
}

/// Relies on wapc::WapcHost::call: runs the named guest operation on the
/// payload. What comes back is the guest's to choose, so nothing is claimed
/// of it; an error carries the message the boundary reported.
#[verifier::external_body]
fn wapc_call(host: &wapc::WapcHost, operation: &str, payload: &Vec<u8>) -> (r: Result<
    Vec<u8>,
    String,
>) {
    match host.call(operation, payload.as_slice()) {
        Ok(reply) => Ok(reply),
        Err(e) => Err(e.to_string()),
    }
}

/// What the caller of `call` is told for what the boundary gave back: a
/// reply passes through unchanged, an error message is the remote side's
/// rejection.
pub fn settle_outcome(outcome: Result<Vec<u8>, String>) -> (r: Result<Vec<u8>, CallError>)
    ensures
        match outcome {
            Ok(reply) => r matches Ok(b) && b@ == reply@,
            Err(message) => r matches Err(CallError::Rejected(m)) && m@ == message@,
        },
{
    match outcome {
        Ok(reply) => Ok(reply),
        Err(message) => Err(CallError::Rejected(message)),
    }
}

/// One loaded, instantiated module and the state of its lifecycle.
pub struct HostRuntime {
    state: RuntimeState,
    host: wapc::WapcHost,
}

impl HostRuntime {
    /// Where the runtime stands in its life.
    pub closed spec fn spec_state(&self) -> RuntimeState {
        self.state
    }

    /// Where the runtime stands in its life.
    pub fn state(&self) -> (r: RuntimeState)
        ensures
            r == self.spec_state(),
    {
        self.state
    }

    /// Loads and instantiates in one step. Bytes that are no valid compiled
    /// unit give `InvalidBinary`; a unit that cannot be wired up gives
    /// `InstantiationFailed`. On success the runtime stands `Ready`: it is
    /// never handed out in any other state, so a rejected load leaves
    /// nothing that could be observed `Ready`. The callback is invoked
    /// synchronously whenever the guest performs a boundary call, possibly
    /// from within a `call` of this runtime.
    pub fn new<
        F: Fn(String, String, String, Vec<u8>) -> Result<Vec<u8>, String> + Send + Sync + 'static,
    >(bytes: &Vec<u8>, callback: F) -> (r: Result<HostRuntime, LoadError>)
        requires
            forall|args: (String, String, String, Vec<u8>)|
                #[trigger] call_requires(callback, args),
        ensures
            r matches Ok(h) ==> h.spec_state() == RuntimeState::Ready,
            r matches Err(e) ==> (e matches LoadError::InvalidBinary || e matches
                LoadError::InstantiationFailed(_)),
    {
        match engine_from_bytes(bytes) {
            Err(_) => Err(LoadError::InvalidBinary),
            Ok(engine) => match wapc_host_new(engine, callback) {
                Err(message) => Err(LoadError::InstantiationFailed(message)),
                Ok(host) => Ok(HostRuntime { state: RuntimeState::Ready, host }),
            },
        }
    }

    /// Calls the named guest operation with the payload. A `Failed` runtime
    /// answers `Unreachable` at once, without attempting execution, and
    /// stays `Failed`; a `Ready` one enters the module and stays `Ready`,
    /// handing a boundary error to the caller as a rejection.
    pub fn call(&mut self, operation: &str, payload: &Vec<u8>) -> (r: Result<Vec<u8>, CallError>)
        ensures
            final(self).spec_state() == old(self).spec_state(),
            old(self).spec_state() == RuntimeState::Failed ==> r matches Err(
                CallError::Unreachable,
            ),
            old(self).spec_state() == RuntimeState::Ready ==> (r matches Ok(_) || (r matches Err(
                e,
            ) && e matches CallError::Rejected(_))),
    {
        match self.state {
            RuntimeState::Failed => Err(CallError::Unreachable),
            RuntimeState::Ready => {
                let outcome = wapc_call(&self.host, operation, payload);
                settle_outcome(outcome)
            },
        }
    }

    /// Calls the named guest operation with a text payload: encodes the
    /// text, enters the module, and decodes the reply. A reply that is no
    /// valid text payload is malformed; everything else is as `call` has it.
    pub fn call_with_text(&mut self, operation: &str, data: &String) -> (r: Result<
        String,
        CallError,
    >)
        ensures
            final(self).spec_state() == old(self).spec_state(),
            old(self).spec_state() == RuntimeState::Failed ==> r matches Err(
                CallError::Unreachable,
            ),
            old(self).spec_state() == RuntimeState::Ready ==> (r matches Ok(_) || (r matches Err(
                e,
            ) && (e matches CallError::Rejected(_) || e matches CallError::Malformed))),
    {
        let payload = encode_string(data);
        match self.call(operation, &payload) {
            Err(e) => Err(e),
            Ok(reply) => match decode_string(&reply) {
                Ok(text) => Ok(text),
                Err(_) => Err(CallError::Malformed),
            },
        }
    }

    /// The supervisor's abort: records a fatal trap or a discarded instance.
    /// The runtime stands `Failed` afterwards, whatever it was before, and
    /// never repairs itself; callers construct a new instance instead.
    pub fn abort(&mut self)
        ensures
            final(self).spec_state() == RuntimeState::Failed,
    {
        self.state = RuntimeState::Failed;
    }
}

} // verus!
