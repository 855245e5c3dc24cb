use wasm_bridge::errors::{CallError, LoadError};
use wasm_bridge::host::{settle_outcome, HostRuntime, RuntimeState};

fn no_host(
    _binding: String,
    _namespace: String,
    _operation: String,
    _payload: Vec<u8>,
) -> Result<Vec<u8>, String> {
    Err("Not implemented".to_string())
}

/// The smallest unit the sandbox accepts as callable: it exports the
/// boundary entry point and reports every invocation as failed.
fn minimal_module() -> Vec<u8> {
    vec![
        0x00, 0x61, 0x73, 0x6d, 0x01, 0x00, 0x00, 0x00, // header and version
        0x01, 0x07, 0x01, 0x60, 0x02, 0x7f, 0x7f, 0x01, 0x7f, // one (i32,i32)->i32 type
        0x03, 0x02, 0x01, 0x00, // one function of that type
        0x07, 0x10, 0x01, 0x0c, 0x5f, 0x5f, 0x67, 0x75, 0x65, 0x73, 0x74, 0x5f, 0x63, 0x61,
        0x6c, 0x6c, 0x00, 0x00, // exported as "__guest_call"
        0x0a, 0x06, 0x01, 0x04, 0x00, 0x41, 0x00, 0x0b, // its body: return 0
    ]
}

/// A compiled unit with no exports at all: valid bytes, not a callable guest.
fn empty_module() -> Vec<u8> {
    vec![0x00, 0x61, 0x73, 0x6d, 0x01, 0x00, 0x00, 0x00]
}

#[test]
fn an_outcome_settles_to_reply_or_rejection() {
    match settle_outcome(Ok(vec![1, 2])) {
        Ok(reply) => assert_eq!(reply, vec![1, 2]),
        other => panic!("expected the reply back, got {:?}", other),
    }
    match settle_outcome(Err("the guest gave up".to_string())) {
        Err(CallError::Rejected(m)) => assert_eq!(m, "the guest gave up"),
        other => panic!("expected a rejection, got {:?}", other),
    }
}

#[test]
fn invalid_bytes_are_refused() {
    let r = HostRuntime::new(&vec![0x01, 0x02, 0x03], no_host);
    assert!(matches!(r, Err(LoadError::InvalidBinary)));
}

#[test]
fn a_unit_without_the_entry_point_fails_instantiation() {
    let r = HostRuntime::new(&empty_module(), no_host);
    assert!(matches!(r, Err(LoadError::InstantiationFailed(_))));
}

#[test]
fn a_loaded_runtime_stands_ready() {
    let runtime = HostRuntime::new(&minimal_module(), no_host).unwrap();
    assert_eq!(runtime.state(), RuntimeState::Ready);
}

#[test]
fn a_guest_failure_is_a_rejection_and_keeps_the_runtime_ready() {
    let mut runtime = HostRuntime::new(&minimal_module(), no_host).unwrap();
    let r = runtime.call("anything", &Vec::new());
    assert!(matches!(r, Err(CallError::Rejected(_))));
    assert_eq!(runtime.state(), RuntimeState::Ready);
}

#[test]
fn a_text_call_reports_the_guest_failure() {
    let mut runtime = HostRuntime::new(&minimal_module(), no_host).unwrap();
    let r = runtime.call_with_text("hello", &"World".to_string());
    assert!(matches!(r, Err(CallError::Rejected(_))));
    assert_eq!(runtime.state(), RuntimeState::Ready);
}

#[test]
fn after_abort_every_call_is_unreachable() {
    let mut runtime = HostRuntime::new(&minimal_module(), no_host).unwrap();
    runtime.abort();
    assert_eq!(runtime.state(), RuntimeState::Failed);
    assert!(matches!(runtime.call("anything", &Vec::new()), Err(CallError::Unreachable)));
    assert!(matches!(runtime.call("again", &Vec::new()), Err(CallError::Unreachable)));
    assert_eq!(runtime.state(), RuntimeState::Failed);
}
