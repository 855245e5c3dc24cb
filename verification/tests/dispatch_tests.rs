use wasm_bridge::codec::{decode_string, encode_render, encode_string, Blog};
use wasm_bridge::dispatch::{dispatch, handle_guest_call};
use wasm_bridge::errors::{dispatch_error_to_call_error, CallError, DispatchError};
use wasm_bridge::guest_hello;
use wasm_bridge::guest_render;
use wasm_bridge::registry::{Handler, OperationRegistry};

fn a_blog() -> Blog {
    Blog {
        title: "A title".to_string(),
        body: "A body".to_string(),
        author: "An author".to_string(),
    }
}

fn silent_host(
    _binding: String,
    _namespace: String,
    _operation: String,
    _payload: Vec<u8>,
) -> Result<Vec<u8>, String> {
    Ok(Vec::new())
}

fn refusing_host(
    _binding: String,
    _namespace: String,
    _operation: String,
    _payload: Vec<u8>,
) -> Result<Vec<u8>, String> {
    Err("the host takes no calls".to_string())
}

#[test]
fn unknown_operation_is_a_typed_error() {
    let registry = guest_hello::wapc_init();
    let payload = encode_string(&"World".to_string());
    let r = dispatch(&registry, silent_host, "mystery", &payload);
    match r {
        Err(DispatchError::UnknownOperation(name)) => assert_eq!(name, "mystery"),
        other => panic!("expected an unknown-operation error, got {:?}", other),
    }
}

#[test]
fn unknown_operation_surfaces_as_rejected() {
    let registry = OperationRegistry::new();
    let payload = encode_string(&"World".to_string());
    let e = dispatch(&registry, silent_host, "hello", &payload).unwrap_err();
    match dispatch_error_to_call_error(e) {
        CallError::Rejected(m) => assert_eq!(m, "unknown operation: hello"),
        other => panic!("expected a rejection, got {:?}", other),
    }
}

#[test]
fn the_boundary_handler_converts_every_guest_error() {
    let registry = guest_hello::wapc_init();
    let payload = encode_string(&"World".to_string());
    match handle_guest_call(&registry, silent_host, "mystery", &payload) {
        Err(CallError::Rejected(m)) => assert_eq!(m, "unknown operation: mystery"),
        other => panic!("expected a rejection, got {:?}", other),
    }
    let r = handle_guest_call(&registry, silent_host, "hello", &vec![0x2a]);
    assert!(matches!(r, Err(CallError::Malformed)));
    let reply = handle_guest_call(&registry, silent_host, "hello", &payload).unwrap();
    assert_eq!(decode_string(&reply).unwrap(), "Hello, World.");
}

#[test]
fn hello_greets_world() {
    let registry = guest_hello::wapc_init();
    let payload = encode_string(&"World".to_string());
    let reply = dispatch(&registry, silent_host, "hello", &payload).unwrap();
    assert_eq!(decode_string(&reply).unwrap(), "Hello, World.");
}

#[test]
fn hello_handler_builds_the_greeting() {
    assert_eq!(guest_hello::hello("World".to_string()).unwrap(), "Hello, World.");
}

#[test]
fn bad_payload_is_a_decode_failure() {
    let registry = guest_hello::wapc_init();
    let r = dispatch(&registry, silent_host, "hello", &vec![0x2a]);
    assert!(matches!(r, Err(DispatchError::DecodeFailed)));
    let e = dispatch(&registry, silent_host, "hello", &vec![0x2a]).unwrap_err();
    assert!(matches!(dispatch_error_to_call_error(e), CallError::Malformed));
}

#[test]
fn a_later_registration_wins() {
    let mut registry = OperationRegistry::new();
    registry.register("op", Handler::Hello);
    registry.register("op", Handler::Render);
    assert_eq!(registry.resolve("op"), Some(Handler::Render));
}

#[test]
fn an_empty_registry_resolves_nothing() {
    let registry = OperationRegistry::new();
    assert_eq!(registry.resolve("hello"), None);
}

#[test]
fn render_replies_with_the_rendered_text() {
    let registry = guest_render::wapc_init();
    let payload = encode_render(&a_blog(), &"{{title}} by {{author}}".to_string());
    let reply = dispatch(&registry, silent_host, "render", &payload).unwrap();
    assert_eq!(decode_string(&reply).unwrap(), "A title by An author");
}

#[test]
fn render_result_survives_a_refused_callback() {
    let registry = guest_render::wapc_init();
    let payload = encode_render(&a_blog(), &"{{title}} by {{author}}".to_string());
    let reply = dispatch(&registry, refusing_host, "render", &payload).unwrap();
    assert_eq!(decode_string(&reply).unwrap(), "A title by An author");
}

#[test]
fn render_rejects_a_broken_template() {
    let registry = guest_render::wapc_init();
    let payload = encode_render(&a_blog(), &"{{#if}}".to_string());
    let r = dispatch(&registry, silent_host, "render", &payload);
    assert!(matches!(r, Err(DispatchError::HandlerFailed(_))));
}

#[test]
fn render_handler_renders_directly() {
    let text = guest_render::render(a_blog(), "{{body}}".to_string()).unwrap();
    assert_eq!(text, "A body");
}

#[test]
fn host_render_decodes_the_reply() {
    let binding = guest_render::default();
    assert_eq!(binding.binding, "default");
    let blog = Blog { title: "t".to_string(), body: "b".to_string(), author: "a".to_string() };
    let answering = |_b: String, _n: String, operation: String, _p: Vec<u8>| {
        assert_eq!(operation, "render");
        Ok(encode_string(&"rendered by the host".to_string()))
    };
    let r = binding.render(answering, &blog, &"ignored".to_string());
    assert_eq!(r.unwrap(), "rendered by the host");
}

#[test]
fn host_render_reports_a_refusal() {
    let binding = guest_render::host("capabilities");
    assert_eq!(binding.binding, "capabilities");
    let blog = Blog { title: "t".to_string(), body: "b".to_string(), author: "a".to_string() };
    let r = binding.render(refusing_host, &blog, &"x".to_string());
    match r {
        Err(CallError::Rejected(m)) => assert_eq!(m, "the host takes no calls"),
        other => panic!("expected a rejection, got {:?}", other),
    }
}

#[test]
fn host_render_flags_an_undecodable_reply() {
    let binding = guest_render::default();
    let blog = Blog { title: "t".to_string(), body: "b".to_string(), author: "a".to_string() };
    let junk = |_b: String, _n: String, _o: String, _p: Vec<u8>| Ok(vec![0xa5]);
    let r = binding.render(junk, &blog, &"x".to_string());
    assert!(matches!(r, Err(CallError::Malformed)));
}
