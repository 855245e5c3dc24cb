//! The guest-side dispatcher: the entry point the host invokes on each call.
//!
//! `dispatch` resolves the operation in the registry, decodes the payload,
//! runs the handler and encodes its result. It is the single place where the
//! codec and the registry are composed. A handler may call back into the
//! host through the callback handed to `dispatch`; the callback is invoked
//! synchronously, within the call.

use vstd::prelude::*;

use crate::codec::{
    decode_render, decode_string, encode_string, msgpack_of_string, render_of_msgpack,
    string_of_msgpack,
};
use crate::errors::{
    dispatch_error_to_call_error, unknown_operation_message, CallError, DispatchError,
    DispatchErrorView,
};
use crate::guest_hello::{greeting_of, hello};
use crate::guest_render::{render, rendered_of};
use crate::registry::{Handler, OperationRegistry};

verus! {

/// Whether a callback argument tuple is the given invocation.
pub open spec fn host_args_match(
    args: (String, String, String, Vec<u8>),
    binding: Seq<char>,
    namespace: Seq<char>,
    operation: Seq<char>,
    payload: Seq<u8>,
) -> bool {
    args.0@ == binding && args.1@ == namespace && args.2@ == operation && args.3@ == payload
}

/// What `dispatch` replies for an operation resolved to `handler` and a call
/// payload `payload`, stated over the codec's names.
pub open spec fn dispatched(handler: Handler, payload: Seq<u8>) -> Result<
    Seq<u8>,
    DispatchErrorView,
> {
    match handler {
        Handler::Hello => match string_of_msgpack(payload) {
            Some(name) => Ok(msgpack_of_string(greeting_of(name))),
            None => Err(DispatchErrorView::DecodeFailed),
        },
        Handler::Render => match render_of_msgpack(payload) {
            Some(fields) => match rendered_of(fields.3, fields.0, fields.1, fields.2) {
                Ok(text) => Ok(msgpack_of_string(text)),
                Err(m) => Err(DispatchErrorView::HandlerFailed(m)),
            },
            None => Err(DispatchErrorView::DecodeFailed),
        },
    }
}

/// Whether an exec reply agrees with the spec-level one, view by view.
pub open spec fn reply_matches(
    r: Result<Vec<u8>, DispatchError>,
    s: Result<Seq<u8>, DispatchErrorView>,
) -> bool {
    match (r, s) {
        (Ok(b), Ok(bs)) => b@ == bs,
        (Err(e), Err(es)) => e@ == es,
        _ => false,
    }
}

/// Resolves the operation, decodes the payload, runs the handler, encodes
/// its result. An unregistered name is a typed error, never an empty reply.
/// A handler that calls back into the host does so through `host`, inside
/// this call; the reply does not depend on what the callback returns.
pub fn dispatch<F: Fn(String, String, String, Vec<u8>) -> Result<Vec<u8>, String>>(
    registry: &OperationRegistry,
    host: F,
    operation: &str,
    payload: &Vec<u8>,
) -> (r: Result<Vec<u8>, DispatchError>)
    requires
        forall|args: (String, String, String, Vec<u8>)| #[trigger] call_requires(host, args),
    ensures
        !registry@.contains_key(operation@) ==> (r matches Err(
            DispatchError::UnknownOperation(n),
        ) && n@ == operation@),
        registry@.contains_key(operation@) ==> reply_matches(
            r,
            dispatched(registry@[operation@], payload@),
        ),
{
    let resolved = registry.resolve(operation);
    match resolved {
        None => Err(DispatchError::UnknownOperation(operation.to_owned())),
        Some(Handler::Hello) => match decode_string(payload) {
            Err(_) => Err(DispatchError::DecodeFailed),
            Ok(name) => match hello(name) {
                Ok(greeting) => Ok(encode_string(&greeting)),
                Err(m) => Err(DispatchError::HandlerFailed(m)),
            },
        },
        Some(Handler::Render) => match decode_render(payload) {
            Err(_) => Err(DispatchError::DecodeFailed),
            Ok(args) => {
                match render(args.blog, args.template) {
                    Err(m) => Err(DispatchError::HandlerFailed(m)),
                    Ok(text) => {
                        let note = encode_string(&text);
                        let _ = host("default".to_owned(), String::new(), "log".to_owned(), note);
                        Ok(encode_string(&text))
                    },
                }
            },
        },
    }
}

/// The guest-side boundary handler: dispatches, then converts any dispatch
/// error into the call error that crosses back to the host, so the host
/// never sees a guest-internal error variant. An unknown operation and a
/// failed handler cross as rejections, a payload that did not decode as
/// malformed framing.
pub fn handle_guest_call<F: Fn(String, String, String, Vec<u8>) -> Result<Vec<u8>, String>>(
    registry: &OperationRegistry,
    host: F,
    operation: &str,
    payload: &Vec<u8>,
) -> (r: Result<Vec<u8>, CallError>)
    requires
        forall|args: (String, String, String, Vec<u8>)| #[trigger] call_requires(host, args),
    ensures
        !registry@.contains_key(operation@) ==> (r matches Err(CallError::Rejected(m)) && m@
            == unknown_operation_message(operation@)),
        registry@.contains_key(operation@) ==> match dispatched(
            registry@[operation@],
            payload@,
        ) {
            Ok(reply) => r matches Ok(b) && b@ == reply,
            Err(DispatchErrorView::DecodeFailed) => r matches Err(CallError::Malformed),
            Err(DispatchErrorView::HandlerFailed(m)) => (r matches Err(CallError::Rejected(w))
                && w@ == m),
            Err(DispatchErrorView::UnknownOperation(_)) => false,
        },
{
    match dispatch(registry, host, operation, payload) {
        Ok(reply) => Ok(reply),
        Err(e) => Err(dispatch_error_to_call_error(e)),
    }
}

} // verus!
