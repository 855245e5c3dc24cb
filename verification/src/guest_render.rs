//! A guest that offers one operation: `render`, which renders a template
//! over a blog record. It also carries the guest-side view of the host: a
//! named binding through which a handler calls host capabilities.

use vstd::prelude::*;

use crate::codec::{decode_string, encode_render, msgpack_of_render, string_of_msgpack, Blog};
use crate::dispatch::host_args_match;
use crate::errors::CallError;
use crate::registry::{Handler, OperationRegistry};

verus! {

/// What rendering a template over a blog record gives: the rendered text, or
/// the template engine's error message.
pub uninterp spec fn rendered_of(
    template: Seq<char>,
    title: Seq<char>,
    body: Seq<char>,
    author: Seq<char>,
) -> Result<Seq<char>, Seq<char>>;

/// Relies on handlebars::Handlebars::render_template: the result is a
/// function of the template and the three fields alone; a template that does
/// not parse is reported as an error.
#[verifier::external_body]
fn render_template(
    template: &String,
    title: &String,
    body: &String,
    author: &String,
) -> (r: Result<String, String>)
    ensures
        match r {
            Ok(s) => rendered_of(template@, title@, body@, author@) == Ok::<
                Seq<char>,
                Seq<char>,
            >(s@),
            Err(m) => rendered_of(template@, title@, body@, author@) == Err::<
                Seq<char>,
                Seq<char>,
            >(m@),
        },
{
    let engine = handlebars::Handlebars::new();
    let mut data = std::collections::BTreeMap::new();
    data.insert("title", title.as_str());
    data.insert("body", body.as_str());
    data.insert("author", author.as_str());
    match engine.render_template(template.as_str(), &data) {
        Ok(s) => Ok(s),
        Err(e) => Err(e.to_string()),
    }
}

/// Renders the template over the blog record.
pub fn render(blog: Blog, template: String) -> (r: Result<String, String>)
    ensures
        match rendered_of(template@, blog.title@, blog.body@, blog.author@) {
            Ok(text) => r matches Ok(s) && s@ == text,
            Err(m) => r matches Err(w) && w@ == m,
        },
{
    render_template(&template, &blog.title, &blog.body, &blog.author)
}

/// A named group of host capabilities, selected by its binding string.
#[derive(Debug, Clone)]
pub struct Host {
    pub binding: String,
}

/// Creates a named host binding.
pub fn host(binding: &str) -> (r: Host)
    ensures
        r.binding@ == binding@,
{
    Host { binding: binding.to_owned() }
}

/// Creates the default host binding.
pub fn default() -> (r: Host)
    ensures
        r.binding@ == "default"@,
{
    Host { binding: "default".to_owned() }
}

/// What `Host::render` may reply, given what the callback can answer: a
/// success decodes a reply the callback gave for the render invocation, a
/// rejection carries the message the callback failed with, and a malformed
/// reply is one the callback gave that does not decode to text.
pub open spec fn render_reply<F: Fn(String, String, String, Vec<u8>) -> Result<Vec<u8>, String>>(
    callback: F,
    binding: Seq<char>,
    sent: Seq<u8>,
    r: Result<String, CallError>,
) -> bool {
    match r {
        Ok(s) => exists|args: (String, String, String, Vec<u8>), out: Vec<u8>|
            #[trigger] host_args_match(args, binding, Seq::empty(), "render"@, sent)
                && #[trigger] call_ensures(callback, args, Ok(out)) && string_of_msgpack(out@)
                == Some(s@),
        Err(CallError::Rejected(m)) => exists|args: (String, String, String, Vec<u8>)|
            #[trigger] host_args_match(args, binding, Seq::empty(), "render"@, sent)
                && call_ensures(callback, args, Err(m)),
        Err(CallError::Malformed) => exists|
            args: (String, String, String, Vec<u8>),
            out: Vec<u8>,
        |
            #[trigger] host_args_match(args, binding, Seq::empty(), "render"@, sent)
                && #[trigger] call_ensures(callback, args, Ok(out)) && string_of_msgpack(out@)
                is None,
        Err(CallError::Unreachable) => false,
    }
}

impl Host {
    /// Asks the host to render: encodes the request, sends it through the
    /// callback under this binding, and decodes the reply. A callback error
    /// comes back as a rejection with its message; a reply that does not
    /// decode comes back as malformed.
    pub fn render<F: Fn(String, String, String, Vec<u8>) -> Result<Vec<u8>, String>>(
        &self,
        callback: F,
        blog: &Blog,
        template: &String,
    ) -> (r: Result<String, CallError>)
        requires
            forall|args: (String, String, String, Vec<u8>)|
                #[trigger] call_requires(callback, args),
        ensures
            render_reply(
                callback,
                self.binding@,
                msgpack_of_render(blog.title@, blog.body@, blog.author@, template@),
                r,
            ),
    {
        let payload = encode_render(blog, template);
        let binding = self.binding.clone();
        let namespace = String::new();
        let name = "render".to_owned();
        let ghost sent_args: (String, String, String, Vec<u8>) = (
            binding,
            namespace,
            name,
            payload,
        );
        let reply = callback(binding, namespace, name, payload);
        proof {
            assert(host_args_match(
                sent_args,
                self.binding@,
                Seq::empty(),
                "render"@,
                msgpack_of_render(blog.title@, blog.body@, blog.author@, template@),
            ));
        }
        match reply {
            Err(m) => {
                proof {
                    assert(call_ensures(callback, sent_args, Err::<Vec<u8>, String>(m)));
                }
                Err(CallError::Rejected(m))
            },
            Ok(out) => {
                proof {
                    assert(call_ensures(callback, sent_args, Ok::<Vec<u8>, String>(out)));
                }
                match decode_string(&out) {
                    Ok(s) => Ok(s),
                    Err(_) => Err(CallError::Malformed),
                }
            },
        }
    }
}

/// The registrations this guest offers, applied to a registry one by one.
pub struct Handlers {}

impl Handlers {
    /// Registers the render handler under its operation name.
    pub fn register_render(registry: &mut OperationRegistry)
        ensures
            final(registry)@ == old(registry)@.insert("render"@, Handler::Render),
    {
        registry.register("render", Handler::Render);
    }
}

/// The bootstrap of this guest: builds the registry it serves calls from.
/// It runs once, before any call is dispatched.
pub fn wapc_init() -> (r: OperationRegistry)
    ensures
        r@ == Map::<Seq<char>, Handler>::empty().insert("render"@, Handler::Render),
{
    let mut registry = OperationRegistry::new();
    Handlers::register_render(&mut registry);
    registry
}

} // verus!
