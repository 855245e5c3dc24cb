//! A guest that offers one operation: `hello`, which greets a caller by name.

use vstd::prelude::*;

use crate::registry::{Handler, OperationRegistry};

verus! {

/// The greeting the `hello` operation replies with.
pub open spec fn greeting_of(name: Seq<char>) -> Seq<char> {
    "Hello, "@ + name + "."@
}

/// Greets the given name. The handler never fails; the error side only
/// satisfies the shape every handler shares.
pub fn hello(name: String) -> (r: Result<String, String>)
    ensures
        r matches Ok(g) && g@ == greeting_of(name@),
{
    let mut g = "Hello, ".to_owned();
    g.append(name.as_str());
    g.append(".");
    Ok(g)
}

/// The registrations this guest offers, applied to a registry one by one.
pub struct Handlers {}

impl Handlers {
    /// Registers the greeting handler under its operation name.
    pub fn register_hello(registry: &mut OperationRegistry)
        ensures
            final(registry)@ == old(registry)@.insert("hello"@, Handler::Hello),
    {
        registry.register("hello", Handler::Hello);
    }
}

/// The bootstrap of this guest: builds the registry it serves calls from.
/// It runs once, before any call is dispatched.
pub fn wapc_init() -> (r: OperationRegistry)
    ensures
        r@ == Map::<Seq<char>, Handler>::empty().insert("hello"@, Handler::Hello),
{
    let mut registry = OperationRegistry::new();
    Handlers::register_hello(&mut registry);
    registry
}

} // verus!
