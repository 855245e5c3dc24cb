//! The operation registry: a mapping from operation names to handlers.
//!
//! Handlers are a closed set of tagged values, stored under the name they are
//! registered with. The registry is filled during a one-time bootstrap phase
//! and read on every incoming invocation; registering a name again
//! overwrites the earlier entry — the last registration wins.

use vstd::prelude::*;

verus! {

/// A handler a guest registers under an operation name.
#[derive(Debug, Clone, Copy, PartialEq, Eq, Structural)]
pub enum Handler {
    /// Replies with a greeting for the decoded name.
    Hello,
    /// Renders a template over a blog record.
    Render,
}

/// The mapping the dispatcher consults on every call, built during bootstrap.
#[derive(Debug)]
pub struct OperationRegistry {
    rows: Vec<(String, Handler)>,
}

/// The map described by the rows; a later row wins.
spec fn map_of(rows: Seq<(String, Handler)>) -> Map<Seq<char>, Handler>
    decreases rows.len(),
{
    if rows.len() == 0 {
        Map::empty()
    } else {
        map_of(rows.drop_last()).insert(rows.last().0@, rows.last().1)
    }
}

impl View for OperationRegistry {
    type V = Map<Seq<char>, Handler>;

    closed spec fn view(&self) -> Map<Seq<char>, Handler> {
        map_of(self.rows@)
    }
}

impl OperationRegistry {
    /// A new registry resolves nothing.
    pub fn new() -> (r: Self)
        ensures
            r@ == Map::<Seq<char>, Handler>::empty(),
    {
        Self { rows: Vec::new() }
    }

    /// Inserts the entry for `name`, overwriting any earlier one: the last
    /// registration of a name wins.
    pub fn register(&mut self, name: &str, handler: Handler)
        ensures
            final(self)@ == old(self)@.insert(name@, handler),
    {
        self.rows.push((name.to_owned(), handler));
        proof {
            assert(self.rows@.drop_last() =~= old(self).rows@);
        }
    }

    /// Looks the name up; a read with no side effect.
    pub fn resolve(&self, name: &str) -> (r: Option<Handler>)
        ensures
            r == if self@.contains_key(name@) {
                Some(self@[name@])
            } else {
                None::<Handler>
            },
    {
        let wanted = name.to_owned();
        let mut i = self.rows.len();
        proof {
            assert(self.rows@.take(i as int) =~= self.rows@);
        }
        while i > 0
            invariant
                i <= self.rows@.len(),
                wanted@ == name@,
                map_of(self.rows@.take(i as int)).contains_key(name@) == self@.contains_key(
                    name@,
                ),
                self@.contains_key(name@) ==> map_of(self.rows@.take(i as int))[name@]
                    == self@[name@],
            decreases i,
        {
            i = i - 1;
            proof {
                assert(self.rows@.take(i + 1).drop_last() =~= self.rows@.take(i as int));
            }
            if self.rows[i].0 == wanted {
                return Some(self.rows[i].1);
            }
        }
        proof {
            assert(map_of(self.rows@.take(0)) =~= Map::<Seq<char>, Handler>::empty());
        }
        None
    }
}

} // verus!
