//! The dispatcher's decision: which registered node handles a routed message.
//! The caller keeps the handlers, receives the messages and runs the handler
//! chosen here.
use vstd::prelude::*;
use crate::core_logic::errors::AppError;
use crate::json::{JsonValue, JsonView};
use crate::text::str_eq;

verus! {

/// A message on its way to the next node.
#[derive(Debug)]
pub struct RoutedMessage {
    pub next_node: String,
    pub message: JsonValue,
}

/// View of a routed message.
pub struct RoutedMessageView {
    pub next_node: Seq<char>,
    pub message: JsonView,
}

impl View for RoutedMessage {
    type V = RoutedMessageView;

    open spec fn view(&self) -> RoutedMessageView {
        RoutedMessageView { next_node: self.next_node@, message: self.message@ }
    }
}

/// The position of the first route registered under `name`, if any.
pub open spec fn route_index(routes: Seq<Seq<char>>, name: Seq<char>) -> Option<int>
    decreases routes.len(),
{
    if routes.len() == 0 {
        None
    } else if routes[0] == name {
        Some(0)
    } else {
        match route_index(routes.drop_first(), name) {
            Some(i) => Some(i + 1),
            None => None,
        }
    }
}

/// The routes are found where they are registered, first match first.
pub proof fn lemma_route_index(routes: Seq<Seq<char>>, name: Seq<char>)
    ensures
        match route_index(routes, name) {
            Some(i) => 0 <= i < routes.len() && routes[i] == name && forall|k: int|
                0 <= k < i ==> routes[k] != name,
            None => forall|k: int| 0 <= k < routes.len() ==> routes[k] != name,
        },
    decreases routes.len(),
{
    if routes.len() > 0 {
        let t = routes.drop_first();
        lemma_route_index(t, name);
        assert forall|k: int| 0 <= k < t.len() implies t[k] == routes[k + 1] by {}
        if routes[0] != name {
            match route_index(t, name) {
                Some(i) => {
                    assert forall|k: int| 0 <= k < i + 1 implies routes[k] != name by {
                        if k > 0 {
                            assert(routes[k] == t[k - 1]);
                        }
                    }
                },
                None => {
                    assert forall|k: int| 0 <= k < routes.len() implies routes[k] != name by {
                        if k > 0 {
                            assert(routes[k] == t[k - 1]);
                        }
                    }
                },
            }
        }
    }
}

/// The names of a list of routes.
pub open spec fn route_names(routes: Seq<String>) -> Seq<Seq<char>> {
    routes.map_values(|s: String| s@)
}

/// The handler that a message for `next_node` goes to: the position of the
/// first route registered under that name; an `UnknownNode` error carrying the
/// name when no route has it.
pub fn dispatch_route(routes: &Vec<String>, next_node: &str) -> (r: Result<usize, AppError>)
    ensures
        match route_index(route_names(routes@), next_node@) {
            Some(i) => r == Ok::<usize, AppError>(i as usize),
            None => r matches Err(AppError::UnknownNode(m)) && m@ == next_node@,
        },
{
    let ghost names = route_names(routes@);
    let mut i: usize = 0;
    while i < routes.len()
        invariant
            i <= routes@.len(),
            names == route_names(routes@),
            forall|k: int| 0 <= k < i ==> names[k] != next_node@,
        decreases routes@.len() - i,
    {
        if str_eq(routes[i].as_str(), next_node) {
            proof {
                lemma_route_index(names, next_node@);
                let found = route_index(names, next_node@);
                assert(names[i as int] == next_node@);
                assert(found == Some(i as int)) by {
                    match found {
                        Some(j) => {
                            if j < i {
                                assert(names[j] != next_node@);
                            } else if j > i {
                                assert(names[i as int] != next_node@);
                            }
                        },
                        None => {
                            assert(names[i as int] != next_node@);
                        },
                    }
                }
            }
            return Ok(i);
        }
        i = i + 1;
    }
    proof {
        lemma_route_index(names, next_node@);
        assert(route_index(names, next_node@) is None) by {
            match route_index(names, next_node@) {
                Some(j) => {
                    assert(names[j] != next_node@);
                },
                None => {},
            }
        }
    }
    Err(AppError::UnknownNode(next_node.to_owned()))
}

/// The node that analyses the human's request.
pub struct HumanRequestAnalyzerHandler;

/// The node of the main agent.
pub struct MainAgentHandler;

/// The node of the pull-request agent.
pub struct PrAgentHandler;

/// The node of the second worker.
pub struct Sre2AgentHandler;

/// What the dispatcher answers once no message is left.
pub fn dispatcher_finished() -> (r: String)
    ensures
        r@ == "Dispatcher finished"@,
{
    String::from_str("Dispatcher finished")
}

} // verus!
