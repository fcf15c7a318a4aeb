//! Routes and the active-route predicate.

use vstd::prelude::*;

verus! {

/// A navigable location. An outside router supplies route values and this
/// crate never inspects their structure, so a route is modelled here by an
/// opaque, equality-comparable key alone.
#[derive(Clone, Copy, Debug, PartialEq, Eq, Structural)]
pub struct Route {
    pub key: u64,
}

/// A target route is active exactly when a current route exists and equals it.
pub open spec fn spec_is_active_route(current: Option<Route>, target: Route) -> bool {
    current == Some(target)
}

/// Active-route predicate: true iff a current route exists and is equal, by
/// value, to `target`. An absent current route (as during an initial render,
/// or with no router scope above) yields false. Total, with no side effects.
pub fn is_active_route(current: Option<Route>, target: Route) -> (r: bool)
    ensures
        r == spec_is_active_route(current, target),
{
    match current {
        Option::Some(c) => c.key == target.key,
        Option::None => false,
    }
}

/// The three cases of the active-route predicate: an absent current route
/// makes every target inactive; a present one makes its own value active and
/// every other value inactive.
pub proof fn lemma_active_route_cases(current: Option<Route>, target: Route)
    ensures
        current is None ==> !spec_is_active_route(current, target),
        current == Some(target) ==> spec_is_active_route(current, target),
        forall|other: Route|
            current == Some(other) && other != target ==> !spec_is_active_route(current, target),
{
}

} // verus!
