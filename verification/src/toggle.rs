//! The toggle state cell of a collapsible navigation menu and its reducer.

use vstd::prelude::*;

verus! {

/// Shared open/closed state of a collapsible navigation menu. A provider
/// scope owns exactly one instance, created with `shown == false`.
#[derive(Clone, Copy, Debug, PartialEq, Eq, Structural)]
pub struct NavMenuState {
    pub shown: bool,
}

/// The closed set of actions that may be dispatched against a `NavMenuState`.
#[derive(Clone, Copy, Debug, PartialEq, Eq, Structural)]
pub enum NavMenuStateAction {
    Open,
    Close,
    Toggle,
}

/// What dispatching `action` against `s` yields: `Open` shows the menu,
/// `Close` puts it away, `Toggle` flips it.
pub open spec fn spec_reduce(s: NavMenuState, action: NavMenuStateAction) -> NavMenuState {
    match action {
        NavMenuStateAction::Open => NavMenuState { shown: true },
        NavMenuStateAction::Close => NavMenuState { shown: false },
        NavMenuStateAction::Toggle => NavMenuState { shown: !s.shown },
    }
}

impl NavMenuState {
    /// The state a provider scope starts in: the menu is not shown.
    pub fn initial() -> (r: NavMenuState)
        ensures
            r == (NavMenuState { shown: false }),
    {
        NavMenuState { shown: false }
    }

    /// Pure, total reducer over the action set; never fails.
    pub fn reduce(&self, action: NavMenuStateAction) -> (r: NavMenuState)
        ensures
            r == spec_reduce(*self, action),
    {
        match action {
            NavMenuStateAction::Open => NavMenuState { shown: true },
            NavMenuStateAction::Close => NavMenuState { shown: false },
            NavMenuStateAction::Toggle => NavMenuState { shown: !self.shown },
        }
    }
}

/// Opening and then closing lands in the not-shown state, whatever the start.
pub proof fn lemma_open_then_close(s: NavMenuState)
    ensures
        spec_reduce(spec_reduce(s, NavMenuStateAction::Open), NavMenuStateAction::Close)
            == (NavMenuState { shown: false }),
{
}

/// Toggling twice returns any state to itself.
pub proof fn lemma_toggle_involution(s: NavMenuState)
    ensures
        spec_reduce(spec_reduce(s, NavMenuStateAction::Toggle), NavMenuStateAction::Toggle) == s,
{
}

/// Opening an already computed `Open` result changes nothing.
pub proof fn lemma_open_idempotent(s: NavMenuState)
    ensures
        spec_reduce(spec_reduce(s, NavMenuStateAction::Open), NavMenuStateAction::Open)
            == spec_reduce(s, NavMenuStateAction::Open),
{
}

/// Closing an already computed `Close` result changes nothing.
pub proof fn lemma_close_idempotent(s: NavMenuState)
    ensures
        spec_reduce(spec_reduce(s, NavMenuStateAction::Close), NavMenuStateAction::Close)
            == spec_reduce(s, NavMenuStateAction::Close),
{
}

} // verus!
