//! Dispatching menu actions through a provider scope, and the wiring error
//! raised when none is present.

use vstd::prelude::*;
use crate::toggle::NavMenuState;
use crate::toggle::NavMenuStateAction;
use crate::toggle::spec_reduce;

verus! {

/// Error signalled when a menu action is dispatched from a point of use with
/// no enclosing provider scope. This is a programmer's wiring mistake, not a
/// runtime condition to handle gracefully: callers are expected to fail fast.
#[derive(Clone, Copy, Debug, PartialEq, Eq, Structural)]
pub enum WiringError {
    MissingProvider,
}

/// Dispatches `action` against the nearest provider's state, when one is
/// present, and returns the next state; with no provider in scope it signals
/// the wiring error instead of silently doing nothing.
pub fn dispatch_in_scope(ctx: Option<NavMenuState>, action: NavMenuStateAction) -> (r: Result<
    NavMenuState,
    WiringError,
>)
    ensures
        ctx is None ==> r == Err::<NavMenuState, WiringError>(WiringError::MissingProvider),
        ctx matches Some(s) ==> r == Ok::<NavMenuState, WiringError>(spec_reduce(s, action)),
{
    match ctx {
        Option::Some(s) => Result::Ok(s.reduce(action)),
        Option::None => Result::Err(WiringError::MissingProvider),
    }
}

/// Activating the menu-toggle button: dispatches `Toggle` against the nearest
/// provider's state, and signals the wiring error when no provider is present.
pub fn menu_button_activate(ctx: Option<NavMenuState>) -> (r: Result<NavMenuState, WiringError>)
    ensures
        ctx is None ==> r == Err::<NavMenuState, WiringError>(WiringError::MissingProvider),
        ctx matches Some(s) ==> r == Ok::<NavMenuState, WiringError>(
            spec_reduce(s, NavMenuStateAction::Toggle),
        ),
{
    dispatch_in_scope(ctx, NavMenuStateAction::Toggle)
}

} // verus!
