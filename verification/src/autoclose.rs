//! Auto-close on navigation: a change detector over a dependency value and
//! the step that closes the menu whenever that value changes between renders.

use vstd::prelude::*;
use crate::provider::WiringError;
use crate::route::Route;
use crate::toggle::NavMenuState;
use crate::toggle::NavMenuStateAction;
use crate::toggle::spec_reduce;

verus! {

/// Explicit change detection over a dependency value (the current route):
/// remembers the value last seen, so that each observation can tell whether
/// the dependency changed since the previous render.
#[derive(Clone, Copy, Debug, PartialEq, Eq)]
pub struct ChangeDetector {
    pub last_seen: Option<Route>,
}

impl ChangeDetector {
    /// Observing `dep` counts as a change when nothing has been seen yet
    /// (effect-on-mount semantics) or when the value differs from the last
    /// one seen.
    pub open spec fn spec_changed(self, dep: Route) -> bool {
        self.last_seen != Some(dep)
    }

    /// A detector that has not observed any value yet, as when a component
    /// first mounts.
    pub fn new() -> (r: ChangeDetector)
        ensures
            r.last_seen is None,
    {
        ChangeDetector { last_seen: None }
    }

    /// Records `dep` as the value now seen and reports whether it counts as
    /// a change: true on the first observation and whenever the value
    /// differs from the previous one, false when it is unchanged.
    pub fn observe(&mut self, dep: Route) -> (changed: bool)
        ensures
            changed == old(self).spec_changed(dep),
            final(self).last_seen == Some(dep),
    {
        let changed = match self.last_seen {
            Option::Some(p) => p.key != dep.key,
            Option::None => true,
        };
        self.last_seen = Some(dep);
        changed
    }
}

/// One render-time step of the auto-close behaviour: with a provider in
/// scope, records the dependency value and closes the menu exactly when the
/// detector reports a change, returning the provider's next state; with no
/// provider it signals the wiring error and leaves the detector untouched.
pub fn close_menu_on_change(
    detector: &mut ChangeDetector,
    ctx: Option<NavMenuState>,
    dep: Route,
) -> (r: Result<NavMenuState, WiringError>)
    ensures
        ctx is None ==> r == Err::<NavMenuState, WiringError>(WiringError::MissingProvider)
            && *final(detector) == *old(detector),
        ctx matches Some(s) ==> {
            &&& final(detector).last_seen == Some(dep)
            &&& r == Ok::<NavMenuState, WiringError>(
                if old(detector).spec_changed(dep) {
                    spec_reduce(s, NavMenuStateAction::Close)
                } else {
                    s
                },
            )
        },
{
    match ctx {
        Option::None => Result::Err(WiringError::MissingProvider),
        Option::Some(s) => {
            let changed = detector.observe(dep);
            if changed {
                Result::Ok(s.reduce(NavMenuStateAction::Close))
            } else {
                Result::Ok(s)
            }
        },
    }
}

} // verus!
