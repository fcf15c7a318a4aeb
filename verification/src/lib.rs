//! Core logic of a set of route-aware navigation components: the open/closed
//! state of a collapsible menu and its reducer, the active-route predicate,
//! the style-class union applied to links, the auto-close-on-navigation step,
//! and the wiring errors raised when no provider scope is present.
//!
//! Rendering, context propagation and routing are left to a host UI framework;
//! this crate holds the decisions those components make, stated and proved.

pub mod autoclose;
pub mod classes;
pub mod provider;
pub mod route;
pub mod toggle;

pub use autoclose::ChangeDetector;
pub use provider::WiringError;
pub use route::Route;
pub use toggle::NavMenuState;
pub use toggle::NavMenuStateAction;
