//! Controller for a single overlay window owned by a host GUI runtime.
//!
//! The host registers one window under a fixed label and owns its lifetime;
//! this crate holds the decision logic of the three commands that drive it:
//! show, hide and toggle. [`overlay`] models the window as the controller
//! sees it (absent, or present with a visibility flag) and gives each
//! command its semantics over that model; [`plan`] says which host window
//! operations each command asks for, so the code that talks to the host
//! carries no rules of its own.

pub mod overlay;
pub mod plan;
