//! Switches a single-seat login manager between its desktop profile and a
//! game-mode profile when the controller's mode button is released at the
//! greeter, and never leaves it stuck there.
//!
//! - `controller`: the mode-switch state machine, with debounce and the
//!   fail-closed gate checks.
//! - `store`: the active-configuration pointer and its backup, the switch and
//!   revert plans, and a step runner that stops at the first failure.
//! - `singleton`: the lock-file takeover that keeps one daemon instance.
//! - `session`: who is logged in where, read from the session manager's
//!   listing, and which terminal is in the foreground.
//! - `paths`, `config`, `installer`: where files live and what an
//!   installation recorded.
//! - `text`: trimming, decimal numbers.

pub mod config;
pub mod controller;
pub mod installer;
pub mod paths;
pub mod session;
pub mod singleton;
pub mod store;
pub mod text;
