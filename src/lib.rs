//! The native shell of a desktop application: the startup pass that finds the main
//! window, configures it and binds a global shortcut, and the bridge that turns each
//! press of that shortcut into a notification for the frontend.
pub mod bridge;
pub mod config;
pub mod setup;

pub use bridge::{KeyState, Notification, ShortcutBridge};
pub use config::{Platform, EVENT_NAME, MAIN_WINDOW_LABEL, SHORTCUT};
pub use setup::{Action, AttrOutcome, Phase, SetupError, SetupPass, SetupReport};
