//! Binding of GPIO lines to system actions: the configuration, the action
//! classifier, the effects of each action and the round-robin event dispatcher.
pub mod action;
pub mod config;
pub mod dispatch;
pub mod text;

pub use config::{log_level_to_enum, sanitise_gpio_names};
