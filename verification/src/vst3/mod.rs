//! The plain-value logic of the plugin shell: identity, messages and widgets.

pub mod controller;
pub mod gui;
pub mod message;
pub mod plugin_data;
pub mod utils;
