//! Port resolution and configuration hand-off for a desktop map shell.
//!
//! The shell hosts a web page that talks to a companion WebSocket service.
//! This library decides which port that service is reached on, renders the
//! small script through which the page learns the port, and composes the
//! record that the shell's command surface returns.

pub mod clock;
pub mod decimal;
pub mod map_config;
pub mod path;
pub mod port;
pub mod ws_config;
