//! An interactive terminal chat client's verified core: the event-driven
//! application engine that owns the screen state, the text composer for the
//! outgoing message, the bounded scrollback buffers behind every log, and
//! the decision logic of the background network bridge.

pub mod app;
pub mod bridge;
pub mod composer;
pub mod config;
pub mod input;
pub mod keys;
pub mod message;
pub mod scrollback;
pub mod tabs;
pub mod tabstrip;
pub mod ticket;
pub mod ui;
