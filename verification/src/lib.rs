//! Receiver logic for a transparent Spout window.

pub mod bytes;
pub mod config;
pub mod dx;
pub mod interaction;
pub mod session;
pub mod spout;
pub mod spout_util;
pub mod text;
pub mod time;
pub mod tray;
pub mod window_style;
