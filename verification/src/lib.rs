//! Desktop-shell core for a local email assistant: a quiet-hours predicate,
//! a backend proxy that turns logical operations into HTTP requests against a
//! fixed loopback service, a window registry with timed auto-close, and a
//! tray-event dispatcher.

pub mod dispatch;
pub mod json;
pub mod proxy;
pub mod quiet;
pub mod strutil;
pub mod tray;
pub mod utils;
pub mod windows;

