//! The action-dispatch core of a social-feed client.
//!
//! One user intent comes in; the dispatcher touches the subsystem that the
//! intent concerns and says what the navigation layer has to do next. Every
//! subsystem is a plain in-memory value with a mathematical view, so the
//! contracts state exactly what one call changes.

pub mod accounts;
pub mod actionbar;
pub mod assoc;
pub mod ids;
pub mod laws;
pub mod lookup;
pub mod relay;
pub mod route;
pub mod timeline;
pub mod unknown;
pub mod zaps;
