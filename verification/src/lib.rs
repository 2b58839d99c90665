//! Decision logic of a click-to-focus daemon for macOS: which window a mouse-down
//! may activate, how the event tap reacts to each event, how the accessibility
//! tree is walked to the window under the cursor, and the bounded bundle-id cache.
//! The calls into the macOS frameworks themselves live outside this library; every
//! decision they feed is a verified function here.

pub mod focus;
pub mod event_tap;
pub mod ax;
pub mod bundle;
pub mod cli;
pub mod permissions;
