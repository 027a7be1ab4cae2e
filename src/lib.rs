//! Focus-driven HID report dispatch.
//!
//! The library watches which window holds input focus, matches it against
//! user rules and frames fixed-length reports for HID devices. Everything
//! here is plain logic over owned values; the operating-system hook, the HID
//! transport and the async wake-up live with the caller.
pub mod config;
pub mod dispatch;
pub mod registry;
pub mod watcher;
pub mod window;
