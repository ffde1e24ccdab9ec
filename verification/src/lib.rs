//! Cross-platform autostart registration.
//!
//! The library decides how "launch this application at login" is durably
//! enabled, disabled and queried.  A registration record — the current
//! executable invoked with a launch-marker flag — is kept at a fixed,
//! platform-specific location: a per-user registry value on registry-style
//! systems, a `.desktop` file under the user's configuration directory on
//! XDG-style systems.  Platforms with neither mechanism report a fixed
//! disabled state.
//!
//! All decisions are made here over plain values and verified; the
//! surrounding binary performs the actual environment, file and registry
//! accesses and hands their outcomes back.

pub mod error;
pub mod laws;
pub mod location;
pub mod manager;
pub mod record;
