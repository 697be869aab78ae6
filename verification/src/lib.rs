//! Verified core of a plugin-side binding for OpenTTD's social integration
//! interface.
//!
//! A host application loads the plugin as a shared library and drives it
//! through two exported entry points: a metadata query and an initialization
//! call that hands back a table of optional callbacks.  This crate holds the
//! checked logic behind that surface: collecting and validating the plugin's
//! identifying metadata, decoding host-supplied text, deciding the outcome of
//! an initialization call, arming exactly the advertised callback slots, and
//! routing each host invocation to the callback registered for it.  The thin
//! foreign-function boundary (raw pointers, exported symbols) stays outside
//! and hands this crate plain values.

pub mod api;
pub mod dispatch;
pub mod metadata;
pub mod plugin;
pub mod text;
