//! Native bridge core for a web-embedded application shell.
//!
//! The bridge exposes two operations to the front end: a platform
//! inspector that reports identity facts about the running host, and an
//! external-link dispatcher that surfaces the host opener's outcome as a
//! plain success-or-message result. A startup registrar decides which
//! capability plugins are attached at launch and whether startup may
//! complete. All decisions are made here over plain values; the
//! surrounding shell performs the host calls and the plugin wiring.

pub mod dispatch;
pub mod platform;
pub mod startup;
