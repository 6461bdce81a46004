//! Mouse settings of a terminal emulator, read from a raw configuration tree.
//!
//! Every field is validated on its own: a malformed value is replaced by the
//! field's default and recorded as a [`report::Warning`], so one bad field
//! never costs the rest of the configuration. The single value without a safe
//! default, the pattern for links, fails the whole load instead.

pub mod text;
pub mod raw;
pub mod report;
pub mod command;
pub mod pattern;
pub mod modifiers;
pub mod error;
pub mod click;
pub mod url;
pub mod mouse;
pub mod laws;
