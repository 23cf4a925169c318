//! Verified core of a text-driven command console for runtime configuration.
//!
//! The console resolves a command line against the nodes of a configuration
//! tree (properties, actions and lists), classifies it, and turns every
//! outcome into colored text for a scrollback buffer.

pub mod console;
pub mod laws;
pub mod node;
pub mod result;
pub mod text;
pub mod visit;
pub mod window;

pub use crate::console::ColoredConsole;
pub use crate::node::{usage_parts, NodeEntry, NodeKind};
pub use crate::result::{CmdType, Color, ConsoleError, ConsoleResult, TextSpan};
pub use crate::text::{same_text, split_chars, trim_end};
pub use crate::visit::{
    call_result, reset_all_result, reset_result, set_result, Done, PathFilter, Step, VisitMutExt,
};
pub use crate::window::{create_console, parse_command, ConsoleWindow};
