//! A configuration-driven terminal menu launcher: an operator navigates a
//! tree of pages built from a declarative source, selects entries via
//! single-keystroke shortcuts, and each entry executes a system command under
//! one of several execution strategies.
//!
//! This crate holds the verified core: the configuration model, the cascading
//! settings resolution, the validator, the action resolver, the execution
//! state machine and the pure parts of the process runner and the renderer.
//! Terminal I/O, keyboard decoding, YAML parsing and process spawning live in
//! the unverified host around this library.

pub mod action_file;
pub mod engine;
pub mod entry;
pub mod group;
pub mod page;
pub mod rendering;
pub mod runner;
pub mod settings;
pub mod validator;
mod text;

pub use action_file::ActionFile;
pub use engine::{Directive, EngineState, Event, Key, NavTarget, RunOutcome, RuntimeError};
pub use entry::{Action, Command, Entry, Return, RunMode};
pub use group::Group;
pub use page::Page;
pub use rendering::{render_entry, render_entry_color, required_lines, required_lines_option};
pub use runner::Invocation;
pub use settings::{Color, Layout, Settings, SettingsAccumulator};
pub use validator::{validate, ValidationError};
