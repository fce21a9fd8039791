//! The greeting command of the PocketSql desktop shell.
//!
//! The shell exposes one command to its user interface: `greet`, which turns
//! a name into a line of greeting. This crate holds that command as a plain
//! function on strings, together with the mathematical statement of what it
//! returns and the facts about it that callers may rely on. The window, the
//! plugins and the event loop live in the application around it.

pub mod greeting;

pub use greeting::greet;
