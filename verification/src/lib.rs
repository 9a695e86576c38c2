//! Start-up logic of a desktop application shell.
//!
//! The shell is assembled in three moves: a default configuration is made,
//! the capabilities it needs are attached to it, and control is handed to the
//! windowing framework, whose run call keeps the process until it ends. This
//! crate holds the decisions of that sequence as a small state machine, free
//! of any framework type: a driver performs each action the machine asks for
//! and reports back what happened.
pub mod bootstrap;
pub mod laws;
pub mod plugin;
