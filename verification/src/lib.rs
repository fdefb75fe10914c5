//! Hotkey-triggered capture: the decisions behind registering global
//! shortcuts, dispatching their handlers and validating captured text.
//!
//! The library performs no input or output. A driver around it talks to the
//! operating system and the main window; the library tells it what to do
//! next and what to make of the answers.
//!
//! - [`hotkeys`]: the three slots and their configured shortcut texts.
//! - [`registry`]: the table of active bindings.
//! - [`registration`]: the registration cycle as a state machine.
//! - [`cycle`]: what whole cycles do, proved of the machine.
//! - [`dispatch`]: what a key transition leads to, handler by handler.
//! - [`capture`]: what counts as captured text.
//! - [`keystroke`]: the command that injects the copy keystroke.
//! - [`token_limits`]: response-token budgets.

pub mod capture;
pub mod cycle;
pub mod dispatch;
pub mod hotkeys;
pub mod keystroke;
pub mod registration;
pub mod registry;
pub mod token_limits;
