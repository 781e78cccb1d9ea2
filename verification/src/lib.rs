//! A minimal reactive terminal-interface runtime in Model-Update-View style.
//!
//! Application state lives in a model; state transitions are pure functions of
//! incoming messages; rendering is a projection of state to text. The runtime
//! harness — the message and command vocabulary, the dispatcher, the event
//! loop, and the terminal-lifecycle bookkeeping — is verified here. The
//! process-level side effects (reading the keyboard, switching terminal modes,
//! writing the screen) are performed by a thin driver around this crate.

pub mod event;
pub mod example;
pub mod harness;
pub mod model;
pub mod present;
pub mod program;
pub mod simple;
pub mod terminal;
pub mod text;

pub use event::Cmd;
pub use event::KeyCode;
pub use event::KeyEvent;
pub use event::KeyEventKind;
pub use event::Msg;
pub use model::LumaModel;
pub use present::LumaColor;
pub use program::Program;
