//! The core of the zula shell: the state a shell and its plugins share, the
//! registry of loaded plugins, and the decisions behind `cd` and running a
//! command. The crate performs no input or output itself: its caller asks the
//! operating system and reports back what it answered.

pub mod error;
pub mod header;
pub mod plug;
pub mod registry;
pub mod shell;
pub mod state;

pub use error::{Cause, PluginError, ZulaError};
pub use header::{builtin_header, seal, Header, Render, RESET};
pub use plug::{Plugin, PluginHook};
pub use registry::Registry;
pub use shell::Shell;
pub use state::{Config, DirChange, Run, ShellState, Step};
