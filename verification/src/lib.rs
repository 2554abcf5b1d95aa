//! Module bootstrap for an embedded script runtime.
//!
//! The import machinery of the runtime asks three independent parts:
//!
//! - [`builtin`]: the registry of modules that are compiled into the runtime,
//!   each built by a factory;
//! - [`frozen`]: the store of modules whose code is bundled with the runtime;
//! - [`lock`]: the one reentrant lock that is held around every import.
//!
//! [`hooks`] holds the operations that do nothing yet, [`module`] the `_imp`
//! module through which script code reaches all of them, and [`error`] the two
//! kinds of failure.
//!
//! Nothing here is global: every operation is handed the state it works on.
//! Nothing here waits, runs code or touches the module cache but to read it;
//! those are the caller's part.

pub mod builtin;
pub mod error;
pub mod frozen;
pub mod hooks;
pub mod lock;
pub mod module;
