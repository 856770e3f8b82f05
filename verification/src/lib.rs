//! A bridge between a host program and a script library running in an
//! embedded QuickJS interpreter.
//!
//! The script library exposes two global functions, `tex2typst` and
//! `typst2tex`, each taking an input string and an optional options object.
//! This crate owns the interpreter, turns the caller's option flags into an
//! interpreter object, calls the script function once or once per item of a
//! batch, and turns every failure into a [`error::BridgeError`].
//!
//! What the script functions compute is not this crate's business: no
//! contract here speaks of the converted text itself, only of how it is
//! obtained and of what is done with what the interpreter hands back.

mod engine;
pub mod error;
pub mod facade;
pub mod fault;
pub mod laws;
pub mod mapping;
pub mod options;
pub mod outcome;
pub mod registry;
pub mod session;
pub mod translate;

pub use error::{BridgeError, ErrorKind, HostException, Step};
pub use fault::{format_js_exception, CaughtFault};
pub use mapping::StringMap;
pub use options::{MacroTable, OptionValue, OptionsMapping};
pub use registry::{get_thread_converter, SessionSlot};
pub use session::ConverterInstance;
