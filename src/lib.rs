//! Compile options of a pulse-program compiler: clock, event timing, DAC,
//! tool-path and table-size parameters, read from a TOML document and checked
//! against a fixed schema.
pub mod document;
pub mod laws;
pub mod loader;
pub mod schema;

pub use loader::{LoadError, Options, ParseError};
pub use schema::{Clock, Dac, EventTiming, Limits, SystemVars, DEFAULT_MAX_LUT_I16_ENTRIES};
