//! A bridge between an embedded script and a tree of widgets: the registry of
//! widgets with its focus cursor, the catalog of native functions offered to the
//! script, the runner of shell commands and the host of the script's virtual
//! machine.

pub mod errors;
pub mod builder;
pub mod config;
pub mod script;
pub mod text;
pub mod utils;
