//! Detection of how a command-line tool was launched (on its own, or as a
//! plugin subcommand dispatched by a host tool), and the argument schema that
//! follows from it.

pub mod mode;
pub mod schema;
pub mod parsed;
