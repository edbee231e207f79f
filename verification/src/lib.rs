//! Option-argument specifications for a command-line argument library: the
//! description of one value-taking option, the usage fragment shown for it in
//! help text, and the shells for which completion scripts can be generated.

pub mod any_arg;
pub mod arg;
pub mod builder;
pub mod settings;
pub mod shell;
pub mod text;
pub mod usage;
pub mod val_names;
