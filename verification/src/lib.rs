//! Resolution of the effective network-transport configuration from layered
//! sources: a partially-specified overlay config with two merge precedence
//! rules, a command-line constructor, and materialization into fully
//! specified runtime options.

pub mod args;
pub mod net;
pub mod num;
pub mod opts;
