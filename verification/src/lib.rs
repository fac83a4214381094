//! Local tool bridge: finds the script that implements a tool, plans the
//! process that runs it, and turns what the process left behind into a
//! result. It also looks after what the tools need: whether the interpreter,
//! the libraries and the media engine are there, and how to install them.
//!
//! The library holds the decisions and never touches the machine. Every
//! operation is begun by a function of the library and then goes step by
//! step: the host program performs the step that the operation owes
//! ([`host::Step`]) and reports what came of it ([`host::Reply`]), until the
//! operation ends with its result.
//!
//! - [`invocation`]: one run of a tool, from the search for its script to
//!   its answer; [`resolution`] states what the search comes to on a disk.
//! - [`locations`] and [`scripts`]: where scripts are looked for, how they
//!   are named, and the scripts that the bridge carries with it.
//! - [`executor`] and [`json`]: the process that runs a script, what its end
//!   means, and the values on the wire.
//! - [`dependencies`] and [`install`]: readiness checks and installations.
//! - [`catalog`]: the tools that are installed beside the host.

pub mod catalog;
pub mod dependencies;
pub mod executor;
pub mod host;
pub mod install;
pub mod invocation;
pub mod json;
pub mod locations;
pub mod resolution;
pub mod scripts;
pub mod text;
