//! Core logic of a Windows DLL injector and of the payload library it loads.
//!
//! The injector side chooses a target process by name, stages the payload's
//! path in a buffer inside the target, resolves the in-target addresses of the
//! OS loader routines by offset arithmetic, and drives the load / verify /
//! unload cycle as a state machine whose outside effects (process handles,
//! remote memory, remote threads) are performed by a thin unverified shell.
//! The payload side parses the hosting executable's PE image in memory and
//! walks its import tables to find the address of the IAT slot for a chosen
//! `(module, function)` pair.
//!
//! All names, paths and images are byte strings, as the OS reports them.

pub mod errors;
pub mod addr;
pub mod bytes;
pub mod procs;
pub mod paths;
pub mod pe;
pub mod session;
