//! An execution engine for a tape-based, bracket-structured esoteric language.
//!
//! `semantics` states, as spec functions, what each instruction does to the
//! abstract machine; `environment` is the executable engine proved against it;
//! `laws` holds properties of whole runs.
use vstd::prelude::*;

pub mod semantics;
pub mod environment;
pub mod laws;

pub use environment::Environment;
pub use semantics::Fault;
