//! Two procedures of a replica that run step by step and can be interrupted: the
//! installation of canister code, which is paused and resumed across rounds, and the
//! recovery of a subnet, which is resumed at the step that was stored last.

pub mod canister;
pub mod context;
pub mod errors;
pub mod finish_laws;
pub mod install_code;
pub mod install_laws;
pub mod install_model;
pub mod recovery;
pub mod recovery_laws;
pub mod settlement;
pub mod severity;
pub mod step_iterator;
pub mod step_laws;
pub mod types;
