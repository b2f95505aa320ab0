//! Control of the extra features of the OBSBOT Meet 4K camera.
//!
//! The camera takes its settings as short byte commands written to UVC
//! extension unit 6, selector 6. This crate builds those commands, parses the
//! command line vocabulary that names them, and drives the UVC exchange that
//! sends them, as a state machine whose device side is performed by the caller.

pub mod error;
pub mod protocol;
pub mod camera;
pub mod command;
pub mod laws;
pub mod session;
pub mod vocabulary;
