//! The lifecycle of lightweight Linux machines inside a Windows-hosted
//! Linux subsystem, and of the one store container that holds the package
//! cache and the build tooling for all of them.
//!
//! The library decides and the host acts. Every operation that alternates
//! outside work with decisions is a function from its state and the answer
//! to its last request to its next state and its next request; everything
//! else is a function from plain values to plain values. The contracts say
//! exactly which request follows, and the laws beside them say what that
//! means for a whole run.

pub mod backend;
pub mod command;
pub mod config;
pub mod flake;
pub mod install;
pub mod lifecycle;
pub mod machine;
pub mod pipeline;
pub mod protocol;
pub mod scripts;
pub mod secrets;
pub mod status;
pub mod store;
pub mod text;
