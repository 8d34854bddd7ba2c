//! Background keyboard capture: the decisions behind a system-wide key
//! intercept.
//!
//! The operating system, the window framework and the asynchronous runtime
//! stay with the host program. This library holds what the host must decide
//! between two such calls: which command a key-down stands for, whether the
//! key is swallowed, when a hook may be installed, what goes over the wire,
//! and which document answers a request.

pub mod command;
pub mod translate;
pub mod classifier;
pub mod dialogue;
pub mod lifecycle;
pub mod bridge;
pub mod content;
