//! Build a Rust project in a container for deployment to either
//! Amazon Linux 2 or AWS Lambda.
//!
//! The library decides everything that a build does: the directory
//! layout, the container image and its arguments, the volume mounts,
//! the ownership fix-ups for rootless runtimes, the unique artifact
//! name and the `latest-*` pointer. The caller performs the actions
//! that the library hands out (creating directories, running
//! processes, writing files) and reports back what happened.

pub mod builder;
pub mod cli;
pub mod command;
pub mod container;
pub mod docker;
pub mod error;
pub mod git;
pub mod mode;
pub mod naming;
pub mod package;
pub mod paths;
pub mod permissions;
pub mod session;
pub mod targets;
pub mod text;
