//! The subcommands of the command-line tool.

use vstd::prelude::*;

use crate::mode::BuildMode;

verus! {

/// Build an executable that can run on Amazon Linux 2.
pub struct Al2 {
    /// Path of the project to build.
    pub project: String,
}

/// Build a package for deployment to AWS Lambda.
pub struct Lambda {
    /// Path of the project to build.
    pub project: String,
}

/// What to build, and for which target.
pub enum Command {
    Al2(Al2),
    Lambda(Lambda),
}

impl Command {
    /// The build mode that the subcommand selects.
    pub fn to_mode(&self) -> (r: BuildMode)
        ensures
            self is Al2 ==> r == BuildMode::AmazonLinux2,
            self is Lambda ==> r == BuildMode::Lambda,
    {
        match self {
            Command::Al2(_) => BuildMode::AmazonLinux2,
            Command::Lambda(_) => BuildMode::Lambda,
        }
    }

    /// The path of the project to build.
    pub fn project(&self) -> (r: &String)
        ensures
            self is Al2 ==> *r == self->Al2_0.project,
            self is Lambda ==> *r == self->Lambda_0.project,
    {
        match self {
            Command::Al2(opt) => &opt.project,
            Command::Lambda(opt) => &opt.project,
        }
    }
}

} // verus!
