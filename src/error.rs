use vstd::prelude::*;

verus! {

/// Why a build stopped.
#[derive(Clone, Debug, PartialEq, Eq)]
pub enum BuildError {
    /// The request itself is unusable: the project lies outside the
    /// code root, the binary target is ambiguous, a mode name is
    /// unknown. Detected before any external process runs.
    Configuration(String),
    /// An external process (image build, container run, ownership
    /// change, strip) did not exit successfully.
    ExternalProcess { command: String, output: String },
    /// A directory, file or symlink could not be created, read or
    /// written.
    Filesystem(String),
}

impl BuildError {
    pub open spec fn is_configuration(&self) -> bool {
        self is Configuration
    }

    pub open spec fn is_external_process(&self) -> bool {
        self is ExternalProcess
    }

    pub open spec fn is_filesystem(&self) -> bool {
        self is Filesystem
    }
}

} // verus!
