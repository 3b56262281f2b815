//! Ownership reconciliation for rootless runtimes.
//!
//! Before a rootless container runs, the output directory is given to
//! the invoking user's identity inside the runtime's user namespace, so
//! that the container can write to it. Afterwards it must be given back
//! exactly once, whatever happened in between. [`PermissionGuard`]
//! holds that obligation.

use vstd::prelude::*;

use crate::command::CommandLine;
use crate::container::{chown_argv, chown_command};

verus! {

/// The pending hand-back of a directory tree to the invoking user.
///
/// Inside podman's user namespace the invoking user is `0:0`, so the
/// hand-back re-owns the tree to that identity.
pub struct PermissionGuard {
    dir: String,
    uid: u32,
    gid: u32,
    done: bool,
}

impl PermissionGuard {
    /// Whether the hand-back command has been issued.
    pub closed spec fn released(&self) -> bool {
        self.done
    }

    /// The directory tree to re-own.
    pub closed spec fn dir(&self) -> Seq<char> {
        self.dir@
    }

    /// User inside the namespace to re-own to.
    pub closed spec fn uid(&self) -> u32 {
        self.uid
    }

    /// Group inside the namespace to re-own to.
    pub closed spec fn gid(&self) -> u32 {
        self.gid
    }

    /// A guard for `dir`, to be handed back to the namespace's root,
    /// which is the invoking host user.
    pub fn new(dir: &str) -> (r: PermissionGuard)
        ensures
            r.dir() == dir@,
            r.uid() == 0,
            r.gid() == 0,
            !r.released(),
    {
        PermissionGuard { dir: String::from_str(dir), uid: 0, gid: 0, done: false }
    }

    /// Whether the hand-back has been issued.
    pub fn is_released(&self) -> (r: bool)
        ensures
            r == self.released(),
    {
        self.done
    }

    /// The hand-back command, the first time only. Later calls return
    /// `None`: releasing twice does nothing.
    pub fn release(&mut self) -> (r: Option<CommandLine>)
        ensures
            final(self).dir() == old(self).dir(),
            final(self).uid() == old(self).uid(),
            final(self).gid() == old(self).gid(),
            final(self).released(),
            old(self).released() ==> r is None,
            !old(self).released() ==> r is Some && r->Some_0.argv() == chown_argv(
                old(self).uid(),
                old(self).gid(),
                old(self).dir(),
            ),
    {
        if self.done {
            None
        } else {
            self.done = true;
            Some(chown_command(self.uid, self.gid, self.dir.as_str()))
        }
    }
}

} // verus!
