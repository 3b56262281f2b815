//! Host paths of a build, as text.
//!
//! Paths handed to this module come canonicalized: absolute, without
//! `.` or `..` components, repeated separators or a trailing separator
//! (except the root `/` itself).

use vstd::prelude::*;

use crate::error::BuildError;
use crate::mode::{mode_name, BuildMode};
use crate::text::same_text;

verus! {

/// `base` joined with the relative path `rest`, as `Path::join` does
/// for a relative `rest`.
pub open spec fn join(base: Seq<char>, rest: Seq<char>) -> Seq<char> {
    if base.len() == 0 {
        rest
    } else if base.last() == '/' {
        base + rest
    } else {
        base + seq!['/'] + rest
    }
}

/// `path` is `root` itself or lies beneath it, component by component.
pub open spec fn is_within(root: Seq<char>, path: Seq<char>) -> bool {
    path == root || (root.len() > 0 && root.last() == '/' && path.len() > root.len()
        && path.subrange(0, root.len() as int) == root) || (path.len() > root.len() + 1
        && path.subrange(0, root.len() as int) == root && path[root.len() as int] == '/')
}

/// The part of `path` below `root` (empty when they are equal).
pub open spec fn relative_to(root: Seq<char>, path: Seq<char>) -> Seq<char> {
    if path == root {
        seq![]
    } else if root.len() > 0 && root.last() == '/' {
        path.subrange(root.len() as int, path.len() as int)
    } else {
        path.subrange(root.len() as int + 1, path.len() as int)
    }
}

/// Join `rest` onto `base`.
pub fn join_path(base: &str, rest: &str) -> (r: String)
    ensures
        r@ == join(base@, rest@),
{
    proof {
        reveal_strlit("/");
    }
    let n = base.unicode_len();
    let mut r = String::from_str(base);
    if n == 0 {
        r = String::from_str(rest);
    } else if base.get_char(n - 1) == '/' {
        r.append(rest);
    } else {
        r.append("/");
        r.append(rest);
    }
    r
}

/// The project's path relative to the code root.
///
/// Fails with a configuration error when the project is neither the
/// code root nor beneath it.
pub fn relative_project_path(code_root: &str, project: &str) -> (r: Result<String, BuildError>)
    ensures
        r is Ok <==> is_within(code_root@, project@),
        r is Ok ==> r->Ok_0@ == relative_to(code_root@, project@),
        r is Err ==> r->Err_0.is_configuration(),
{
    let root_len = code_root.unicode_len();
    let path_len = project.unicode_len();
    if same_text(code_root, project) {
        return Ok(String::new());
    }
    let ends_with_sep = root_len > 0 && code_root.get_char(root_len - 1) == '/';
    if path_len > root_len && same_text(project.substring_char(0, root_len), code_root) {
        if ends_with_sep {
            return Ok(String::from_str(project.substring_char(root_len, path_len)));
        }
        if path_len > root_len + 1 && project.get_char(root_len) == '/' {
            return Ok(String::from_str(project.substring_char(root_len + 1, path_len)));
        }
    }
    Err(BuildError::Configuration(String::from_str("project path must be within the code root")))
}

/// The host directories and files of one build.
pub struct BuildLayout {
    /// Canonical code root, mounted read-only in the container.
    pub code_root: String,
    /// Canonical project path.
    pub project: String,
    /// The project's path relative to the code root.
    pub relative_project: String,
    /// `<project>/target`.
    pub target_dir: String,
    /// `<project>/target/aws-build`, mounted as the container's target
    /// directory.
    pub output_dir: String,
    /// `<output>/<mode>-cargo-registry`.
    pub registry_dir: String,
    /// `<output>/<mode>-cargo-git`.
    pub git_dir: String,
    /// `<output>/<mode>`, where the built binary and the artifact land.
    pub mode_dir: String,
    /// `<project>/target/latest-<mode>`.
    pub symlink: String,
}

pub open spec fn target_dir_of(project: Seq<char>) -> Seq<char> {
    join(project, "target"@)
}

pub open spec fn output_dir_of(project: Seq<char>) -> Seq<char> {
    join(target_dir_of(project), "aws-build"@)
}

pub open spec fn registry_dir_of(project: Seq<char>, mode: BuildMode) -> Seq<char> {
    join(output_dir_of(project), mode_name(mode) + "-cargo-registry"@)
}

pub open spec fn git_dir_of(project: Seq<char>, mode: BuildMode) -> Seq<char> {
    join(output_dir_of(project), mode_name(mode) + "-cargo-git"@)
}

pub open spec fn mode_dir_of(project: Seq<char>, mode: BuildMode) -> Seq<char> {
    join(output_dir_of(project), mode_name(mode))
}

/// Where the `latest-*` pointer of a project and mode lives.
pub open spec fn symlink_of(project: Seq<char>, mode: BuildMode) -> Seq<char> {
    join(target_dir_of(project), "latest-"@ + mode_name(mode))
}

impl BuildLayout {
    /// The layout is the one derived from its code root, project and
    /// `mode`.
    pub open spec fn derived(&self, mode: BuildMode) -> bool {
        &&& is_within(self.code_root@, self.project@)
        &&& self.relative_project@ == relative_to(self.code_root@, self.project@)
        &&& self.target_dir@ == target_dir_of(self.project@)
        &&& self.output_dir@ == output_dir_of(self.project@)
        &&& self.registry_dir@ == registry_dir_of(self.project@, mode)
        &&& self.git_dir@ == git_dir_of(self.project@, mode)
        &&& self.mode_dir@ == mode_dir_of(self.project@, mode)
        &&& self.symlink@ == symlink_of(self.project@, mode)
    }

    /// Derive the layout of a build of `project` beneath `code_root`.
    ///
    /// Fails with a configuration error when the project is neither the
    /// code root nor beneath it.
    pub fn new(code_root: &str, project: &str, mode: BuildMode) -> (r: Result<BuildLayout, BuildError>)
        ensures
            r is Ok <==> is_within(code_root@, project@),
            r is Ok ==> r->Ok_0.derived(mode) && r->Ok_0.code_root@ == code_root@
                && r->Ok_0.project@ == project@,
            r is Err ==> r->Err_0.is_configuration(),
    {
        let relative_project = match relative_project_path(code_root, project) {
            Ok(p) => p,
            Err(e) => {
                return Err(e);
            },
        };
        let target_dir = join_path(project, "target");
        let output_dir = join_path(target_dir.as_str(), "aws-build");
        let mut registry = String::from_str(mode.name());
        registry.append("-cargo-registry");
        let mut git = String::from_str(mode.name());
        git.append("-cargo-git");
        let mut latest = String::from_str("latest-");
        latest.append(mode.name());
        let registry_dir = join_path(output_dir.as_str(), registry.as_str());
        let git_dir = join_path(output_dir.as_str(), git.as_str());
        let mode_dir = join_path(output_dir.as_str(), mode.name());
        let symlink = join_path(target_dir.as_str(), latest.as_str());
        Ok(
            BuildLayout {
                code_root: String::from_str(code_root),
                project: String::from_str(project),
                relative_project,
                target_dir,
                output_dir,
                registry_dir,
                git_dir,
                mode_dir,
                symlink,
            },
        )
    }
}

} // verus!
