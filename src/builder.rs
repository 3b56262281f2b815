//! The build request and the values derived from it: image tag, image
//! build arguments, container environment and mounts.

use vstd::prelude::*;

use crate::command::{joined, text_pairs, texts};
use crate::container::{mount_arg, option_suffix, volume_flags, ContainerLauncher, Mount};
use crate::mode::{base_image, mode_name, mount_options, relabel_options, BuildMode, Relabel};
use crate::paths::{join, join_path, BuildLayout};

verus! {

/// Default rust version to install.
pub const DEFAULT_RUST_VERSION: &'static str = "stable";

/// Default container command used to run the build.
pub const DEFAULT_CONTAINER_CMD: &'static str = "docker";

/// Options for running the build.
#[derive(Clone, Debug, PartialEq, Eq)]
pub struct Builder {
    /// Rust version to install. Can be anything rustup understands as
    /// a valid version, e.g. "stable" or "1.45.2".
    pub rust_version: String,
    /// Whether to build for Amazon Linux 2 or AWS Lambda.
    pub mode: BuildMode,
    /// Name of the binary target to build. Can be None if the project
    /// only has one binary target.
    pub bin: Option<String>,
    /// Strip the binary.
    pub strip: bool,
    /// Container launcher.
    pub launcher: ContainerLauncher,
    /// The root of the code that gets mounted in the container. All the
    /// source must live beneath this directory.
    pub code_root: String,
    /// The project path is the path of the crate to build. It must be
    /// somewhere within the `code_root` directory (or the same path).
    pub project_path: String,
    /// Dev packages to install in the container for the build.
    pub packages: Vec<String>,
    /// Relabel files before bind-mounting (`z` or `Z` volume option).
    /// Warning: this overwrites the current label on files on the host.
    pub relabel: Option<Relabel>,
}

impl Default for Builder {
    fn default() -> (r: Builder)
        ensures
            r.rust_version@ == "stable"@,
            r.mode == BuildMode::AmazonLinux2,
            r.bin is None,
            !r.strip,
            r.launcher.program@ == "docker"@,
            r.launcher.args@.len() == 0,
            r.code_root@.len() == 0,
            r.project_path@.len() == 0,
            r.packages@.len() == 0,
            r.relabel is None,
    {
        Builder {
            rust_version: String::from_str(DEFAULT_RUST_VERSION),
            mode: BuildMode::AmazonLinux2,
            bin: None,
            strip: false,
            launcher: ContainerLauncher::new(DEFAULT_CONTAINER_CMD),
            code_root: String::new(),
            project_path: String::new(),
            packages: Vec::new(),
            relabel: None,
        }
    }
}

/// `aws-build-<mode>-<rust version>`.
pub open spec fn image_tag_of(mode: BuildMode, rust_version: Seq<char>) -> Seq<char> {
    "aws-build-"@ + mode_name(mode) + "-"@ + rust_version
}

/// The image build arguments: base image, toolchain version, the extra
/// packages separated by spaces, and the project's path relative to the
/// code root.
pub open spec fn image_build_args_of(
    mode: BuildMode,
    rust_version: Seq<char>,
    packages: Seq<Seq<char>>,
    relative_project: Seq<char>,
) -> Seq<(Seq<char>, Seq<char>)> {
    seq![
        ("FROM_IMAGE"@, base_image(mode)),
        ("RUST_VERSION"@, rust_version),
        ("DEV_PKGS"@, joined(packages, " "@)),
        ("PROJECT_PATH"@, relative_project),
    ]
}

/// The container's environment: where cargo puts its output, and which
/// binary target to build.
pub open spec fn container_env_of(mode: BuildMode, bin: Seq<char>) -> Seq<(Seq<char>, Seq<char>)> {
    seq![("TARGET_DIR"@, "/code/target/"@ + mode_name(mode)), ("BIN_TARGET"@, bin)]
}

/// The mount argument for `src` at `dst`.
pub open spec fn mount_arg_of(
    src: Seq<char>,
    dst: Seq<char>,
    read_write: bool,
    relabel: Option<Relabel>,
) -> Seq<char> {
    src + ":"@ + dst + (if read_write {
        ":rw"@
    } else {
        ":ro"@
    }) + option_suffix(relabel_options(relabel))
}

/// The four mounts of a build: the code root read-only, the registry
/// and git caches read-write, and the output directory read-write as
/// the container's target directory.
pub open spec fn container_volume_flags(layout: BuildLayout, relabel: Option<Relabel>) -> Seq<
    Seq<char>,
> {
    seq![
        "--volume"@,
        mount_arg_of(layout.code_root@, "/code"@, false, relabel),
        "--volume"@,
        mount_arg_of(layout.registry_dir@, "/cargo/registry"@, true, relabel),
        "--volume"@,
        mount_arg_of(layout.git_dir@, "/cargo/git"@, true, relabel),
        "--volume"@,
        mount_arg_of(layout.output_dir@, "/code/target"@, true, relabel),
    ]
}

/// Where the container's build leaves the executable.
pub open spec fn built_binary_of(layout: BuildLayout, bin: Seq<char>) -> Seq<char> {
    join(join(layout.mode_dir@, "release"@), bin)
}

/// The image tag for a mode and toolchain version.
pub fn image_tag(mode: BuildMode, rust_version: &str) -> (r: String)
    ensures
        r@ == image_tag_of(mode, rust_version@),
{
    let mut r = String::from_str("aws-build-");
    r.append(mode.name());
    r.append("-");
    r.append(rust_version);
    r
}

fn pair(key: &str, value: String) -> (r: (String, String))
    ensures
        r.0@ == key@,
        r.1@ == value@,
{
    (String::from_str(key), value)
}

/// The image build arguments of a build.
pub fn image_build_args(builder: &Builder, layout: &BuildLayout) -> (r: Vec<(String, String)>)
    ensures
        text_pairs(r@) == image_build_args_of(
            builder.mode,
            builder.rust_version@,
            texts(builder.packages@),
            layout.relative_project@,
        ),
{
    let mut r: Vec<(String, String)> = Vec::new();
    r.push(pair("FROM_IMAGE", String::from_str(builder.mode.base_image())));
    r.push(pair("RUST_VERSION", builder.rust_version.clone()));
    r.push(pair("DEV_PKGS", crate::command::join_strings(&builder.packages, " ")));
    r.push(pair("PROJECT_PATH", layout.relative_project.clone()));
    assert(text_pairs(r@) =~= image_build_args_of(
        builder.mode,
        builder.rust_version@,
        texts(builder.packages@),
        layout.relative_project@,
    ));
    r
}

/// The container's environment for a build of `bin`.
pub fn container_env(mode: BuildMode, bin: &str) -> (r: Vec<(String, String)>)
    ensures
        text_pairs(r@) == container_env_of(mode, bin@),
{
    let mut r: Vec<(String, String)> = Vec::new();
    let mut target = String::from_str("/code/target/");
    target.append(mode.name());
    r.push(pair("TARGET_DIR", target));
    r.push(pair("BIN_TARGET", String::from_str(bin)));
    assert(text_pairs(r@) =~= container_env_of(mode, bin@));
    r
}

fn mount(src: &str, dst: &str, read_write: bool, relabel: Option<Relabel>) -> (r: Mount)
    ensures
        mount_arg(r) == mount_arg_of(src@, dst@, read_write, relabel),
{
    let options = mount_options(relabel);
    let r = Mount { src: String::from_str(src), dst: String::from_str(dst), read_write, options };
    assert(texts(r.options@) =~= relabel_options(relabel));
    r
}

/// The four mounts of a build.
pub fn container_mounts(layout: &BuildLayout, relabel: Option<Relabel>) -> (r: Vec<Mount>)
    ensures
        volume_flags(r@) == container_volume_flags(*layout, relabel),
{
    let mut r: Vec<Mount> = Vec::new();
    r.push(mount(layout.code_root.as_str(), "/code", false, relabel));
    r.push(mount(layout.registry_dir.as_str(), "/cargo/registry", true, relabel));
    r.push(mount(layout.git_dir.as_str(), "/cargo/git", true, relabel));
    r.push(mount(layout.output_dir.as_str(), "/code/target", true, relabel));
    proof {
        let m = r@;
        let s1 = seq![m[0]];
        let s2 = seq![m[0], m[1]];
        let s3 = seq![m[0], m[1], m[2]];
        assert(s1.drop_last() =~= Seq::<Mount>::empty());
        assert(s2.drop_last() =~= s1);
        assert(s3.drop_last() =~= s2);
        assert(m.drop_last() =~= s3);
        assert(volume_flags(Seq::<Mount>::empty()) =~= Seq::<Seq<char>>::empty());
        assert(volume_flags(s1) =~= seq!["--volume"@, mount_arg(m[0])]);
        assert(volume_flags(s2) =~= volume_flags(s1) + seq!["--volume"@, mount_arg(m[1])]);
        assert(volume_flags(s3) =~= volume_flags(s2) + seq!["--volume"@, mount_arg(m[2])]);
        assert(volume_flags(m) =~= volume_flags(s3) + seq!["--volume"@, mount_arg(m[3])]);
        assert(volume_flags(m) =~= container_volume_flags(*layout, relabel));
    }
    r
}

/// Where the container's build leaves the executable `bin`.
pub fn built_binary(layout: &BuildLayout, bin: &str) -> (r: String)
    ensures
        r@ == built_binary_of(*layout, bin@),
{
    let release = join_path(layout.mode_dir.as_str(), "release");
    join_path(release.as_str(), bin)
}

} // verus!
