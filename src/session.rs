//! One build, as a sequence of decisions.
//!
//! A [`BuildSession`] decides what the build does next; the caller
//! performs each [`Action`] (creating a directory, running a process,
//! reading or writing a file) and reports the outcome as an [`Event`].
//! The order is: target and output directories, binary targets, build
//! context, image build, cache directories, ownership hand-over
//! (rootless runtimes only), container run, ownership hand-back,
//! optional strip, read of the executable, packaging, `latest-*`
//! pointer.

use vstd::prelude::*;

use crate::builder::{
    built_binary, built_binary_of, container_env, container_env_of, container_mounts,
    container_volume_flags, image_build_args, image_build_args_of, image_tag, image_tag_of,
    Builder,
};
use crate::command::{joined, texts, CommandLine};
use crate::container::{
    build_args_of, build_command, chown_argv, chown_command, env_flags, run_command,
    strip_command, user_arg,
};
use crate::error::BuildError;
use crate::mode::{produces_zip, BuildMode};
use crate::naming::{make_unique_name, today_utc, unique_name, CalendarDate};
use crate::package::{bootstrap_zip, bootstrap_zip_of, ZIP_SIZE_LIMIT};
use crate::paths::{is_within, join, join_path, mode_dir_of, symlink_of, BuildLayout};
use crate::permissions::PermissionGuard;
use crate::targets::{bin_names, binary_names, select_bin, TargetInfo};

verus! {

/// Output of a successful build.
#[derive(Clone, Debug, PartialEq, Eq)]
pub struct BuilderOutput {
    /// Path of the generated file.
    pub real: String,
    /// Path of the `latest-*` symlink.
    pub symlink: String,
}

/// What the caller is to do next.
#[derive(Debug)]
pub enum Action {
    /// Create the directory; an existing directory is fine. Report
    /// `Done` if the path is a directory afterwards.
    EnsureDir(String),
    /// List the targets of the packages of the project at this path.
    /// Report `Targets`.
    ListTargets(String),
    /// Write the image definition and build script into a fresh
    /// temporary directory. Report `ContextReady` with its path.
    PrepareContext,
    /// Run the process and wait for it. Report `Exited`.
    Run(CommandLine),
    /// Read the whole file. Report `Contents`.
    ReadFile(String),
    /// Copy the file, keeping its permissions. Report `Done`.
    CopyFile { from: String, to: String },
    /// Create or overwrite the file with these bytes. Report `Done`.
    WriteFile { path: String, contents: Vec<u8> },
    /// Remove `link` if it exists (ignoring any failure to do so), then
    /// create it as a symbolic link to `target`. Report `Done`.
    Link { target: String, link: String },
    /// The build succeeded.
    Finished(BuilderOutput),
    /// The build failed.
    Failed(BuildError),
}

/// The outcome of an [`Action`].
#[derive(Debug)]
pub enum Event {
    /// The action succeeded.
    Done,
    /// The action failed, for the given reason.
    Failed(String),
    /// The targets of the project's packages.
    Targets(Vec<TargetInfo>),
    /// The build context was written to this directory.
    ContextReady(String),
    /// The process exited, successfully or not, with this combined
    /// output.
    Exited { success: bool, output: String },
    /// The contents of the file.
    Contents(Vec<u8>),
}

/// Where a session stands: the action of the stage has been handed out
/// and its outcome is awaited.
#[derive(Clone, Copy, Debug, PartialEq, Eq, Structural)]
pub enum Stage {
    /// Creating `<project>/target`.
    TargetDir,
    /// Creating the output directory `target/aws-build`.
    OutputDir,
    /// Listing the project's targets.
    Targets,
    /// Writing the build context.
    Context,
    /// Building the image.
    Image,
    /// Creating the registry cache directory.
    RegistryDir,
    /// Creating the git cache directory.
    GitDir,
    /// Handing the output directory to the container's user.
    Acquire,
    /// Running the build container.
    Container,
    /// Handing the output directory back to the invoking user.
    Release,
    /// Stripping the executable.
    Strip,
    /// Reading the executable.
    Read,
    /// Writing the artifact.
    Package,
    /// Pointing `latest-<mode>` at the artifact.
    Link,
    /// Done, successfully or not.
    Finished,
}

/// The order of the stages.
pub open spec fn rank(s: Stage) -> int {
    match s {
        Stage::TargetDir => 0,
        Stage::OutputDir => 1,
        Stage::Targets => 2,
        Stage::Context => 3,
        Stage::Image => 4,
        Stage::RegistryDir => 5,
        Stage::GitDir => 6,
        Stage::Acquire => 7,
        Stage::Container => 8,
        Stage::Release => 9,
        Stage::Strip => 10,
        Stage::Read => 11,
        Stage::Package => 12,
        Stage::Link => 13,
        Stage::Finished => 14,
    }
}

/// The file name of the artifact: the unique name, with `.zip` for a
/// Lambda bundle.
pub open spec fn artifact_name_of(
    mode: BuildMode,
    bin: Seq<char>,
    contents: Seq<u8>,
    when: CalendarDate,
) -> Seq<char> {
    if produces_zip(mode) {
        unique_name(mode, bin, contents, when) + ".zip"@
    } else {
        unique_name(mode, bin, contents, when)
    }
}

/// The arguments of the container run of a build of `bin`.
pub open spec fn container_argv_of(
    builder: Builder,
    layout: BuildLayout,
    bin: Seq<char>,
    uid: u32,
    gid: u32,
) -> Seq<Seq<char>> {
    builder.launcher.argv() + seq!["run"@] + env_flags(container_env_of(builder.mode, bin)) + seq![
        "--init"@,
        "--rm"@,
        "--user"@,
        user_arg(uid, gid),
    ] + container_volume_flags(layout, builder.relabel) + seq![
        image_tag_of(builder.mode, builder.rust_version@),
    ]
}

/// The state of one build.
pub struct BuildSession {
    /// The request.
    pub builder: Builder,
    /// The host paths of the build.
    pub layout: BuildLayout,
    /// The invoking user.
    pub uid: u32,
    /// The invoking user's group.
    pub gid: u32,
    /// The stage whose outcome is awaited.
    pub stage: Stage,
    /// The image's tag.
    pub image_tag: String,
    /// The build context directory, once written.
    pub context: String,
    /// The binary target, once chosen.
    pub bin: String,
    /// Where the container leaves the executable, once the target is
    /// chosen.
    pub bin_path: String,
    /// Whether the launcher is a rootless runtime, whose output needs
    /// its ownership handed over and back.
    pub rootless: bool,
    /// Whether the output directory was handed to the container's user.
    pub acquired: bool,
    /// The hand-back of the output directory.
    pub guard: PermissionGuard,
    /// The error that ended the container run, reported once the
    /// hand-back is done.
    pub pending: Option<BuildError>,
    /// A hand-back failure that did not replace the primary error.
    pub secondary: Option<String>,
    /// The last process handed out, for messages.
    pub last_command: String,
    /// The artifact's path, once named.
    pub artifact: String,
    /// The build day, once the executable is read.
    pub date: CalendarDate,
    /// The executable's bytes, once read.
    pub contents: Ghost<Seq<u8>>,
    /// Whether an image build or container run has been handed out.
    pub container_started: bool,
}

impl BuildSession {
    /// Ownership changes handed out: one once the output directory was
    /// handed to the container's user.
    pub open spec fn acquires(&self) -> nat {
        if self.acquired {
            1
        } else {
            0
        }
    }

    /// Hand-backs handed out.
    pub open spec fn releases(&self) -> nat {
        if self.guard.released() {
            1
        } else {
            0
        }
    }

    /// The output directory is held by the container's user and not yet
    /// handed back.
    pub open spec fn holds_permissions(&self) -> bool {
        self.acquired && !self.guard.released()
    }

    /// The session's data agree with its request and stage: the layout
    /// and tag derive from the request, nothing runs in a container
    /// before the build context exists, the hand-back guard covers the
    /// output directory, and it is pending only during the container
    /// run; once chosen, named or read, the binary target, its path and
    /// the artifact's path are the derived ones.
    pub open spec fn wf(&self) -> bool {
        &&& self.layout.derived(self.builder.mode)
        &&& self.image_tag@ == image_tag_of(self.builder.mode, self.builder.rust_version@)
        &&& (rank(self.stage) <= rank(Stage::Context) ==> !self.container_started)
        &&& self.guard.dir() == self.layout.output_dir@
        &&& self.guard.uid() == 0
        &&& self.guard.gid() == 0
        &&& (self.guard.released() ==> self.acquired)
        &&& (rank(self.stage) <= rank(Stage::Acquire) ==> !self.acquired)
        &&& (self.acquired ==> self.rootless)
        &&& (self.stage == Stage::Acquire ==> self.rootless)
        &&& (self.runs_process() ==> self.last_command@ == joined(self.stage_argv(), " "@))
        &&& (rank(self.stage) <= rank(Stage::Container) ==> !self.guard.released())
        &&& (self.holds_permissions() ==> self.stage == Stage::Container)
        &&& (self.stage == Stage::Release ==> self.acquired && self.guard.released())
        &&& (self.pending is Some ==> self.stage == Stage::Release)
        &&& (rank(Stage::Targets) < rank(self.stage) < rank(Stage::Finished) ==> self.bin_path@
            == built_binary_of(self.layout, self.bin@))
        &&& (rank(Stage::Package) <= rank(self.stage) <= rank(Stage::Link) ==> self.artifact@
            == join(
            self.layout.mode_dir@,
            artifact_name_of(self.builder.mode, self.bin@, self.contents@, self.date),
        ))
    }

    /// The stage after the hand-back.
    pub open spec fn after_release(&self) -> Stage {
        if self.builder.strip {
            Stage::Strip
        } else {
            Stage::Read
        }
    }

    /// The stage that follows the current one when its action succeeds.
    pub open spec fn next_stage(&self) -> Stage {
        match self.stage {
            Stage::TargetDir => Stage::OutputDir,
            Stage::OutputDir => Stage::Targets,
            Stage::Targets => Stage::Context,
            Stage::Context => Stage::Image,
            Stage::Image => Stage::RegistryDir,
            Stage::RegistryDir => Stage::GitDir,
            Stage::GitDir => if self.rootless {
                Stage::Acquire
            } else {
                Stage::Container
            },
            Stage::Acquire => Stage::Container,
            Stage::Container => if self.acquired {
                Stage::Release
            } else {
                self.after_release()
            },
            Stage::Release => self.after_release(),
            Stage::Strip => Stage::Read,
            Stage::Read => Stage::Package,
            Stage::Package => Stage::Link,
            Stage::Link => Stage::Finished,
            Stage::Finished => Stage::Finished,
        }
    }

    /// Whether `ev` reports success of the current stage's action.
    pub open spec fn succeeds_with(&self, ev: Event) -> bool {
        match self.stage {
            Stage::TargetDir | Stage::OutputDir | Stage::RegistryDir | Stage::GitDir
            | Stage::Package | Stage::Link => ev is Done,
            Stage::Targets => ev is Targets && (self.builder.bin is Some || bin_names(
                ev->Targets_0@,
            ).len() == 1),
            Stage::Context => ev is ContextReady,
            Stage::Image | Stage::Acquire | Stage::Container | Stage::Strip => ev matches Event::Exited {
                success: true,
                ..
            },
            Stage::Release => self.pending is None && ev matches Event::Exited {
                success: true,
                ..
            },
            Stage::Read => ev is Contents,
            Stage::Finished => false,
        }
    }

    /// Whether the current stage's action runs a process.
    pub open spec fn runs_process(&self) -> bool {
        match self.stage {
            Stage::Image | Stage::Acquire | Stage::Container | Stage::Release | Stage::Strip => true,
            _ => false,
        }
    }

    /// The program and arguments of the process of the current stage,
    /// when it runs one.
    pub open spec fn stage_argv(&self) -> Seq<Seq<char>> {
        match self.stage {
            Stage::Image => self.builder.launcher.argv() + build_args_of(
                image_build_args_of(
                    self.builder.mode,
                    self.builder.rust_version@,
                    texts(self.builder.packages@),
                    self.layout.relative_project@,
                ),
                self.context@,
                image_tag_of(self.builder.mode, self.builder.rust_version@),
            ),
            Stage::Acquire => chown_argv(self.uid, self.gid, self.layout.output_dir@),
            Stage::Container => container_argv_of(
                self.builder,
                self.layout,
                self.bin@,
                self.uid,
                self.gid,
            ),
            Stage::Release => chown_argv(0, 0, self.layout.output_dir@),
            _ => seq!["strip"@, self.bin_path@],
        }
    }

    /// The error that a failure of the current stage's action, reported
    /// as `ev`, gives: for a directory, file or link, a message naming
    /// the path; for a process, its command line and reported output;
    /// for the targets, the selection error or the listing's output.
    pub open spec fn failure_error(&self, ev: Event, e: BuildError) -> bool {
        match self.stage {
            Stage::TargetDir => is_filesystem_error(
                e,
                "failed to create directory "@ + self.layout.target_dir@,
            ),
            Stage::OutputDir => is_filesystem_error(
                e,
                "failed to create directory "@ + self.layout.output_dir@,
            ),
            Stage::RegistryDir => is_filesystem_error(
                e,
                "failed to create directory "@ + self.layout.registry_dir@,
            ),
            Stage::GitDir => is_filesystem_error(
                e,
                "failed to create directory "@ + self.layout.git_dir@,
            ),
            Stage::Targets => if ev is Targets {
                e is Configuration && e->Configuration_0@
                    == "must specify bin target when package has more than one"@
            } else {
                is_process_error(e, "cargo metadata"@, report_of(ev))
            },
            Stage::Context => is_filesystem_error(e, report_of(ev)),
            Stage::Image | Stage::Acquire | Stage::Container | Stage::Strip
            | Stage::Release => is_process_error(e, joined(self.stage_argv(), " "@), report_of(ev)),
            Stage::Read => is_filesystem_error(e, "failed to read "@ + self.bin_path@),
            Stage::Package => is_filesystem_error(e, "failed to write "@ + self.artifact@),
            Stage::Link => is_filesystem_error(e, "failed to create symlink "@ + self.layout.symlink@),
            Stage::Finished => false,
        }
    }

    /// `a` is the action of the current stage.
    pub open spec fn expected_action(&self, a: Action) -> bool {
        match self.stage {
            Stage::TargetDir => a is EnsureDir && a->EnsureDir_0@ == self.layout.target_dir@,
            Stage::OutputDir => a is EnsureDir && a->EnsureDir_0@ == self.layout.output_dir@,
            Stage::Targets => a is ListTargets && a->ListTargets_0@ == self.layout.project@,
            Stage::Context => a is PrepareContext,
            Stage::RegistryDir => a is EnsureDir && a->EnsureDir_0@ == self.layout.registry_dir@,
            Stage::GitDir => a is EnsureDir && a->EnsureDir_0@ == self.layout.git_dir@,
            Stage::Image | Stage::Acquire | Stage::Container | Stage::Release
            | Stage::Strip => a is Run && a->Run_0.argv() == self.stage_argv(),
            Stage::Read => a is ReadFile && a->ReadFile_0@ == self.bin_path@,
            Stage::Package => if produces_zip(self.builder.mode) {
                a matches Action::WriteFile { path, contents } && path@ == self.artifact@
                    && contents@ == bootstrap_zip_of(self.contents@)
            } else {
                a matches Action::CopyFile { from, to } && from@ == self.bin_path@ && to@
                    == self.artifact@
            },
            Stage::Link => a matches Action::Link { target, link } && target@ == self.artifact@
                && link@ == self.layout.symlink@,
            Stage::Finished => a is Finished || a is Failed,
        }
    }
}

/// `e` is a filesystem error with message `msg`.
pub open spec fn is_filesystem_error(e: BuildError, msg: Seq<char>) -> bool {
    e is Filesystem && e->Filesystem_0@ == msg
}

/// `e` is the failure of the process `command` with output `output`.
pub open spec fn is_process_error(e: BuildError, command: Seq<char>, output: Seq<char>) -> bool {
    e matches BuildError::ExternalProcess { command: c, output: o } && c@ == command && o@ == output
}

/// The text of a failed outcome: its message or its output.
pub open spec fn report_of(ev: Event) -> Seq<char> {
    match ev {
        Event::Failed(msg) => msg@,
        Event::Exited { output, .. } => output@,
        _ => "unexpected outcome"@,
    }
}

/// What a step promises, from the session before it (`old`), the
/// event it was given and the session after it (`new`) with the action
/// it returned (`r`):
/// - the new session is well formed and `r` is the action of its stage;
/// - a success moves to the next stage (after reading the executable,
///   a Lambda bundle that cannot be zipped ends the build instead);
/// - a failure while the output directory is held by the container's
///   user moves to the hand-back, keeping the error for later; any
///   other failure ends the build with an error of the stage's kind, or
///   with the error kept for after the hand-back;
/// - one ownership change is counted when the hand-over succeeds, and
///   one hand-back exactly when the hand-back stage is entered;
/// - the binary target, once chosen, is the explicit one or the only
///   binary target of the project;
/// - a successful build reports the artifact and the `latest-*` link
///   that the previous action created.
pub open spec fn step_post(old: BuildSession, new: BuildSession, ev: Event, r: Action) -> bool {
    &&& new.wf()
    &&& new.expected_action(r)
    &&& new.builder == old.builder
    &&& new.layout == old.layout
    &&& new.uid == old.uid
    &&& new.gid == old.gid
    &&& new.rootless == old.rootless
    &&& (old.succeeds_with(ev) && old.stage != Stage::Read ==> new.stage == old.next_stage())
    &&& (old.succeeds_with(ev) && old.stage == Stage::Read ==> new.stage == Stage::Package || (
    produces_zip(old.builder.mode) && ev->Contents_0@.len() >= ZIP_SIZE_LIMIT && new.stage
        == Stage::Finished && r is Failed && is_filesystem_error(
        r->Failed_0,
        "failed to write the zip archive"@,
    )))
    &&& (!old.succeeds_with(ev) && old.holds_permissions() ==> new.stage == Stage::Release
        && new.pending is Some && old.failure_error(ev, new.pending->Some_0))
    &&& (!old.succeeds_with(ev) && !old.holds_permissions() ==> new.stage == Stage::Finished
        && r is Failed && (old.pending is Some ==> r->Failed_0 == old.pending->Some_0) && (
    old.pending is None ==> old.failure_error(ev, r->Failed_0)))
    &&& new.acquires() == old.acquires() + (if old.stage == Stage::Acquire && new.stage
        == Stage::Container {
        1nat
    } else {
        0nat
    })
    &&& new.releases() == old.releases() + (if new.stage == Stage::Release {
        1nat
    } else {
        0nat
    })
    &&& new.container_started == (old.container_started || new.stage == Stage::Image)
    &&& (old.stage != Stage::Targets ==> new.bin == old.bin)
    &&& (old.stage == Stage::Targets && old.succeeds_with(ev) ==> new.bin@ == (if old.builder.bin is Some {
        old.builder.bin->Some_0@
    } else {
        bin_names(ev->Targets_0@)[0]
    }))
    &&& (old.stage == Stage::Context && ev is ContextReady ==> new.context@ == ev->ContextReady_0@)
    &&& (old.stage == Stage::Read && ev is Contents ==> new.contents@ == ev->Contents_0@
        && new.date.wf())
    &&& (old.stage != Stage::Read ==> new.artifact == old.artifact && new.contents == old.contents
        && new.date == old.date)
    &&& (old.stage == Stage::Link && old.succeeds_with(ev) ==> r is Finished)
    &&& (r is Finished ==> old.stage == Stage::Link && r->Finished_0.real@ == old.artifact@
        && r->Finished_0.symlink@ == old.layout.symlink@)
    &&& (old.stage == Stage::Release && old.pending is Some && !(ev matches Event::Exited {
        success: true,
        ..
    }) ==> new.secondary is Some)
}

/// What a failure promises: see [`step_post`].
pub open spec fn fail_post(old: BuildSession, new: BuildSession, e: BuildError, r: Action) -> bool {
    &&& new.wf()
    &&& new.expected_action(r)
    &&& new.builder == old.builder
    &&& new.layout == old.layout
    &&& new.uid == old.uid
    &&& new.gid == old.gid
    &&& new.rootless == old.rootless
    &&& new.bin == old.bin
    &&& new.artifact == old.artifact
    &&& new.contents == old.contents
    &&& new.date == old.date
    &&& new.container_started == old.container_started
    &&& new.acquired == old.acquired
    &&& new.secondary == old.secondary
    &&& (old.holds_permissions() ==> new.stage == Stage::Release && new.pending == Some(e)
        && new.releases() == old.releases() + 1)
    &&& (!old.holds_permissions() ==> new.stage == Stage::Finished && r == Action::Failed(e)
        && new.releases() == old.releases())
}

/// The text of a failed outcome.
fn report_text(ev: Event) -> (r: String)
    ensures
        r@ == report_of(ev),
{
    match ev {
        Event::Failed(msg) => msg,
        Event::Exited { output, .. } => output,
        _ => String::from_str("unexpected outcome"),
    }
}

/// `prefix` followed by `path`.
fn message(prefix: &str, path: &String) -> (r: String)
    ensures
        r@ == prefix@ + path@,
{
    let mut m = String::from_str(prefix);
    m.append(path.as_str());
    m
}

impl BuildSession {
    /// Start a build of `builder`, given its code root and project path
    /// in canonical form and the invoking user.
    ///
    /// Fails with a configuration error, before any action, when the
    /// project is neither the code root nor beneath it. Otherwise the
    /// first action creates the project's target directory.
    pub fn new(builder: Builder, code_root: &str, project: &str, uid: u32, gid: u32) -> (r: Result<
        (BuildSession, Action),
        BuildError,
    >)
        ensures
            r is Err <==> !is_within(code_root@, project@),
            r is Err ==> r->Err_0.is_configuration(),
            r is Ok ==> ({
                let (s, a) = r->Ok_0;
                &&& s.wf()
                &&& s.stage == Stage::TargetDir
                &&& s.expected_action(a)
                &&& s.builder == builder
                &&& s.layout.code_root@ == code_root@
                &&& s.layout.project@ == project@
                &&& s.uid == uid
                &&& s.gid == gid
                &&& builder.launcher.names_podman() ==> s.rootless
                &&& s.rootless ==> builder.launcher.may_be_podman()
                &&& !s.container_started
                &&& s.acquires() == 0
                &&& s.releases() == 0
            }),
    {
        let layout = match BuildLayout::new(code_root, project, builder.mode) {
            Ok(l) => l,
            Err(e) => {
                return Err(e);
            },
        };
        let tag = image_tag(builder.mode, builder.rust_version.as_str());
        let rootless = builder.launcher.is_podman();
        let guard = PermissionGuard::new(layout.output_dir.as_str());
        let first = Action::EnsureDir(layout.target_dir.clone());
        let s = BuildSession {
            builder,
            layout,
            uid,
            gid,
            stage: Stage::TargetDir,
            image_tag: tag,
            context: String::new(),
            bin: String::new(),
            bin_path: String::new(),
            rootless,
            acquired: false,
            guard,
            pending: None,
            secondary: None,
            last_command: String::new(),
            artifact: String::new(),
            date: CalendarDate { year: 1970, month: 1, day: 1 },
            contents: Ghost(Seq::empty()),
            container_started: false,
        };
        Ok((s, first))
    }

    /// End the build with `e`. While the output directory is held by
    /// the container's user, the hand-back comes first and `e` is
    /// reported after it.
    fn fail(&mut self, e: BuildError) -> (r: Action)
        requires
            old(self).wf(),
            old(self).stage != Stage::Finished,
        ensures
            fail_post(*old(self), *final(self), e, r),
    {
        if self.acquired && !self.guard.is_released() {
            match self.guard.release() {
                Some(cmd) => {
                    self.pending = Some(e);
                    self.stage = Stage::Release;
                    self.last_command = cmd.display();
                    Action::Run(cmd)
                },
                None => {
                    self.pending = None;
                    self.stage = Stage::Finished;
                    Action::Failed(e)
                },
            }
        } else {
            self.pending = None;
            self.stage = Stage::Finished;
            Action::Failed(e)
        }
    }

    /// The error of a failed process: the command line and its output.
    fn process_error(&self, ev: Event) -> (r: BuildError)
        requires
            self.wf(),
            self.runs_process(),
        ensures
            is_process_error(r, joined(self.stage_argv(), " "@), report_of(ev)),
    {
        BuildError::ExternalProcess { command: self.last_command.clone(), output: report_text(ev) }
    }

    /// Hand out `cmd` as the action of `stage`.
    fn run_at(&mut self, stage: Stage, cmd: CommandLine) -> (r: Action)
        ensures
            final(self).stage == stage,
            r == Action::Run(cmd),
            final(self).last_command@ == joined(cmd.argv(), " "@),
            final(self).builder == old(self).builder,
            final(self).layout == old(self).layout,
            final(self).uid == old(self).uid,
            final(self).gid == old(self).gid,
            final(self).rootless == old(self).rootless,
            final(self).image_tag == old(self).image_tag,
            final(self).context == old(self).context,
            final(self).bin == old(self).bin,
            final(self).bin_path == old(self).bin_path,
            final(self).acquired == old(self).acquired,
            final(self).guard == old(self).guard,
            final(self).pending == old(self).pending,
            final(self).artifact == old(self).artifact,
            final(self).date == old(self).date,
            final(self).contents == old(self).contents,
            final(self).container_started == old(self).container_started,
    {
        self.last_command = cmd.display();
        self.stage = stage;
        Action::Run(cmd)
    }

    /// The container run of the chosen binary target.
    fn container_command(&self) -> (r: CommandLine)
        requires
            self.image_tag@ == image_tag_of(self.builder.mode, self.builder.rust_version@),
        ensures
            r.argv() == container_argv_of(self.builder, self.layout, self.bin@, self.uid, self.gid),
    {
        let env = container_env(self.builder.mode, self.bin.as_str());
        let mounts = container_mounts(&self.layout, self.builder.relabel);
        let r = run_command(
            &self.builder.launcher,
            env,
            self.uid,
            self.gid,
            mounts,
            self.image_tag.as_str(),
        );
        assert(r.argv() =~= container_argv_of(
            self.builder,
            self.layout,
            self.bin@,
            self.uid,
            self.gid,
        ));
        r
    }

    /// Move on from the container run (and the hand-back, if any): strip
    /// the executable, or read it.
    fn after_container(&mut self) -> (r: Action)
        requires
            old(self).wf(),
            !old(self).holds_permissions(),
            old(self).pending is None,
            rank(Stage::Targets) < rank(old(self).stage) < rank(Stage::Strip),
        ensures
            final(self).stage == old(self).after_release(),
            final(self).expected_action(r),
            final(self).wf(),
            final(self).builder == old(self).builder,
            final(self).layout == old(self).layout,
            final(self).uid == old(self).uid,
            final(self).gid == old(self).gid,
            final(self).rootless == old(self).rootless,
            final(self).bin == old(self).bin,
            final(self).acquired == old(self).acquired,
            final(self).guard == old(self).guard,
            final(self).artifact == old(self).artifact,
            final(self).date == old(self).date,
            final(self).contents == old(self).contents,
            final(self).container_started == old(self).container_started,
    {
        if self.builder.strip {
            let cmd = strip_command(self.bin_path.as_str());
            self.run_at(Stage::Strip, cmd)
        } else {
            self.stage = Stage::Read;
            Action::ReadFile(self.bin_path.clone())
        }
    }

    /// Take the outcome of the current stage's action and decide the
    /// next action; see [`step_post`] for what is promised.
    #[verifier::rlimit(50)]
    pub fn step(&mut self, ev: Event) -> (r: Action)
        requires
            old(self).wf(),
            old(self).stage != Stage::Finished,
        ensures
            step_post(*old(self), *final(self), ev, r),
    {
        match self.stage {
            Stage::TargetDir => match ev {
                Event::Done => {
                    self.stage = Stage::OutputDir;
                    Action::EnsureDir(self.layout.output_dir.clone())
                },
                _ => {
                    let e = message("failed to create directory ", &self.layout.target_dir);
                    self.fail(BuildError::Filesystem(e))
                },
            },
            Stage::OutputDir => match ev {
                Event::Done => {
                    self.stage = Stage::Targets;
                    Action::ListTargets(self.layout.project.clone())
                },
                _ => {
                    let e = message("failed to create directory ", &self.layout.output_dir);
                    self.fail(BuildError::Filesystem(e))
                },
            },
            Stage::Targets => match ev {
                Event::Targets(targets) => {
                    let names = binary_names(&targets);
                    match select_bin(&self.builder.bin, &names) {
                        Ok(bin) => {
                            self.bin_path = built_binary(&self.layout, bin.as_str());
                            self.bin = bin;
                            self.stage = Stage::Context;
                            Action::PrepareContext
                        },
                        Err(e) => self.fail(e),
                    }
                },
                other => {
                    let e = BuildError::ExternalProcess {
                        command: String::from_str("cargo metadata"),
                        output: report_text(other),
                    };
                    self.fail(e)
                },
            },
            Stage::Context => match ev {
                Event::ContextReady(dir) => {
                    let args = image_build_args(&self.builder, &self.layout);
                    let cmd = build_command(
                        &self.builder.launcher,
                        args,
                        dir.as_str(),
                        self.image_tag.as_str(),
                    );
                    self.context = dir;
                    self.container_started = true;
                    self.run_at(Stage::Image, cmd)
                },
                other => {
                    let e = report_text(other);
                    self.fail(BuildError::Filesystem(e))
                },
            },
            Stage::Image => match ev {
                Event::Exited { success: true, .. } => {
                    self.stage = Stage::RegistryDir;
                    Action::EnsureDir(self.layout.registry_dir.clone())
                },
                other => {
                    let e = self.process_error(other);
                    self.fail(e)
                },
            },
            Stage::RegistryDir => match ev {
                Event::Done => {
                    self.stage = Stage::GitDir;
                    Action::EnsureDir(self.layout.git_dir.clone())
                },
                _ => {
                    let e = message("failed to create directory ", &self.layout.registry_dir);
                    self.fail(BuildError::Filesystem(e))
                },
            },
            Stage::GitDir => match ev {
                Event::Done => {
                    if self.rootless {
                        let cmd = chown_command(self.uid, self.gid, self.layout.output_dir.as_str());
                        self.run_at(Stage::Acquire, cmd)
                    } else {
                        let cmd = self.container_command();
                        self.run_at(Stage::Container, cmd)
                    }
                },
                _ => {
                    let e = message("failed to create directory ", &self.layout.git_dir);
                    self.fail(BuildError::Filesystem(e))
                },
            },
            Stage::Acquire => match ev {
                Event::Exited { success: true, .. } => {
                    self.acquired = true;
                    let cmd = self.container_command();
                    self.run_at(Stage::Container, cmd)
                },
                other => {
                    let e = self.process_error(other);
                    self.fail(e)
                },
            },
            Stage::Container => match ev {
                Event::Exited { success: true, .. } => {
                    if self.acquired {
                        match self.guard.release() {
                            Some(cmd) => self.run_at(Stage::Release, cmd),
                            None => self.after_container(),
                        }
                    } else {
                        self.after_container()
                    }
                },
                other => {
                    let e = self.process_error(other);
                    self.fail(e)
                },
            },
            Stage::Release => {
                let pending = self.pending.take();
                match pending {
                    Some(primary) => {
                        match ev {
                            Event::Exited { success: true, .. } => {},
                            other => {
                                self.secondary = Some(report_text(other));
                            },
                        }
                        self.fail(primary)
                    },
                    None => match ev {
                        Event::Exited { success: true, .. } => self.after_container(),
                        other => {
                            let e = self.process_error(other);
                            self.fail(e)
                        },
                    },
                }
            },
            Stage::Strip => match ev {
                Event::Exited { success: true, .. } => {
                    self.stage = Stage::Read;
                    Action::ReadFile(self.bin_path.clone())
                },
                other => {
                    let e = self.process_error(other);
                    self.fail(e)
                },
            },
            Stage::Read => match ev {
                Event::Contents(bytes) => {
                    let date = today_utc();
                    let name = make_unique_name(
                        self.builder.mode,
                        self.bin.as_str(),
                        bytes.as_slice(),
                        date,
                    );
                    let zip = match self.builder.mode {
                        BuildMode::Lambda => true,
                        BuildMode::AmazonLinux2 => false,
                    };
                    let mut file = name;
                    if zip {
                        file.append(".zip");
                    }
                    self.artifact = join_path(self.layout.mode_dir.as_str(), file.as_str());
                    self.date = date;
                    self.contents = Ghost(bytes@);
                    if zip {
                        match bootstrap_zip(bytes.as_slice()) {
                            Ok(archive) => {
                                self.stage = Stage::Package;
                                Action::WriteFile { path: self.artifact.clone(), contents: archive }
                            },
                            Err(e) => self.fail(e),
                        }
                    } else {
                        self.stage = Stage::Package;
                        Action::CopyFile { from: self.bin_path.clone(), to: self.artifact.clone() }
                    }
                },
                _ => {
                    let e = message("failed to read ", &self.bin_path);
                    self.fail(BuildError::Filesystem(e))
                },
            },
            Stage::Package => match ev {
                Event::Done => {
                    self.stage = Stage::Link;
                    Action::Link { target: self.artifact.clone(), link: self.layout.symlink.clone() }
                },
                _ => {
                    let e = message("failed to write ", &self.artifact);
                    self.fail(BuildError::Filesystem(e))
                },
            },
            Stage::Link => match ev {
                Event::Done => {
                    self.stage = Stage::Finished;
                    Action::Finished(
                        BuilderOutput {
                            real: self.artifact.clone(),
                            symlink: self.layout.symlink.clone(),
                        },
                    )
                },
                _ => {
                    let e = message("failed to create symlink ", &self.layout.symlink);
                    self.fail(BuildError::Filesystem(e))
                },
            },
            Stage::Finished => Action::Failed(
                BuildError::Configuration(String::from_str("the build has finished")),
            ),
        }
    }

    /// Give up on the build, for instance while unwinding: hands out the
    /// pending hand-back of the output directory if there is one, and
    /// finishes the session. Calling it again hands out nothing.
    pub fn abandon(&mut self) -> (r: Option<CommandLine>)
        requires
            old(self).wf(),
        ensures
            final(self).wf(),
            final(self).stage == Stage::Finished,
            final(self).acquires() == old(self).acquires(),
            final(self).releases() == final(self).acquires(),
            old(self).holds_permissions() ==> r is Some && r->Some_0.argv() == chown_argv(
                0,
                0,
                old(self).layout.output_dir@,
            ) && final(self).releases() == old(self).releases() + 1,
            !old(self).holds_permissions() ==> r is None && final(self).releases()
                == old(self).releases(),
    {
        let r = if self.acquired && !self.guard.is_released() {
            self.guard.release()
        } else {
            None
        };
        self.pending = None;
        self.stage = Stage::Finished;
        r
    }
}

/// The `latest-*` pointer of a build names exactly the artifact that
/// the build produced: the link is `<project>/target/latest-<mode>`, its
/// target is the artifact path derived from the mode, the binary name,
/// the executable's contents and the build day, and a successful end
/// reports those same two paths.
pub proof fn lemma_latest_points_to_artifact(
    s: BuildSession,
    link: Action,
    done: BuildSession,
    r: Action,
)
    requires
        s.wf(),
        s.stage == Stage::Link,
        s.expected_action(link),
        step_post(s, done, Event::Done, r),
    ensures
        link matches Action::Link { target, link } && link@ == symlink_of(
            s.layout.project@,
            s.builder.mode,
        ) && target@ == join(
            mode_dir_of(s.layout.project@, s.builder.mode),
            artifact_name_of(s.builder.mode, s.bin@, s.contents@, s.date),
        ),
        r is Finished,
        r->Finished_0.real@ == link->Link_target@,
        r->Finished_0.symlink@ == link->Link_link@,
{
}

/// Building the same executable again on the same day, for the same
/// project, mode and binary target, gives the same artifact path: a
/// rebuild replaces the artifact rather than adding a new one, and the
/// `latest-*` pointer (see [`lemma_latest_points_to_artifact`]) then
/// names that path again.
pub proof fn lemma_rebuild_same_artifact(s1: BuildSession, s2: BuildSession)
    requires
        s1.wf(),
        s2.wf(),
        rank(Stage::Package) <= rank(s1.stage) <= rank(Stage::Link),
        rank(Stage::Package) <= rank(s2.stage) <= rank(Stage::Link),
        s1.layout.project@ == s2.layout.project@,
        s1.builder.mode == s2.builder.mode,
        s1.bin@ == s2.bin@,
        s1.contents@ == s2.contents@,
        s1.date == s2.date,
    ensures
        s1.artifact@ == s2.artifact@,
{
}

/// A project with no binary target or several, and no explicit choice,
/// ends the build with a configuration error, before any image build or
/// container run.
pub proof fn lemma_ambiguous_target_rejected(
    s: BuildSession,
    targets: Vec<TargetInfo>,
    next: BuildSession,
    r: Action,
)
    requires
        s.wf(),
        s.stage == Stage::Targets,
        s.builder.bin is None,
        bin_names(targets@).len() != 1,
        step_post(s, next, Event::Targets(targets), r),
    ensures
        r is Failed,
        r->Failed_0.is_configuration(),
        next.stage == Stage::Finished,
        !next.container_started,
{
}

/// Whatever path a build takes to its end (success, a failure before,
/// during or after the container run, or abandonment), the output
/// directory has been handed back exactly as many times as it was
/// handed over: once for a rootless runtime, never otherwise.
pub proof fn lemma_finished_build_released(s: BuildSession)
    requires
        s.wf(),
        s.stage == Stage::Finished,
    ensures
        s.releases() == s.acquires(),
        s.releases() <= 1,
{
}

} // verus!
