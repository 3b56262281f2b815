//! The container runtime's commands: image build, container run, and
//! the rootless ownership change.

use vstd::prelude::*;

use docker_command::command_run::Command;
use docker_command::{BuildOpt, Launcher, RunOpt, UserAndGroup, Volume};

use crate::command::{text_pairs, texts, CommandLine};
use crate::error::BuildError;
use crate::text::{decimal, push_decimal};

verus! {

/// The base command of a container runtime, such as `docker`,
/// `sudo docker` or `podman`: a program and the arguments that come
/// before the subcommand.
#[derive(Clone, Debug, PartialEq, Eq)]
pub struct ContainerLauncher {
    pub program: String,
    pub args: Vec<String>,
}

impl ContainerLauncher {
    /// The program followed by its base arguments.
    pub open spec fn argv(&self) -> Seq<Seq<char>> {
        seq![self.program@] + texts(self.args@)
    }

    /// The program is `podman` or one of the base arguments is.
    pub open spec fn names_podman(&self) -> bool {
        self.program@ == "podman"@ || texts(self.args@).contains("podman"@)
    }

    /// One of the base arguments is `podman`, or the program starts with
    /// `podman` (as every path equal to the path `podman` does).
    pub open spec fn may_be_podman(&self) -> bool {
        texts(self.args@).contains("podman"@) || (self.program@.len() >= 6
            && self.program@.subrange(0, 6) == "podman"@)
    }

    /// A launcher running `program` with no base arguments.
    pub fn new(program: &str) -> (r: ContainerLauncher)
        ensures
            r.program@ == program@,
            r.args@.len() == 0,
    {
        ContainerLauncher { program: String::from_str(program), args: Vec::new() }
    }

    /// Parse a launcher from a whitespace-separated command such as
    /// `sudo docker`: the first word is the program, the others its base
    /// arguments. No quoting or escaping is done. A string with no word
    /// is a configuration error.
    pub fn parse(s: &str) -> (r: Result<ContainerLauncher, BuildError>)
        ensures
            r is Ok <==> whitespace_words(s@).len() > 0,
            r is Ok ==> r->Ok_0.argv() == whitespace_words(s@),
            r is Err ==> r->Err_0.is_configuration(),
    {
        match command_from_str(s) {
            Some(l) => Ok(l),
            None => Err(BuildError::Configuration(String::from_str("command is empty"))),
        }
    }

    /// Whether this launcher is a rootless runtime (podman): the program
    /// is the path `podman` or a base argument is `podman`.
    pub fn is_podman(&self) -> (r: bool)
        ensures
            self.names_podman() ==> r,
            r ==> self.may_be_podman(),
    {
        launcher_is_podman(self)
    }
}

/// A bind mount of a host path into the container.
#[derive(Clone, Debug, PartialEq, Eq)]
pub struct Mount {
    /// Host path.
    pub src: String,
    /// Path inside the container.
    pub dst: String,
    /// Mounted read-write when set, read-only otherwise.
    pub read_write: bool,
    /// Extra mount options, such as a relabel option.
    pub options: Vec<String>,
}

/// `,<opt>` for each option.
pub open spec fn option_suffix(options: Seq<Seq<char>>) -> Seq<char>
    decreases options.len(),
{
    if options.len() == 0 {
        seq![]
    } else {
        option_suffix(options.drop_last()) + ","@ + options.last()
    }
}

/// `<src>:<dst>:rw` or `<src>:<dst>:ro`, then `,<opt>` for each option.
pub open spec fn mount_arg(m: Mount) -> Seq<char> {
    m.src@ + ":"@ + m.dst@ + (if m.read_write {
        ":rw"@
    } else {
        ":ro"@
    }) + option_suffix(texts(m.options@))
}

/// `--volume <arg>` for each mount.
pub open spec fn volume_flags(mounts: Seq<Mount>) -> Seq<Seq<char>>
    decreases mounts.len(),
{
    if mounts.len() == 0 {
        seq![]
    } else {
        volume_flags(mounts.drop_last()) + seq!["--volume"@, mount_arg(mounts.last())]
    }
}

/// `--env <key>=<value>` for each pair.
pub open spec fn env_flags(env: Seq<(Seq<char>, Seq<char>)>) -> Seq<Seq<char>>
    decreases env.len(),
{
    if env.len() == 0 {
        seq![]
    } else {
        env_flags(env.drop_last()) + seq!["--env"@, env.last().0 + "="@ + env.last().1]
    }
}

/// `--build-arg <key>=<value>` for each pair.
pub open spec fn build_arg_flags(args: Seq<(Seq<char>, Seq<char>)>) -> Seq<Seq<char>>
    decreases args.len(),
{
    if args.len() == 0 {
        seq![]
    } else {
        build_arg_flags(args.drop_last()) + seq!["--build-arg"@, args.last().0 + "="@ + args.last().1]
    }
}

/// `<uid>:<gid>`.
pub open spec fn user_arg(uid: u32, gid: u32) -> Seq<char> {
    decimal(uid as nat) + ":"@ + decimal(gid as nat)
}

/// The arguments after the base command for building an image.
pub open spec fn build_args_of(
    build_args: Seq<(Seq<char>, Seq<char>)>,
    context: Seq<char>,
    tag: Seq<char>,
) -> Seq<Seq<char>> {
    seq!["build"@] + build_arg_flags(build_args) + seq!["--tag"@, tag, context]
}

/// `--init` when asked for, then `--rm` when asked for.
pub open spec fn lifecycle_flags(init: bool, remove: bool) -> Seq<Seq<char>> {
    (if init {
        seq!["--init"@]
    } else {
        seq![]
    }) + (if remove {
        seq!["--rm"@]
    } else {
        seq![]
    })
}

/// The arguments after the base command for running a container as
/// `uid:gid`, with an init process and removed on exit when asked for.
pub open spec fn run_args_of(
    env: Seq<(Seq<char>, Seq<char>)>,
    init: bool,
    remove: bool,
    uid: u32,
    gid: u32,
    mounts: Seq<Mount>,
    image: Seq<char>,
) -> Seq<Seq<char>> {
    seq!["run"@] + env_flags(env) + lifecycle_flags(init, remove) + seq![
        "--user"@,
        user_arg(uid, gid),
    ] + volume_flags(mounts) + seq![image]
}

/// The words of `s`, split on whitespace.
pub uninterp spec fn whitespace_words(s: Seq<char>) -> Seq<Seq<char>>;

/// Relies on command_run::Command::from_whitespace_separated_str: the
/// words of `s` split on whitespace, the first one as the program and
/// the rest as arguments; `None` when `s` has no word.
#[verifier::external_body]
fn command_from_str(s: &str) -> (r: Option<ContainerLauncher>)
    ensures
        r is None <==> whitespace_words(s@).len() == 0,
        r is Some ==> r->Some_0.argv() == whitespace_words(s@),
{
    let c = Command::from_whitespace_separated_str(s)?;
    let args = c.args.iter().map(|a| a.to_string_lossy().into_owned()).collect();
    Some(ContainerLauncher { program: c.program.to_string_lossy().into_owned(), args })
}

/// Relies on docker_command::Launcher::is_podman: whether the base
/// command's program equals the path `podman` (compared component by
/// component) or one of its arguments is `podman`.
#[verifier::external_body]
fn launcher_is_podman(launcher: &ContainerLauncher) -> (r: bool)
    ensures
        launcher.names_podman() ==> r,
        r ==> launcher.may_be_podman(),
{
    Launcher::new(Command::with_args(&launcher.program, &launcher.args)).is_podman()
}

/// Relies on docker_command::Launcher::build: the base arguments, then
/// `build`, a `--build-arg` pair for each build argument, the tag and
/// the context directory. The program stays the launcher's.
#[verifier::external_body]
fn launcher_build(
    launcher: &ContainerLauncher,
    build_args: Vec<(String, String)>,
    context: &str,
    tag: String,
) -> (r: Vec<String>)
    ensures
        texts(r@) == texts(launcher.args@) + build_args_of(text_pairs(build_args@), context@, tag@),
{
    let opt = BuildOpt { build_args, context: context.into(), tag: Some(tag), ..Default::default() };
    let c = Launcher::new(Command::with_args(&launcher.program, &launcher.args)).build(opt);
    c.args.iter().map(|a| a.to_string_lossy().into_owned()).collect()
}

/// Relies on docker_command::Launcher::run: the base arguments, then
/// `run`, an `--env` pair per variable, `--init` if `init`, `--rm` if
/// `remove`, `--user <uid>:<gid>`, a `--volume` pair per mount and the
/// image. The program stays the launcher's.
#[verifier::external_body]
fn launcher_run(
    launcher: &ContainerLauncher,
    env: Vec<(String, String)>,
    init: bool,
    remove: bool,
    uid: u32,
    gid: u32,
    mounts: Vec<Mount>,
    image: String,
) -> (r: Vec<String>)
    ensures
        texts(r@) == texts(launcher.args@) + run_args_of(
            text_pairs(env@),
            init,
            remove,
            uid,
            gid,
            mounts@,
            image@,
        ),
{
    let volumes = mounts.into_iter().map(|m| Volume {
        src: m.src.into(), dst: m.dst.into(), read_write: m.read_write, options: m.options }).collect();
    let opt = RunOpt {
        env: env.into_iter().map(|(k, v)| (k.into(), v.into())).collect(),
        user: Some(UserAndGroup { user: uid.into(), group: Some(gid.into()) }),
        remove, init, volumes, image, ..Default::default() };
    let c = Launcher::new(Command::with_args(&launcher.program, &launcher.args)).run(opt);
    c.args.iter().map(|a| a.to_string_lossy().into_owned()).collect()
}

/// The command that builds an image from `context`, tagged `tag`.
pub fn build_command(
    launcher: &ContainerLauncher,
    build_args: Vec<(String, String)>,
    context: &str,
    tag: &str,
) -> (r: CommandLine)
    ensures
        r.argv() == launcher.argv() + build_args_of(text_pairs(build_args@), context@, tag@),
        r.dir is None,
{
    let args = launcher_build(launcher, build_args, context, String::from_str(tag));
    let r = CommandLine { program: launcher.program.clone(), args, dir: None };
    assert(r.argv() =~= launcher.argv() + build_args_of(text_pairs(build_args@), context@, tag@));
    r
}

/// The command that runs `image` with `env` and `mounts` as
/// `uid:gid`, removed on exit and with an init process, as builds are
/// run.
pub fn run_command(
    launcher: &ContainerLauncher,
    env: Vec<(String, String)>,
    uid: u32,
    gid: u32,
    mounts: Vec<Mount>,
    image: &str,
) -> (r: CommandLine)
    ensures
        r.argv() == launcher.argv() + run_args_of(
            text_pairs(env@),
            true,
            true,
            uid,
            gid,
            mounts@,
            image@,
        ),
        r.dir is None,
{
    let args = launcher_run(launcher, env, true, true, uid, gid, mounts, String::from_str(image));
    let r = CommandLine { program: launcher.program.clone(), args, dir: None };
    assert(r.argv() =~= launcher.argv() + run_args_of(
        text_pairs(env@),
        true,
        true,
        uid,
        gid,
        mounts@,
        image@,
    ));
    r
}

/// `<uid>:<gid>` as a string.
pub fn format_user(uid: u32, gid: u32) -> (r: String)
    ensures
        r@ == user_arg(uid, gid),
{
    let mut s = String::new();
    push_decimal(&mut s, uid as u64);
    s.append(":");
    push_decimal(&mut s, gid as u64);
    assert(s@ =~= user_arg(uid, gid));
    s
}

/// The arguments of `podman unshare chown --recursive <uid>:<gid> <dir>`.
pub open spec fn chown_argv(uid: u32, gid: u32, dir: Seq<char>) -> Seq<Seq<char>> {
    seq!["podman"@, "unshare"@, "chown"@, "--recursive"@, user_arg(uid, gid), dir]
}

/// The command that recursively gives `dir` to `uid:gid` as seen
/// inside podman's user namespace. Inside that namespace `0:0` is the
/// invoking host user.
pub fn chown_command(uid: u32, gid: u32, dir: &str) -> (r: CommandLine)
    ensures
        r.argv() == chown_argv(uid, gid, dir@),
{
    let mut args: Vec<String> = Vec::new();
    args.push(String::from_str("unshare"));
    args.push(String::from_str("chown"));
    args.push(String::from_str("--recursive"));
    args.push(format_user(uid, gid));
    args.push(String::from_str(dir));
    let r = CommandLine::new("podman", args);
    assert(r.argv() =~= chown_argv(uid, gid, dir@));
    r
}

/// The command that strips symbols from the executable at `path`.
pub fn strip_command(path: &str) -> (r: CommandLine)
    ensures
        r.argv() == seq!["strip"@, path@],
{
    let mut args: Vec<String> = Vec::new();
    args.push(String::from_str(path));
    let r = CommandLine::new("strip", args);
    assert(r.argv() =~= seq!["strip"@, path@]);
    r
}

} // verus!
