//! A plain container runtime client: image build and container run
//! with read-only or read-write volumes.

use vstd::prelude::*;

use crate::command::{texts, CommandLine};
use crate::container::{format_user, user_arg};

verus! {

/// A container runtime command, such as `docker` or `podman`.
pub struct Docker {
    pub cmd: String,
}

/// A volume mounted into the container.
pub struct Volume {
    /// Host path.
    pub src: String,
    /// Path inside the container.
    pub dst: String,
    /// Mounted read-only when set, read-write otherwise.
    pub read_only: bool,
}

/// `<src>:<dst>:ro` or `<src>:<dst>:rw`.
pub open spec fn volume_arg(v: Volume) -> Seq<char> {
    v.src@ + ":"@ + v.dst@ + if v.read_only {
        ":ro"@
    } else {
        ":rw"@
    }
}

/// `-v <arg>` for each volume.
pub open spec fn volume_args(volumes: Seq<Volume>) -> Seq<Seq<char>>
    decreases volumes.len(),
{
    if volumes.len() == 0 {
        seq![]
    } else {
        volume_args(volumes.drop_last()) + seq!["-v"@, volume_arg(volumes.last())]
    }
}

impl Volume {
    /// Format as a `-v` argument.
    pub fn arg(&self) -> (r: String)
        ensures
            r@ == volume_arg(*self),
    {
        let mut s = self.src.clone();
        s.append(":");
        s.append(self.dst.as_str());
        if self.read_only {
            s.append(":ro");
        } else {
            s.append(":rw");
        }
        s
    }
}

impl Docker {
    /// A client running `cmd`.
    pub fn new(cmd: String) -> (r: Docker)
        ensures
            r.cmd == cmd,
    {
        Docker { cmd }
    }

    /// The command that builds the image in `dir`, tagged `image_tag`:
    /// `<cmd> build --tag <image_tag> .`, run in `dir`.
    pub fn build(&self, dir: &str, image_tag: &str) -> (r: CommandLine)
        ensures
            r.argv() == seq![self.cmd@, "build"@, "--tag"@, image_tag@, "."@],
            r.dir is Some && r.dir->Some_0@ == dir@,
    {
        let mut args: Vec<String> = Vec::new();
        args.push(String::from_str("build"));
        args.push(String::from_str("--tag"));
        args.push(String::from_str(image_tag));
        args.push(String::from_str("."));
        let r = CommandLine { program: self.cmd.clone(), args, dir: Some(String::from_str(dir)) };
        assert(r.argv() =~= seq![self.cmd@, "build"@, "--tag"@, image_tag@, "."@]);
        r
    }

    /// The command that runs `image_tag` as `uid:gid` with `volumes`,
    /// removed on exit and with an init process:
    /// `<cmd> run --rm --init -u <uid>:<gid> -v <volume>... <image_tag>`.
    pub fn run(&self, volumes: &Vec<Volume>, image_tag: &str, uid: u32, gid: u32) -> (r:
        CommandLine)
        ensures
            r.argv() == seq![self.cmd@, "run"@, "--rm"@, "--init"@, "-u"@, user_arg(uid, gid)]
                + volume_args(volumes@) + seq![image_tag@],
            r.dir is None,
    {
        let mut args: Vec<String> = Vec::new();
        args.push(String::from_str("run"));
        args.push(String::from_str("--rm"));
        args.push(String::from_str("--init"));
        args.push(String::from_str("-u"));
        args.push(format_user(uid, gid));
        let ghost head = texts(args@);
        assert(head =~= seq!["run"@, "--rm"@, "--init"@, "-u"@, user_arg(uid, gid)]);
        let mut i: usize = 0;
        while i < volumes.len()
            invariant
                i <= volumes@.len(),
                texts(args@) == head + volume_args(volumes@.subrange(0, i as int)),
            decreases volumes@.len() - i,
        {
            let ghost before = args@;
            args.push(String::from_str("-v"));
            let a = volumes[i].arg();
            args.push(a);
            proof {
                assert(volumes@.subrange(0, i as int + 1).drop_last() =~= volumes@.subrange(
                    0,
                    i as int,
                ));
                assert(texts(args@) =~= texts(before) + seq!["-v"@, a@]);
            }
            i = i + 1;
            assert(texts(args@) =~= head + volume_args(volumes@.subrange(0, i as int)));
        }
        let ghost before = args@;
        args.push(String::from_str(image_tag));
        assert(texts(args@) =~= texts(before).push(image_tag@));
        let r = CommandLine { program: self.cmd.clone(), args, dir: None };
        assert(volumes@.subrange(0, volumes@.len() as int) =~= volumes@);
        assert(r.argv() =~= seq![self.cmd@, "run"@, "--rm"@, "--init"@, "-u"@, user_arg(uid, gid)]
            + volume_args(volumes@) + seq![image_tag@]);
        r
    }
}

} // verus!
