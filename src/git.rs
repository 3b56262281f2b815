//! Commands on a git working copy.

use vstd::prelude::*;
use vstd::utf8::encode_utf8;

use crate::command::CommandLine;
use crate::error::BuildError;

verus! {

/// A git working copy.
pub struct Repo {
    pub path: String,
}

/// `s` without leading and trailing whitespace.
pub uninterp spec fn trimmed_of(s: Seq<char>) -> Seq<char>;

/// Relies on str::trim: the text with leading and trailing whitespace
/// removed.
#[verifier::external_body]
fn trim(s: &str) -> (r: String)
    ensures
        r@ == trimmed_of(s@),
{
    s.trim().to_string()
}

/// A git command with `args`.
fn git(args: Vec<String>) -> (r: CommandLine)
    ensures
        r.argv() == seq!["git"@] + args@.map_values(|a: String| a@),
        r.dir is None,
{
    CommandLine::new("git", args)
}

impl Repo {
    /// A working copy at `path`.
    pub fn new(path: String) -> (r: Repo)
        ensures
            r.path == path,
    {
        Repo { path }
    }

    /// `git -C <path>` followed by `rest`.
    fn git_in(&self, rest: Vec<&str>) -> (r: CommandLine)
        ensures
            r.argv() == seq!["git"@, "-C"@, self.path@] + rest@.map_values(|a: &str| a@),
    {
        let mut args: Vec<String> = Vec::new();
        args.push(String::from_str("-C"));
        args.push(self.path.clone());
        let mut i: usize = 0;
        while i < rest.len()
            invariant
                i <= rest@.len(),
                args@.map_values(|a: String| a@) == seq!["-C"@, self.path@] + rest@.subrange(
                    0,
                    i as int,
                ).map_values(|a: &str| a@),
            decreases rest@.len() - i,
        {
            let ghost before = args@;
            args.push(String::from_str(rest[i]));
            assert(args@.map_values(|a: String| a@) =~= before.map_values(|a: String| a@).push(
                rest@[i as int]@,
            ));
            i = i + 1;
            assert(args@.map_values(|a: String| a@) =~= seq!["-C"@, self.path@] + rest@.subrange(
                0,
                i as int,
            ).map_values(|a: &str| a@));
        }
        assert(rest@.subrange(0, rest@.len() as int) =~= rest@);
        let r = git(args);
        assert(r.argv() =~= seq!["git"@, "-C"@, self.path@] + rest@.map_values(|a: &str| a@));
        r
    }

    /// Clone `repo_url` into this path: `git clone <url> <path>`.
    pub fn clone(&self, repo_url: &str) -> (r: CommandLine)
        ensures
            r.argv() == seq!["git"@, "clone"@, repo_url@, self.path@],
    {
        let mut args: Vec<String> = Vec::new();
        args.push(String::from_str("clone"));
        args.push(String::from_str(repo_url));
        args.push(self.path.clone());
        let r = git(args);
        assert(r.argv() =~= seq!["git"@, "clone"@, repo_url@, self.path@]);
        r
    }

    /// `git -C <path> fetch`.
    pub fn fetch(&self) -> (r: CommandLine)
        ensures
            r.argv() == seq!["git"@, "-C"@, self.path@, "fetch"@],
    {
        let r = self.git_in(vec!["fetch"]);
        assert(r.argv() =~= seq!["git"@, "-C"@, self.path@, "fetch"@]);
        r
    }

    /// Set the URL of the `origin` remote to `repo_url`.
    pub fn remote_set_url(&self, repo_url: &str) -> (r: CommandLine)
        ensures
            r.argv() == seq!["git"@, "-C"@, self.path@, "remote"@, "set-url"@, "origin"@, repo_url@],
    {
        let r = self.git_in(vec!["remote", "set-url", "origin", repo_url]);
        assert(r.argv() =~= seq![
            "git"@,
            "-C"@,
            self.path@,
            "remote"@,
            "set-url"@,
            "origin"@,
            repo_url@,
        ]);
        r
    }

    /// Check out the specified revision.
    ///
    /// The first command checks out `origin/<rev>`. This works if the
    /// rev is a branch, and gets the latest commit from that branch
    /// rather than a local branch that could fall out of date. If it
    /// fails, the second command checks out the rev directly, which
    /// works for tags and commit hashes.
    pub fn checkout(&self, rev: &str) -> (r: (CommandLine, CommandLine))
        ensures
            r.0.argv() == seq!["git"@, "-C"@, self.path@, "checkout"@, "origin/"@ + rev@],
            r.1.argv() == seq!["git"@, "-C"@, self.path@, "checkout"@, rev@],
    {
        let mut remote = String::from_str("origin/");
        remote.append(rev);
        let first = self.git_in(vec!["checkout", remote.as_str()]);
        let fallback = self.git_in(vec!["checkout", rev]);
        assert(first.argv() =~= seq!["git"@, "-C"@, self.path@, "checkout"@, "origin/"@ + rev@]);
        assert(fallback.argv() =~= seq!["git"@, "-C"@, self.path@, "checkout"@, rev@]);
        (first, fallback)
    }

    /// The command that prints the commit hash of `target`.
    pub fn rev_parse(&self, target: &str) -> (r: CommandLine)
        ensures
            r.argv() == seq!["git"@, "-C"@, self.path@, "rev-parse"@, target@],
    {
        let r = self.git_in(vec!["rev-parse", target]);
        assert(r.argv() =~= seq!["git"@, "-C"@, self.path@, "rev-parse"@, target@]);
        r
    }
}

/// The commit hash printed by `git rev-parse`: the output without
/// surrounding whitespace, which must be 40 bytes long.
///
/// Example output: "46794db6816e4a07077cf02711ff1921d50e08d3".
pub fn parse_commit_hash(stdout: &str) -> (r: Result<String, BuildError>)
    ensures
        r is Ok <==> encode_utf8(trimmed_of(stdout@)).len() as usize == 40,
        r is Ok ==> r->Ok_0@ == trimmed_of(stdout@),
        r is Err ==> r->Err_0.is_external_process(),
{
    let hash = trim(stdout);
    if hash.as_str().len() != 40 {
        return Err(
            BuildError::ExternalProcess {
                command: String::from_str("git rev-parse"),
                output: String::from_str("invalid commit hash"),
            },
        );
    }
    Ok(hash)
}

} // verus!
