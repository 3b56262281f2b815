use vstd::prelude::*;

use crate::error::BuildError;
use crate::text::same_text;

verus! {

/// Whether to build for Amazon Linux 2 or AWS Lambda.
#[derive(Clone, Copy, Debug, PartialEq, Eq, Structural)]
pub enum BuildMode {
    /// Build for Amazon Linux 2. The result is a standalone binary
    /// that can be copied to (e.g) an EC2 instance running Amazon
    /// Linux 2.
    AmazonLinux2,
    /// Build for AWS Lambda running Amazon Linux 2. The result is a
    /// zip file containing a single "bootstrap" executable.
    Lambda,
}

/// The mode token used in every generated path and name.
pub open spec fn mode_name(mode: BuildMode) -> Seq<char> {
    match mode {
        BuildMode::AmazonLinux2 => "al2"@,
        BuildMode::Lambda => "lambda"@,
    }
}

/// The image that the build container starts from.
pub open spec fn base_image(mode: BuildMode) -> Seq<char> {
    match mode {
        BuildMode::AmazonLinux2 => "docker.io/amazonlinux:2"@,
        BuildMode::Lambda => "docker.io/lambci/lambda:build-provided.al2"@,
    }
}

/// Whether the artifact of a mode is a zip archive rather than the
/// bare executable.
pub open spec fn produces_zip(mode: BuildMode) -> bool {
    mode is Lambda
}

impl BuildMode {
    /// The mode token: `al2` or `lambda`.
    pub fn name(&self) -> (r: &'static str)
        ensures
            r@ == mode_name(*self),
    {
        match self {
            BuildMode::AmazonLinux2 => "al2",
            BuildMode::Lambda => "lambda",
        }
    }

    /// The base image reference handed to the image build.
    pub fn base_image(&self) -> (r: &'static str)
        ensures
            r@ == base_image(*self),
    {
        match self {
            BuildMode::AmazonLinux2 => "docker.io/amazonlinux:2",
            BuildMode::Lambda => "docker.io/lambci/lambda:build-provided.al2",
        }
    }

    /// Parse a mode token. Exactly `al2` and `lambda` are accepted.
    pub fn from_str(s: &str) -> (r: Result<BuildMode, BuildError>)
        ensures
            s@ == "al2"@ <==> r == Ok::<BuildMode, BuildError>(BuildMode::AmazonLinux2),
            s@ == "lambda"@ <==> r == Ok::<BuildMode, BuildError>(BuildMode::Lambda),
            r is Err <==> (s@ != "al2"@ && s@ != "lambda"@),
            r is Err ==> r->Err_0 is Configuration && r->Err_0->Configuration_0@ == "invalid mode "@
                + s@,
    {
        proof {
            reveal_strlit("al2");
            reveal_strlit("lambda");
            assert("al2"@.len() != "lambda"@.len());
        }
        if same_text(s, "al2") {
            Ok(BuildMode::AmazonLinux2)
        } else if same_text(s, "lambda") {
            Ok(BuildMode::Lambda)
        } else {
            let mut msg = String::from_str("invalid mode ");
            msg.append(s);
            Err(BuildError::Configuration(msg))
        }
    }
}

/// Relabel files before bind-mounting.
#[derive(Clone, Copy, Debug, PartialEq, Eq, Structural)]
pub enum Relabel {
    /// Mount volumes with the `z` option.
    Shared,
    /// Mount volumes with the `Z` option.
    Unshared,
}

/// The extra mount options that a relabel policy asks for.
pub open spec fn relabel_options(relabel: Option<Relabel>) -> Seq<Seq<char>> {
    match relabel {
        Some(Relabel::Shared) => seq!["z"@],
        Some(Relabel::Unshared) => seq!["Z"@],
        None => seq![],
    }
}

/// The mount options for a relabel policy, as strings.
pub fn mount_options(relabel: Option<Relabel>) -> (r: Vec<String>)
    ensures
        r@.map_values(|s: String| s@) == relabel_options(relabel),
{
    let mut r: Vec<String> = Vec::new();
    match relabel {
        Some(Relabel::Shared) => r.push(String::from_str("z")),
        Some(Relabel::Unshared) => r.push(String::from_str("Z")),
        None => {},
    }
    proof {
        assert(r@.map_values(|s: String| s@) =~= relabel_options(relabel));
    }
    r
}

} // verus!
