//! Choosing the binary target to build.

use vstd::prelude::*;

use crate::command::texts;
use crate::error::BuildError;
use crate::text::same_text;

verus! {

/// A build target of a package, as the package manager lists it: its
/// name and its kinds (`bin`, `lib`, ...).
#[derive(Clone, Debug, PartialEq, Eq)]
pub struct TargetInfo {
    pub name: String,
    pub kinds: Vec<String>,
}

/// Whether a target is a binary target.
pub open spec fn is_bin(t: TargetInfo) -> bool {
    texts(t.kinds@).contains("bin"@)
}

/// The names of the binary targets, in order.
pub open spec fn bin_names(targets: Seq<TargetInfo>) -> Seq<Seq<char>>
    decreases targets.len(),
{
    if targets.len() == 0 {
        seq![]
    } else {
        bin_names(targets.drop_last()) + (if is_bin(targets.last()) {
            seq![targets.last().name@]
        } else {
            seq![]
        })
    }
}

/// Whether `t` is a binary target.
pub fn target_is_bin(t: &TargetInfo) -> (r: bool)
    ensures
        r == is_bin(*t),
{
    let mut i: usize = 0;
    while i < t.kinds.len()
        invariant
            i <= t.kinds@.len(),
            forall|j: int| 0 <= j < i ==> t.kinds@[j]@ != "bin"@,
        decreases t.kinds@.len() - i,
    {
        if same_text(t.kinds[i].as_str(), "bin") {
            assert(texts(t.kinds@)[i as int] == "bin"@);
            return true;
        }
        i = i + 1;
    }
    assert(!texts(t.kinds@).contains("bin"@)) by {
        if texts(t.kinds@).contains("bin"@) {
            let j = choose|j: int| 0 <= j < texts(t.kinds@).len() && texts(t.kinds@)[j] == "bin"@;
            assert(t.kinds@[j]@ == "bin"@);
        }
    }
    false
}

/// Get the names of all the binary targets, in order.
pub fn binary_names(targets: &Vec<TargetInfo>) -> (r: Vec<String>)
    ensures
        texts(r@) == bin_names(targets@),
{
    let mut r: Vec<String> = Vec::new();
    let mut i: usize = 0;
    while i < targets.len()
        invariant
            i <= targets@.len(),
            texts(r@) == bin_names(targets@.subrange(0, i as int)),
        decreases targets@.len() - i,
    {
        let ghost before = r@;
        proof {
            assert(targets@.subrange(0, i as int + 1).drop_last() =~= targets@.subrange(0, i as int));
        }
        if target_is_bin(&targets[i]) {
            let name = targets[i].name.clone();
            r.push(name);
            assert(texts(r@) =~= texts(before).push(targets@[i as int].name@));
        }
        i = i + 1;
        assert(texts(r@) =~= bin_names(targets@.subrange(0, i as int)));
    }
    assert(targets@.subrange(0, targets@.len() as int) =~= targets@);
    r
}

/// Get the name of the binary target to build: the explicit choice if
/// there is one, else the only binary target.
///
/// Without an explicit choice, a package with no binary target or
/// with several is a configuration error.
pub fn select_bin(explicit: &Option<String>, names: &Vec<String>) -> (r: Result<String, BuildError>)
    ensures
        explicit is Some ==> r is Ok && r->Ok_0@ == explicit->Some_0@,
        explicit is None && names@.len() == 1 ==> r is Ok && r->Ok_0@ == names@[0]@,
        explicit is None && names@.len() != 1 ==> r is Err && r->Err_0 is Configuration
            && r->Err_0->Configuration_0@ == "must specify bin target when package has more than one"@,
{
    match explicit {
        Some(bin) => Ok(bin.clone()),
        None => {
            if names.len() == 1 {
                Ok(names[0].clone())
            } else {
                Err(
                    BuildError::Configuration(
                        String::from_str("must specify bin target when package has more than one"),
                    ),
                )
            }
        },
    }
}

} // verus!
