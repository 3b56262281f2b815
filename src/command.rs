//! External commands as plain values: a program and its arguments.

use vstd::prelude::*;

verus! {

/// The text of each string in a sequence.
pub open spec fn texts(v: Seq<String>) -> Seq<Seq<char>> {
    v.map_values(|s: String| s@)
}

/// The text of each pair of strings in a sequence.
pub open spec fn text_pairs(v: Seq<(String, String)>) -> Seq<(Seq<char>, Seq<char>)> {
    v.map_values(|p: (String, String)| (p.0@, p.1@))
}

/// The words of `parts`, each but the first preceded by `sep`.
pub open spec fn joined(parts: Seq<Seq<char>>, sep: Seq<char>) -> Seq<char>
    decreases parts.len(),
{
    if parts.len() == 0 {
        seq![]
    } else if parts.len() == 1 {
        parts[0]
    } else {
        joined(parts.drop_last(), sep) + sep + parts.last()
    }
}

/// Join strings with a separator, as `[String]::join` does.
pub fn join_strings(parts: &Vec<String>, sep: &str) -> (r: String)
    ensures
        r@ == joined(texts(parts@), sep@),
{
    let mut r = String::new();
    let mut i: usize = 0;
    while i < parts.len()
        invariant
            i <= parts@.len(),
            r@ == joined(texts(parts@.subrange(0, i as int)), sep@),
        decreases parts@.len() - i,
    {
        proof {
            let next = texts(parts@.subrange(0, i as int + 1));
            assert(next.drop_last() =~= texts(parts@.subrange(0, i as int)));
            assert(next.last() == parts@[i as int]@);
        }
        if i > 0 {
            r.append(sep);
        }
        r.append(parts[i].as_str());
        i = i + 1;
        proof {
            if i == 1 {
                assert(texts(parts@.subrange(0, 1)) =~= seq![parts@[0]@]);
            }
        }
    }
    assert(parts@.subrange(0, parts@.len() as int) =~= parts@);
    r
}

/// A process to run: the program, its arguments and, if set, the
/// directory to run it in.
#[derive(Clone, Debug, PartialEq, Eq)]
pub struct CommandLine {
    pub program: String,
    pub args: Vec<String>,
    pub dir: Option<String>,
}

impl CommandLine {
    /// The program followed by its arguments.
    pub open spec fn argv(&self) -> Seq<Seq<char>> {
        seq![self.program@] + texts(self.args@)
    }

    /// A command of `program` with `args`.
    pub fn new(program: &str, args: Vec<String>) -> (r: CommandLine)
        ensures
            r.program@ == program@,
            r.args@ == args@,
            r.dir is None,
    {
        CommandLine { program: String::from_str(program), args, dir: None }
    }

    /// The command line as one string, words separated by spaces, for
    /// messages.
    pub fn display(&self) -> (r: String)
        ensures
            r@ == joined(self.argv(), " "@),
    {
        let mut words: Vec<String> = Vec::new();
        words.push(self.program.clone());
        let mut i: usize = 0;
        while i < self.args.len()
            invariant
                i <= self.args@.len(),
                texts(words@) == seq![self.program@] + texts(self.args@.subrange(0, i as int)),
            decreases self.args@.len() - i,
        {
            let ghost before = words@;
            let a = self.args[i].clone();
            assert(a@ == self.args@[i as int]@);
            words.push(a);
            assert(texts(words@) =~= texts(before).push(a@));
            assert(texts(self.args@.subrange(0, i as int + 1)) =~= texts(
                self.args@.subrange(0, i as int),
            ).push(a@));
            i = i + 1;
            assert(texts(words@) =~= seq![self.program@] + texts(self.args@.subrange(0, i as int)));
        }
        assert(self.args@.subrange(0, self.args@.len() as int) =~= self.args@);
        join_strings(&words, " ")
    }
}

} // verus!
