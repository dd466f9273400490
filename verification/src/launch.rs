//! A process to start: program and arguments. The caller spawns it.

use vstd::prelude::*;

verus! {

/// A program with its arguments.
pub struct Launch {
    pub program: String,
    pub args: Vec<String>,
}

/// The characters of each string.
pub open spec fn texts(v: Seq<String>) -> Seq<Seq<char>> {
    v.map_values(|s: String| s@)
}

/// The launch is `program` with `args`, compared by text.
pub open spec fn launches(l: Launch, program: Seq<char>, args: Seq<Seq<char>>) -> bool {
    l.program@ == program && texts(l.args@) == args
}

/// A launch of `program` with the given arguments.
pub fn launch_of(program: &str, args: &[&str]) -> (l: Launch)
    ensures
        l.program@ == program@,
        texts(l.args@) == args@.map_values(|s: &str| s@),
{
    Launch { program: program.to_owned(), args: owned_args(args) }
}

/// Owned copies of string slices, in order.
pub fn owned_args(args: &[&str]) -> (v: Vec<String>)
    ensures
        texts(v@) == args@.map_values(|s: &str| s@),
{
    let mut v: Vec<String> = Vec::new();
    let mut i: usize = 0;
    while i < args.len()
        invariant
            i <= args@.len(),
            v@.len() == i,
            forall|j: int| 0 <= j < i ==> #[trigger] v@[j]@ == args@[j]@,
        decreases args@.len() - i,
    {
        v.push(args[i].to_owned());
        i = i + 1;
    }
    assert(texts(v@) =~= args@.map_values(|s: &str| s@));
    v
}

/// An element-by-element copy of a list of strings.
pub fn copy_strings(v: &Vec<String>) -> (r: Vec<String>)
    ensures
        texts(r@) == texts(v@),
{
    let mut r: Vec<String> = Vec::new();
    let mut i: usize = 0;
    while i < v.len()
        invariant
            i <= v@.len(),
            r@.len() == i,
            forall|j: int| 0 <= j < i ==> #[trigger] r@[j]@ == v@[j]@,
        decreases v@.len() - i,
    {
        r.push(v[i].clone());
        i = i + 1;
    }
    assert(texts(r@) =~= texts(v@));
    r
}

} // verus!
