//! External command lines that the program runs.
use vstd::prelude::*;
use crate::text::str_to_string;

verus! {

/// A program and its arguments.
#[derive(Debug, Clone)]
pub struct CommandSpec {
    pub program: String,
    pub args: Vec<String>,
}

pub open spec fn strings_view(v: Seq<String>) -> Seq<Seq<char>> {
    v.map_values(|s: String| s@)
}

impl CommandSpec {
    pub open spec fn args_view(&self) -> Seq<Seq<char>> {
        strings_view(self.args@)
    }
}

/// A command whose arguments are the given string slices.
pub fn command(program: &str, args: &[&str]) -> (r: CommandSpec)
    ensures
        r.program@ == program@,
        r.args_view() == args@.map_values(|a: &str| a@),
{
    let mut v: Vec<String> = Vec::new();
    let mut i: usize = 0;
    while i < args.len()
        invariant
            i <= args.len(),
            strings_view(v@) == args@.take(i as int).map_values(|a: &str| a@),
        decreases args.len() - i,
    {
        let s = str_to_string(args[i]);
        let ghost before = strings_view(v@);
        v.push(s);
        assert(strings_view(v@) =~= before.push(args@[i as int]@));
        assert(args@.take(i + 1).map_values(|a: &str| a@) =~= args@.take(i as int).map_values(
            |a: &str| a@,
        ).push(args@[i as int]@));
        i = i + 1;
    }
    assert(args@.take(args.len() as int) =~= args@);
    CommandSpec { program: str_to_string(program), args: v }
}

} // verus!
