use vstd::prelude::*;
use crate::registry::string_views;

verus! {

/// A process to spawn: the program and its arguments.
pub struct ShellInvocation {
    pub program: String,
    pub args: Vec<String>,
}

impl View for ShellInvocation {
    type V = (Seq<char>, Seq<Seq<char>>);

    open spec fn view(&self) -> (Seq<char>, Seq<Seq<char>>) {
        (self.program@, string_views(self.args@))
    }
}

/// The process that runs a registered command line: `sh -c <line>`, the
/// whole line as the one argument after `-c`, so that the shell itself splits
/// and interprets it.
pub open spec fn shell_plan(line: Seq<char>) -> (Seq<char>, Seq<Seq<char>>) {
    ("sh"@, seq!["-c"@, line])
}

/// Plans `sh -c <line>`.
pub fn plan_shell(line: &str) -> (r: ShellInvocation)
    ensures
        r@ == shell_plan(line@),
{
    let mut args: Vec<String> = Vec::new();
    args.push("-c".to_owned());
    args.push(line.to_owned());
    assert(string_views(args@) =~= seq!["-c"@, line@]);
    ShellInvocation { program: "sh".to_owned(), args }
}

} // verus!
