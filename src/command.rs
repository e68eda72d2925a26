//! External commands that a plugin asks to have launched.
use vstd::prelude::*;

verus! {

/// A program to launch, fire and forget, with its arguments.
pub struct Launch {
    pub program: String,
    pub args: Vec<String>,
}

/// The view of a launch: the program name and each argument.
pub open spec fn launch_is(l: Launch, program: Seq<char>, args: Seq<Seq<char>>) -> bool {
    &&& l.program@ == program
    &&& l.args@.len() == args.len()
    &&& forall|k: int| 0 <= k < args.len() ==> #[trigger] l.args@[k]@ == args[k]
}

/// The password manager run with `op` on the secret at `path`.
pub open spec fn pass_launch(op: Seq<char>, path: Seq<char>) -> Seq<Seq<char>> {
    seq![op, path]
}

/// Builds the launch of `pass <op> <path>`.
pub fn pass_command(op: &str, path: &String) -> (r: Launch)
    ensures
        launch_is(r, "pass"@, pass_launch(op@, path@)),
{
    let mut args: Vec<String> = Vec::new();
    args.push(op.to_owned());
    args.push(path.clone());
    Launch { program: "pass".to_owned(), args }
}

} // verus!
