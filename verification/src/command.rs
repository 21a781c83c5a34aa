//! Programs to run, and the platforms that differ in which they are.
use vstd::prelude::*;
use vstd::string::*;

verus! {

/// The operating system that the terminals run on.
#[derive(Debug, Clone, Copy, PartialEq, Eq, Structural)]
pub enum Platform {
    Windows,
    MacOs,
    Linux,
    Other,
}

/// A program and the arguments to run it with.
#[derive(Debug)]
pub struct CommandLine {
    pub program: String,
    pub args: Vec<String>,
}

/// A program and its arguments as text.
pub struct CommandView {
    pub program: Seq<char>,
    pub args: Seq<Seq<char>>,
}

/// The characters that a list of strings holds.
pub open spec fn string_views(v: Seq<String>) -> Seq<Seq<char>> {
    v.map_values(|s: String| s@)
}

impl View for CommandLine {
    type V = CommandView;

    open spec fn view(&self) -> CommandView {
        CommandView { program: self.program@, args: string_views(self.args@) }
    }
}

impl CommandLine {
    /// A program without arguments.
    pub fn new(program: &str) -> (res: CommandLine)
        ensures
            res@ == (CommandView { program: program@, args: Seq::empty() }),
    {
        let res = CommandLine { program: program.to_string(), args: Vec::new() };
        assert(res@.args =~= Seq::empty());
        res
    }

    /// The same program with one more argument.
    pub fn arg(self, text: &str) -> (res: CommandLine)
        ensures
            res@ == (CommandView { program: self@.program, args: self@.args.push(text@) }),
    {
        let ghost before = self@;
        let CommandLine { program, args } = self;
        let mut args = args;
        args.push(text.to_string());
        let res = CommandLine { program, args };
        assert(res@.args =~= before.args.push(text@));
        res
    }
}

/// Whether `ask`, asked about a command that reads as `command`, may answer `out`.
pub open spec fn may_answer<T, F: Fn(&CommandLine) -> T>(
    ask: F,
    command: CommandView,
    out: T,
) -> bool {
    exists|c: CommandLine| c@ == command && #[trigger] call_ensures(ask, (&c,), out)
}

} // verus!
