//! The command to launch: a program and the arguments handed to it verbatim.

use vstd::prelude::*;

verus! {

/// The views of `strings`, one for one.
pub open spec fn views_of(strings: Seq<String>) -> Seq<Seq<char>> {
    Seq::new(strings.len(), |i: int| strings[i]@)
}

/// What a command line holds.
pub struct CommandLineView {
    pub program: Seq<char>,
    pub args: Seq<Seq<char>>,
}

/// The command of one session.
#[derive(Debug)]
pub struct CommandLine {
    program: String,
    args: Vec<String>,
}

impl View for CommandLine {
    type V = CommandLineView;

    closed spec fn view(&self) -> CommandLineView {
        CommandLineView { program: self.program@, args: views_of(self.args@) }
    }
}

impl CommandLine {
    /// Splits the tokens that follow the program's own name: the first is the
    /// program to launch, the rest are its arguments. Without a token there
    /// is no command.
    pub fn from_tokens(tokens: Vec<String>) -> (command: Option<CommandLine>)
        ensures
            tokens@.len() == 0 ==> command is None,
            tokens@.len() > 0 ==> command is Some && command->0@.program == tokens@[0]@
                && command->0@.args == views_of(tokens@).drop_first(),
    {
        let mut rest = tokens;
        if rest.len() == 0 {
            return None;
        }
        let program = rest.remove(0);
        Some(CommandLine { program, args: rest })
    }

    /// The program to launch.
    pub fn program(&self) -> (program: &str)
        ensures
            program@ == self@.program,
    {
        self.program.as_str()
    }

    /// The number of arguments.
    pub fn arg_count(&self) -> (n: usize)
        ensures
            n == self@.args.len(),
    {
        self.args.len()
    }

    /// A copy of the command.
    pub fn snapshot(&self) -> (copy: CommandLine)
        ensures
            copy@ == self@,
    {
        let mut args: Vec<String> = Vec::new();
        let mut i: usize = 0;
        while i < self.args.len()
            invariant
                i <= self.args.len(),
                args@.len() == i,
                forall|j: int| 0 <= j < i ==> args@[j]@ == self.args@[j]@,
            decreases self.args.len() - i,
        {
            args.push(self.args[i].clone());
            i = i + 1;
        }
        let copy = CommandLine { program: self.program.clone(), args };
        assert(copy@.args =~= self@.args);
        copy
    }

    /// The argument at position `index`.
    pub fn arg(&self, index: usize) -> (arg: Option<&str>)
        ensures
            index < self@.args.len() ==> arg is Some && arg->0@ == self@.args[index as int],
            index >= self@.args.len() ==> arg is None,
    {
        if index < self.args.len() {
            Some(self.args[index].as_str())
        } else {
            None
        }
    }
}

} // verus!
