//! Descriptions of a subprocess: what is to be run, and what came of it.
//! Nothing here starts a process.

use vstd::prelude::*;

verus! {

/// What a standard stream of the child is connected to.
#[derive(Debug, Clone, Copy, PartialEq, Eq, Structural)]
pub enum Stream {
    /// The parent's own stream.
    Inherit,
    /// Nothing: reads end at once, writes are discarded.
    Null,
    /// A pipe that the parent captures.
    Piped,
}

/// What an [`Invocation`] says.
pub struct InvocationView {
    pub program: Seq<char>,
    pub args: Seq<Seq<char>>,
    pub stdin: Stream,
    pub stdout: Stream,
    pub stderr: Stream,
    pub kill_on_drop: bool,
    pub passed_fd: Option<i32>,
}

/// A command line with the way its process is to be set up.
#[derive(Debug, PartialEq, Eq)]
pub struct Invocation {
    /// The program, looked up in the search path.
    pub program: String,
    /// The arguments after the program's name.
    pub args: Vec<String>,
    pub stdin: Stream,
    pub stdout: Stream,
    pub stderr: Stream,
    /// Whether the process is to be killed when the task that waits for it
    /// is abandoned.
    pub kill_on_drop: bool,
    /// The descriptor number under which the child finds a descriptor that
    /// the caller hands over, if it hands one over.
    pub passed_fd: Option<i32>,
}

impl View for Invocation {
    type V = InvocationView;

    open spec fn view(&self) -> InvocationView {
        InvocationView {
            program: self.program@,
            args: self.args@.map_values(|a: String| a@),
            stdin: self.stdin,
            stdout: self.stdout,
            stderr: self.stderr,
            kill_on_drop: self.kill_on_drop,
            passed_fd: self.passed_fd,
        }
    }
}

impl InvocationView {
    /// The plain invocation of a program: no arguments, the parent's streams.
    pub open spec fn plain(program: Seq<char>) -> InvocationView {
        InvocationView {
            program,
            args: Seq::empty(),
            stdin: Stream::Inherit,
            stdout: Stream::Inherit,
            stderr: Stream::Inherit,
            kill_on_drop: false,
            passed_fd: None,
        }
    }

    /// The same invocation with one more argument at the end.
    pub open spec fn with_arg(self, a: Seq<char>) -> InvocationView {
        InvocationView { args: self.args.push(a), ..self }
    }
}

impl Invocation {
    /// The plain invocation of a program.
    pub fn new(program: &str) -> (r: Invocation)
        ensures
            r@ == InvocationView::plain(program@),
    {
        let r = Invocation {
            program: program.to_owned(),
            args: Vec::new(),
            stdin: Stream::Inherit,
            stdout: Stream::Inherit,
            stderr: Stream::Inherit,
            kill_on_drop: false,
            passed_fd: None,
        };
        assert(r@.args =~= Seq::empty());
        r
    }

    /// Appends an argument.
    pub fn arg(&mut self, a: &str)
        ensures
            final(self)@ == old(self)@.with_arg(a@),
    {
        self.args.push(a.to_owned());
        assert(self@.args =~= old(self)@.args.push(a@));
    }
}

/// What a finished process left behind.
#[derive(Debug, PartialEq, Eq)]
pub struct ProcessOutput {
    /// Whether the process exited with status zero.
    pub success: bool,
    /// What it wrote to its standard output, where that was captured.
    pub stdout: Vec<u8>,
    /// What it wrote to its standard error, where that was captured.
    pub stderr: Vec<u8>,
}

} // verus!
