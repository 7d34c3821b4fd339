//! Runs of the `git` binary, described as data.
use vstd::prelude::*;

use crate::diagnosis::Fatal;
use crate::pathspec::texts;

verus! {

/// The located `git` binary.
#[derive(Debug)]
pub struct Git {
    bin: String,
}

impl View for Git {
    type V = Seq<char>;

    /// The path of the binary.
    closed spec fn view(&self) -> Seq<char> {
        self.bin@
    }
}

impl Git {
    /// The binary found at `bin`.
    pub fn new(bin: &str) -> (r: Git)
        ensures
            r@ == bin@,
    {
        Git { bin: bin.to_owned() }
    }

    /// The path of the binary.
    pub fn bin(&self) -> (r: &str)
        ensures
            r@ == self@,
    {
        self.bin.as_str()
    }
}

/// What becomes of one of the output streams of a run.
#[derive(Debug, Clone, Copy, PartialEq, Eq, Structural)]
pub enum Capture {
    /// Discarded.
    Null,
    /// Collected and handed back with the outcome.
    Piped,
}

/// What a run reads on its standard input.
#[derive(Debug)]
pub enum Input {
    /// The caller's standard input.
    Inherited,
    /// This text, after which the input is closed.
    Text(String),
    /// These bytes, after which the input is closed.
    Bytes(Vec<u8>),
    /// The contents of the file at this path, after which the input is closed.
    FileContents(String),
}

/// The model of [`Input`].
pub enum InputView {
    Inherited,
    Text(Seq<char>),
    Bytes(Seq<u8>),
    FileContents(Seq<char>),
}

impl View for Input {
    type V = InputView;

    open spec fn view(&self) -> InputView {
        match self {
            Input::Inherited => InputView::Inherited,
            Input::Text(t) => InputView::Text(t@),
            Input::Bytes(b) => InputView::Bytes(b@),
            Input::FileContents(p) => InputView::FileContents(p@),
        }
    }
}

/// One run of the `git` binary.
#[derive(Debug)]
pub struct Invocation {
    /// The binary to run.
    pub program: String,
    /// The directory to run it in; the caller's when `None`.
    pub current_dir: Option<String>,
    /// Its arguments.
    pub args: Vec<String>,
    /// What it reads.
    pub input: Input,
    /// What becomes of its standard output.
    pub stdout: Capture,
    /// What becomes of its standard error.
    pub stderr: Capture,
}

/// The model of an [`Invocation`].
pub struct InvocationView {
    pub program: Seq<char>,
    pub current_dir: Option<Seq<char>>,
    pub args: Seq<Seq<char>>,
    pub input: InputView,
    pub stdout: Capture,
    pub stderr: Capture,
}

/// The view of an optional string.
pub open spec fn opt_view(s: Option<String>) -> Option<Seq<char>> {
    match s {
        Some(t) => Some(t@),
        None => None,
    }
}

impl View for Invocation {
    type V = InvocationView;

    open spec fn view(&self) -> InvocationView {
        InvocationView {
            program: self.program@,
            current_dir: opt_view(self.current_dir),
            args: texts(self.args@),
            input: self.input@,
            stdout: self.stdout,
            stderr: self.stderr,
        }
    }
}

impl Invocation {
    /// Appends the argument `a`.
    pub fn arg(&mut self, a: &str)
        ensures
            final(self)@ == (InvocationView { args: old(self)@.args.push(a@), ..old(self)@ }),
    {
        let ghost before = self.args@;
        self.args.push(a.to_owned());
        assert(texts(self.args@) =~= texts(before).push(a@));
    }
}

/// How a run ended, as the caller reports it.
#[derive(Debug)]
pub enum Outcome {
    /// The process could not be started, fed or waited for.
    NotRun,
    /// The process exited; `success` when its status was zero. The output
    /// streams hold what was captured, and are empty where nothing was.
    Exited { success: bool, stdout: Vec<u8>, stderr: Vec<u8> },
}

/// Whether the outcome is a successful exit.
pub open spec fn succeeded(o: Outcome) -> bool {
    o matches Outcome::Exited { success: true, .. }
}

/// What a compound operation asks of its caller next.
#[derive(Debug)]
pub enum Step {
    /// Run this and report its outcome.
    Run(Invocation),
    /// The installed `git` cannot do a sparse checkout: warn that it falls
    /// back to the slow path, then run this and report its outcome.
    Fallback(Invocation),
    /// The operation is complete.
    Finished,
    /// The operation failed and the run ends.
    Abort(Fatal),
}

} // verus!
