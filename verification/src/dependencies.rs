//! Whether what the tools need is there: the interpreter, the libraries and
//! the media engine.

use vstd::prelude::*;
use crate::executor::{sanitized, sanitized_of};
use crate::host::{Command, CommandView, Reply, ReplyView, Step, StepView};
use crate::locations::{home_of, home_or_default};
use crate::text::owned_all;

verus! {

/// Something a tool's script needs in order to run.
#[derive(Clone, Copy, Debug)]
pub enum Dependency {
    /// The interpreter itself.
    Python,
    /// The video editing library.
    MoviePy,
    /// The media engine, an external binary.
    Ffmpeg,
    /// The imaging library.
    Pillow,
}

/// Whether a dependency is there.
#[derive(Clone, Copy, Debug)]
pub struct DependencyStatus {
    pub dependency: Dependency,
    pub available: bool,
}

/// The command whose success means that the dependency is there: a version
/// query for the interpreter and for the engine, an import for a library.
/// It runs in the same environment as a tool does.
pub open spec fn probe_of(dependency: Dependency, home: Seq<char>) -> CommandView {
    match dependency {
        Dependency::Python => sanitized_of("/usr/bin/python3"@, seq!["--version"@], home, None),
        Dependency::MoviePy => sanitized_of(
            "/usr/bin/python3"@,
            seq!["-c"@, "import moviepy"@],
            home,
            None,
        ),
        Dependency::Ffmpeg => sanitized_of("ffmpeg"@, seq!["-version"@], home, None),
        Dependency::Pillow => sanitized_of(
            "/usr/bin/python3"@,
            seq!["-c"@, "import PIL"@],
            home,
            None,
        ),
    }
}

impl Dependency {
    /// The command whose success means that the dependency is there.
    pub fn probe(self, home: &str) -> (command: Command)
        ensures
            command@ == probe_of(self, home@),
    {
        match self {
            Dependency::Python => {
                let args = owned_all(&["--version"]);
                assert(args.deep_view() =~= seq!["--version"@]);
                sanitized("/usr/bin/python3", args, home, None)
            },
            Dependency::MoviePy => {
                let args = owned_all(&["-c", "import moviepy"]);
                assert(args.deep_view() =~= seq!["-c"@, "import moviepy"@]);
                sanitized("/usr/bin/python3", args, home, None)
            },
            Dependency::Ffmpeg => {
                let args = owned_all(&["-version"]);
                assert(args.deep_view() =~= seq!["-version"@]);
                sanitized("ffmpeg", args, home, None)
            },
            Dependency::Pillow => {
                let args = owned_all(&["-c", "import PIL"]);
                assert(args.deep_view() =~= seq!["-c"@, "import PIL"@]);
                sanitized("/usr/bin/python3", args, home, None)
            },
        }
    }
}

/// A readiness check under way: the host owes it one run of the probe.
pub struct Check {
    pub dependency: Dependency,
    /// The directory in which the probe runs.
    pub home: String,
}

pub struct CheckView {
    pub dependency: Dependency,
    pub home: Seq<char>,
}

impl View for Check {
    type V = CheckView;

    open spec fn view(&self) -> CheckView {
        CheckView { dependency: self.dependency, home: self.home@ }
    }
}

/// A readiness check after a step: still waiting, or ended with the status.
pub enum CheckProgress {
    Continue(Check),
    Finished(DependencyStatus),
}

pub enum CheckProgressView {
    Continue(CheckView),
    Finished(DependencyStatus),
}

impl View for CheckProgress {
    type V = CheckProgressView;

    open spec fn view(&self) -> CheckProgressView {
        match self {
            CheckProgress::Continue(check) => CheckProgressView::Continue(check@),
            CheckProgress::Finished(status) => CheckProgressView::Finished(*status),
        }
    }
}

/// A check as it begins, in the home directory that the environment names
/// or, where it names none, in `/tmp`.
pub open spec fn check_of(dependency: Dependency, home: Option<Seq<char>>) -> CheckView {
    CheckView { dependency, home: home_of(home) }
}

/// A readiness check after the host's reply. The dependency is there exactly
/// when the probe was started, ran to its end and reported success; no reply
/// makes the check fail in any other way. A reply that does not answer the
/// probe leaves the check waiting.
pub open spec fn check_next_of(check: CheckView, reply: ReplyView) -> CheckProgressView {
    match reply {
        ReplyView::Ran(result) => CheckProgressView::Finished(
            DependencyStatus { dependency: check.dependency, available: result.succeeded() },
        ),
        _ => CheckProgressView::Continue(check),
    }
}

impl Check {
    /// The step that the host owes this check.
    pub fn pending(&self) -> (step: Step)
        ensures
            step@ == StepView::Run(probe_of(self@.dependency, self@.home)),
    {
        Step::Run(self.dependency.probe(self.home.as_str()))
    }

    /// Takes the host's reply to the probe.
    pub fn step(self, reply: Reply) -> (progress: CheckProgress)
        ensures
            progress@ == check_next_of(self@, reply@),
    {
        match reply {
            Reply::Ran(result) => CheckProgress::Finished(
                DependencyStatus { dependency: self.dependency, available: result.succeeded() },
            ),
            _ => CheckProgress::Continue(self),
        }
    }
}

/// Begins a check for `dependency`.
pub fn check(dependency: Dependency, home: Option<String>) -> (check: Check)
    ensures
        check@ == check_of(dependency, home.deep_view()),
{
    Check { dependency, home: home_or_default(home) }
}

/// Begins a check for the interpreter.
pub fn check_python(home: Option<String>) -> (check: Check)
    ensures
        check@ == check_of(Dependency::Python, home.deep_view()),
{
    self::check(Dependency::Python, home)
}

/// Begins a check for the video editing library.
pub fn check_moviepy(home: Option<String>) -> (check: Check)
    ensures
        check@ == check_of(Dependency::MoviePy, home.deep_view()),
{
    self::check(Dependency::MoviePy, home)
}

/// Begins a check for the media engine.
pub fn check_ffmpeg(home: Option<String>) -> (check: Check)
    ensures
        check@ == check_of(Dependency::Ffmpeg, home.deep_view()),
{
    self::check(Dependency::Ffmpeg, home)
}

/// Begins a check for the imaging library.
pub fn check_pillow(home: Option<String>) -> (check: Check)
    ensures
        check@ == check_of(Dependency::Pillow, home.deep_view()),
{
    self::check(Dependency::Pillow, home)
}

} // verus!
