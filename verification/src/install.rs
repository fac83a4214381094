//! Installing what is missing, as far as the environment allows.
//!
//! Installing never fails hard: it ends with an outcome that says whether it
//! worked and, where it did not, what the attempts reported.

use vstd::prelude::*;
use crate::executor::{sanitized, sanitized_of};
use crate::host::{
    Command, CommandView, ProcessResult, ProcessResultView, Reply, ReplyView, Step, StepView,
};
use crate::locations::{home_of, home_or_default};
use crate::text::{join2, lossy_text, owned_all, utf8_lossy};

verus! {

/// Something the bridge knows how to install.
#[derive(Clone, Copy, Debug)]
pub enum Package {
    /// The video editing library, from the interpreter's package manager.
    MoviePy,
    /// The imaging library, from the interpreter's package manager.
    Pillow,
    /// The media engine, from the system's package manager.
    Ffmpeg,
}

/// How an installation ended.
pub struct InstallOutcome {
    pub success: bool,
    pub message: String,
}

pub struct InstallOutcomeView {
    pub success: bool,
    pub message: Seq<char>,
}

impl View for InstallOutcome {
    type V = InstallOutcomeView;

    open spec fn view(&self) -> InstallOutcomeView {
        InstallOutcomeView { success: self.success, message: self.message@ }
    }
}

impl Package {
    /// The name by which the interpreter's package manager knows a library.
    pub open spec fn library_name(self) -> Seq<char> {
        match self {
            Package::MoviePy => "moviepy"@,
            Package::Pillow => "Pillow"@,
            Package::Ffmpeg => "ffmpeg"@,
        }
    }

    /// Whether a second strategy is tried when the first fails: for the
    /// libraries, not for the engine.
    pub open spec fn has_fallback(self) -> bool {
        !(self is Ffmpeg)
    }

    /// The message of an installation that worked.
    pub open spec fn installed_report(self) -> Seq<char> {
        match self {
            Package::MoviePy => "MoviePy installed successfully"@,
            Package::Pillow => "Pillow installed successfully"@,
            Package::Ffmpeg => "FFmpeg installed successfully"@,
        }
    }

    /// What stands before the diagnostics where every strategy has failed.
    /// For the engine it says that installing by hand may be needed.
    pub open spec fn failed_prefix(self) -> Seq<char> {
        match self {
            Package::MoviePy => "Failed to install MoviePy: "@,
            Package::Pillow => "Failed to install Pillow: "@,
            Package::Ffmpeg => "Failed to install FFmpeg (may require manual installation): "@,
        }
    }

    /// The strategy to run: the first or, after a failure, the second. A
    /// library is first installed for the user with the system override,
    /// then for the user without it. The engine is installed through the
    /// system's package manager, with raised privileges. Every strategy runs
    /// in the same environment as a tool does.
    pub open spec fn strategy(self, after_failure: bool, home: Seq<char>) -> CommandView {
        match self {
            Package::Ffmpeg => sanitized_of(
                "pkexec"@,
                seq!["apt"@, "install"@, "-y"@, "ffmpeg"@],
                home,
                None,
            ),
            _ => sanitized_of(
                "/usr/bin/python3"@,
                if after_failure {
                    seq!["-m"@, "pip"@, "install"@, self.library_name(), "--user"@]
                } else {
                    seq![
                        "-m"@,
                        "pip"@,
                        "install"@,
                        self.library_name(),
                        "--user"@,
                        "--break-system-packages"@,
                    ]
                },
                home,
                None,
            ),
        }
    }

    fn name(self) -> (name: &'static str)
        ensures
            name@ == self.library_name(),
    {
        match self {
            Package::MoviePy => "moviepy",
            Package::Pillow => "Pillow",
            Package::Ffmpeg => "ffmpeg",
        }
    }

    fn command(self, after_failure: bool, home: &str) -> (command: Command)
        ensures
            command@ == self.strategy(after_failure, home@),
    {
        match self {
            Package::Ffmpeg => {
                let args = owned_all(&["apt", "install", "-y", "ffmpeg"]);
                assert(args.deep_view() =~= seq!["apt"@, "install"@, "-y"@, "ffmpeg"@]);
                sanitized("pkexec", args, home, None)
            },
            _ => {
                let name = self.name();
                let args = if after_failure {
                    let args = owned_all(&["-m", "pip", "install", name, "--user"]);
                    assert(args.deep_view() =~= seq![
                        "-m"@,
                        "pip"@,
                        "install"@,
                        name@,
                        "--user"@,
                    ]);
                    args
                } else {
                    let args = owned_all(
                        &["-m", "pip", "install", name, "--user", "--break-system-packages"],
                    );
                    assert(args.deep_view() =~= seq![
                        "-m"@,
                        "pip"@,
                        "install"@,
                        name@,
                        "--user"@,
                        "--break-system-packages"@,
                    ]);
                    args
                };
                sanitized("/usr/bin/python3", args, home, None)
            },
        }
    }

    /// The message of an installation that worked.
    pub fn installed_message(self) -> (message: String)
        ensures
            message@ == self.installed_report(),
    {
        match self {
            Package::MoviePy => "MoviePy installed successfully".to_owned(),
            Package::Pillow => "Pillow installed successfully".to_owned(),
            Package::Ffmpeg => "FFmpeg installed successfully".to_owned(),
        }
    }

    /// The message of an installation whose strategies have all failed and
    /// reported `diagnostics`.
    pub fn failed_message(self, diagnostics: &str) -> (message: String)
        ensures
            message@ == self.failed_prefix() + diagnostics@,
    {
        match self {
            Package::MoviePy => join2("Failed to install MoviePy: ", diagnostics),
            Package::Pillow => join2("Failed to install Pillow: ", diagnostics),
            Package::Ffmpeg => join2(
                "Failed to install FFmpeg (may require manual installation): ",
                diagnostics,
            ),
        }
    }
}

/// What an attempt reported: the diagnostic stream of a process that ran,
/// the reason of one that could not be run.
pub open spec fn diagnostics_of(result: ProcessResultView) -> Seq<char> {
    match result {
        ProcessResultView::NotStarted(why) => why,
        ProcessResultView::InputFailed(why) => why,
        ProcessResultView::OutputFailed(why) => why,
        ProcessResultView::Exited { stderr, .. } => utf8_lossy(stderr),
    }
}

/// What an attempt reported.
pub fn diagnostics(result: ProcessResult) -> (text: String)
    ensures
        text@ == diagnostics_of(result@),
{
    match result {
        ProcessResult::NotStarted(why) => why,
        ProcessResult::InputFailed(why) => why,
        ProcessResult::OutputFailed(why) => why,
        ProcessResult::Exited { stderr, .. } => lossy_text(stderr.as_slice()),
    }
}

/// An installation under way.
pub struct Install {
    package: Package,
    home: String,
    failed: Option<String>,
}

/// An installation under way: what is being installed, the directory in
/// which the strategies run and, once the first strategy has failed, what
/// it reported.
pub struct InstallView {
    pub package: Package,
    pub home: Seq<char>,
    pub failed: Option<Seq<char>>,
}

impl View for Install {
    type V = InstallView;

    closed spec fn view(&self) -> InstallView {
        InstallView { package: self.package, home: self.home@, failed: self.failed.deep_view() }
    }
}

/// An installation after a step: under way, or ended with its outcome.
pub enum InstallProgress {
    Continue(Install),
    Finished(InstallOutcome),
}

pub enum InstallProgressView {
    Continue(InstallView),
    Finished(InstallOutcomeView),
}

impl View for InstallProgress {
    type V = InstallProgressView;

    open spec fn view(&self) -> InstallProgressView {
        match self {
            InstallProgress::Continue(install) => InstallProgressView::Continue(install@),
            InstallProgress::Finished(outcome) => InstallProgressView::Finished(outcome@),
        }
    }
}

/// An installation as it begins: nothing has failed yet. The strategies run
/// in the home directory that the environment names or, where it names
/// none, in `/tmp`.
pub open spec fn install_of(package: Package, home: Option<Seq<char>>) -> InstallView {
    InstallView { package, home: home_of(home), failed: None }
}

/// The strategy that the host owes an installation.
pub open spec fn install_pending_of(install: InstallView) -> StepView {
    StepView::Run(install.package.strategy(install.failed is Some, install.home))
}

/// An installation after the host's reply to the pending strategy.
///
/// The first strategy that succeeds ends the installation with success, and
/// no strategy after it is run. A strategy that fails, whether it ran or
/// could not be run, is followed by the next, where there is one. Where
/// every strategy has failed, the outcome carries what each of them
/// reported, in order. A reply that does not answer the strategy leaves the
/// installation where it is.
pub open spec fn install_next_of(install: InstallView, reply: ReplyView) -> InstallProgressView {
    let package = install.package;
    match reply {
        ReplyView::Ran(result) => if result.succeeded() {
            InstallProgressView::Finished(
                InstallOutcomeView { success: true, message: package.installed_report() },
            )
        } else {
            match install.failed {
                None => if package.has_fallback() {
                    InstallProgressView::Continue(
                        InstallView { failed: Some(diagnostics_of(result)), ..install },
                    )
                } else {
                    InstallProgressView::Finished(
                        InstallOutcomeView {
                            success: false,
                            message: package.failed_prefix() + diagnostics_of(result),
                        },
                    )
                },
                Some(first) => InstallProgressView::Finished(
                    InstallOutcomeView {
                        success: false,
                        message: package.failed_prefix() + first + diagnostics_of(result),
                    },
                ),
            }
        },
        _ => InstallProgressView::Continue(install),
    }
}

impl Install {
    /// The step that the host owes this installation.
    pub fn pending(&self) -> (step: Step)
        ensures
            step@ == install_pending_of(self@),
    {
        Step::Run(self.package.command(self.failed.is_some(), self.home.as_str()))
    }

    /// Takes the host's reply to the pending strategy and moves on.
    pub fn step(self, reply: Reply) -> (progress: InstallProgress)
        ensures
            progress@ == install_next_of(self@, reply@),
    {
        let Install { package, home, failed } = self;
        match reply {
            Reply::Ran(result) => {
                if result.succeeded() {
                    return InstallProgress::Finished(
                        InstallOutcome { success: true, message: package.installed_message() },
                    );
                }
                let report = diagnostics(result);
                match failed {
                    None => match package {
                        Package::Ffmpeg => InstallProgress::Finished(
                            InstallOutcome {
                                success: false,
                                message: package.failed_message(report.as_str()),
                            },
                        ),
                        _ => InstallProgress::Continue(
                            Install { package, home, failed: Some(report) },
                        ),
                    },
                    Some(first) => {
                        let both = join2(first.as_str(), report.as_str());
                        assert(package.failed_prefix() + both@ =~= package.failed_prefix()
                            + first@ + report@);
                        InstallProgress::Finished(
                            InstallOutcome {
                                success: false,
                                message: package.failed_message(both.as_str()),
                            },
                        )
                    },
                }
            },
            _ => InstallProgress::Continue(Install { package, home, failed }),
        }
    }
}

/// Begins an installation of `package`.
pub fn install(package: Package, home: Option<String>) -> (install: Install)
    ensures
        install@ == install_of(package, home.deep_view()),
{
    Install { package, home: home_or_default(home), failed: None }
}

/// Begins an installation of the video editing library.
pub fn install_moviepy(home: Option<String>) -> (install: Install)
    ensures
        install@ == install_of(Package::MoviePy, home.deep_view()),
{
    self::install(Package::MoviePy, home)
}

/// Begins an installation of the imaging library.
pub fn install_pillow(home: Option<String>) -> (install: Install)
    ensures
        install@ == install_of(Package::Pillow, home.deep_view()),
{
    self::install(Package::Pillow, home)
}

/// Begins an installation of the media engine.
pub fn install_ffmpeg(home: Option<String>) -> (install: Install)
    ensures
        install@ == install_of(Package::Ffmpeg, home.deep_view()),
{
    self::install(Package::Ffmpeg, home)
}

} // verus!
