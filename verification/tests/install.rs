use localtoolbox::host::{Command, ProcessResult, Reply, Step};
use localtoolbox::install::{
    diagnostics, install, install_ffmpeg, install_moviepy, install_pillow, Install,
    InstallOutcome, InstallProgress, Package,
};

fn strategy(install: &Install) -> Command {
    match install.pending() {
        Step::Run(command) => command,
        _ => panic!("an installation owes a run"),
    }
}

fn failed(stderr: &str) -> ProcessResult {
    ProcessResult::Exited {
        success: false,
        stdout: b"Collecting".to_vec(),
        stderr: stderr.as_bytes().to_vec(),
    }
}

fn worked() -> ProcessResult {
    ProcessResult::Exited { success: true, stdout: Vec::new(), stderr: b"a warning".to_vec() }
}

fn ended(progress: InstallProgress) -> InstallOutcome {
    match progress {
        InstallProgress::Finished(outcome) => outcome,
        InstallProgress::Continue(_) => panic!("the installation should have ended"),
    }
}

fn goes_on(progress: InstallProgress) -> Install {
    match progress {
        InstallProgress::Continue(install) => install,
        InstallProgress::Finished(outcome) => {
            panic!("the installation ended: {}", outcome.message)
        }
    }
}

fn words(list: &[&str]) -> Vec<String> {
    list.iter().map(|word| word.to_string()).collect()
}

#[test]
fn a_library_is_first_installed_with_the_system_override() {
    let moviepy = strategy(&install_moviepy(Some("/home/ada".to_string())));
    assert_eq!(moviepy.program, "/usr/bin/python3");
    assert_eq!(
        moviepy.args,
        words(&["-m", "pip", "install", "moviepy", "--user", "--break-system-packages"])
    );
    assert_eq!(moviepy.working_dir, Some("/home/ada".to_string()));
    assert_eq!(moviepy.env_remove, words(&["PYTHONHOME", "PYTHONPATH"]));
    assert_eq!(moviepy.env_set[0], ("PYTHONUNBUFFERED".to_string(), "1".to_string()));
    assert_eq!(moviepy.input, None);
    let pillow = strategy(&install_pillow(None));
    assert_eq!(
        pillow.args,
        words(&["-m", "pip", "install", "Pillow", "--user", "--break-system-packages"])
    );
    assert_eq!(pillow.working_dir, Some("/tmp".to_string()));
}

#[test]
fn the_first_success_ends_the_installation() {
    let outcome = ended(install_moviepy(None).step(Reply::Ran(worked())));
    assert!(outcome.success);
    assert_eq!(outcome.message, "MoviePy installed successfully");
    let outcome = ended(install_pillow(None).step(Reply::Ran(worked())));
    assert!(outcome.success);
    assert_eq!(outcome.message, "Pillow installed successfully");
    let outcome = ended(install_ffmpeg(None).step(Reply::Ran(worked())));
    assert!(outcome.success);
    assert_eq!(outcome.message, "FFmpeg installed successfully");
}

#[test]
fn a_failed_override_is_followed_by_a_plain_install() {
    let second = goes_on(install_pillow(None).step(Reply::Ran(failed("no such option"))));
    let command = strategy(&second);
    assert_eq!(command.program, "/usr/bin/python3");
    assert_eq!(command.args, words(&["-m", "pip", "install", "Pillow", "--user"]));
    let outcome = ended(second.step(Reply::Ran(worked())));
    assert!(outcome.success);
    assert_eq!(outcome.message, "Pillow installed successfully");
}

#[test]
fn two_failures_are_reported_together() {
    let second = goes_on(install_moviepy(None).step(Reply::Ran(failed("externally managed. "))));
    let outcome = ended(second.step(Reply::Ran(failed("no network"))));
    assert!(!outcome.success);
    assert_eq!(outcome.message, "Failed to install MoviePy: externally managed. no network");
}

#[test]
fn a_strategy_that_cannot_be_run_has_failed() {
    let second = goes_on(
        install_pillow(None).step(Reply::Ran(ProcessResult::NotStarted("not found. ".to_string()))),
    );
    let outcome = ended(
        second.step(Reply::Ran(ProcessResult::OutputFailed("interrupted".to_string()))),
    );
    assert!(!outcome.success);
    assert_eq!(outcome.message, "Failed to install Pillow: not found. interrupted");
}

#[test]
fn the_engine_has_one_strategy() {
    let engine = install_ffmpeg(Some("/home/ada".to_string()));
    let command = strategy(&engine);
    assert_eq!(command.program, "pkexec");
    assert_eq!(command.args, words(&["apt", "install", "-y", "ffmpeg"]));
    let outcome = ended(engine.step(Reply::Ran(failed("Request dismissed"))));
    assert!(!outcome.success);
    assert_eq!(
        outcome.message,
        "Failed to install FFmpeg (may require manual installation): Request dismissed"
    );
    let outcome = ended(
        install(Package::Ffmpeg, None)
            .step(Reply::Ran(ProcessResult::NotStarted("No such file".to_string()))),
    );
    assert!(!outcome.success);
    assert_eq!(
        outcome.message,
        "Failed to install FFmpeg (may require manual installation): No such file"
    );
}

#[test]
fn an_installation_waits_for_its_strategy() {
    let waiting = goes_on(install_moviepy(None).step(Reply::Done));
    assert_eq!(strategy(&waiting).args.len(), 6);
}

#[test]
fn diagnostics_are_what_an_attempt_reported() {
    assert_eq!(diagnostics(failed("bad")), "bad");
    assert_eq!(diagnostics(ProcessResult::NotStarted("why".to_string())), "why");
    assert_eq!(
        diagnostics(ProcessResult::Exited {
            success: false,
            stdout: Vec::new(),
            stderr: vec![0xc3, 0x28],
        }),
        "\u{fffd}("
    );
}
