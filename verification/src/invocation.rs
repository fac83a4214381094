//! One invocation of a tool, from its identifier to its answer.
//!
//! An invocation first finds the tool's script: it has the host probe each
//! tier in order of priority and takes the first place where the script
//! exists. Where it exists nowhere and the bridge carries the script, the
//! script is installed in the user-local tier, unless a file has appeared
//! there meanwhile. Then the script is run and its end is turned into the
//! invocation's result.

use vstd::prelude::*;
use crate::executor::{conclude, outcome_of, tool_command, tool_command_of};
use crate::host::{CommandView, Reply, ReplyView, Step, StepView};
use crate::json::{encode, json_encoding, payload_from, payload_of, result_view};
use crate::locations::{
    home_or_default, install_dir, location, script_install_dir, script_location,
    script_relative_location, Environment, EnvironmentView, Tier,
};
use crate::scripts::{
    base_name, embedded_source, get_embedded_script, script_base_name, EmbeddedScriptTable,
    EmbeddedScriptView,
};
use crate::text::{debug_text, join2, path_debug};

verus! {

/// How far the search for the script has come.
pub enum StageView {
    /// The host was asked whether the script exists in `tier`; `carried` is
    /// the script that the bridge carries for the tool, if any.
    Probing { tier: Tier, carried: Option<Seq<char>> },
    /// The host was asked to create the directory to install `source` in.
    Preparing { source: Seq<char> },
    /// The host was asked whether a file stands where `source` is to go.
    Checking { source: Seq<char> },
    /// The host was asked to write `source` to its place.
    Installing { source: Seq<char> },
}

/// An invocation whose script is still being looked for.
pub struct ResolutionView {
    pub tool: Seq<char>,
    pub base: Seq<char>,
    pub params: serde_json::Value,
    pub exe_path: Seq<char>,
    pub exe_dir: Seq<char>,
    pub home: Seq<char>,
    pub stage: StageView,
}

/// An invocation under way.
pub enum ToolRunView {
    /// Its script is being looked for.
    Resolving(ResolutionView),
    /// Its script is running as this process.
    Running(CommandView),
}

/// An invocation after a step: under way, or ended with its result.
pub enum ProgressView {
    Continue(ToolRunView),
    Finished(Result<serde_json::Value, Seq<char>>),
}

impl ResolutionView {
    /// Where `tier` keeps this invocation's script.
    pub open spec fn candidate(self, tier: Tier) -> Seq<char> {
        location(tier, self.exe_dir, self.home, self.tool, self.base)
    }

    /// Where a carried script is installed: the user-local tier's place.
    pub open spec fn target(self) -> Seq<char> {
        self.candidate(Tier::UserLocal)
    }

    /// The same invocation at another stage.
    pub open spec fn at(self, stage: StageView) -> ResolutionView {
        ResolutionView { stage, ..self }
    }

    /// The error of an invocation whose script is nowhere and is not carried.
    pub open spec fn not_found_report(self) -> Seq<char> {
        not_found_text(self.tool, self.base, self.exe_dir, self.home, path_debug(self.exe_path))
    }
}

/// Every place where the script of `tool` is looked for, in search order,
/// with a comma and a space between one place and the next.
pub open spec fn places_tried(
    tool: Seq<char>,
    base: Seq<char>,
    exe_dir: Seq<char>,
    home: Seq<char>,
) -> Seq<char> {
    let place = |tier: Tier| location(tier, exe_dir, home, tool, base);
    let then = ", "@;
    place(Tier::Packaged) + then + place(Tier::UserLocal) + then + place(Tier::AppImageUsr)
        + then + place(Tier::AppImageShare) + then + place(Tier::System) + then + place(
        Tier::Development,
    )
}

/// The error of a script that is nowhere and is not carried: it names the
/// tool, every place that was tried, and the running executable as
/// `exe_shown` shows it.
pub open spec fn not_found_text(
    tool: Seq<char>,
    base: Seq<char>,
    exe_dir: Seq<char>,
    home: Seq<char>,
    exe_shown: Seq<char>,
) -> Seq<char> {
    "Python script not found. Tried multiple locations for "@ + tool + "/"@ + base + ".py: "@
        + places_tried(tool, base, exe_dir, home) + ". Current exe: "@ + exe_shown
}

/// The step that the host owes an invocation.
pub open spec fn pending_of(run: ToolRunView) -> StepView {
    match run {
        ToolRunView::Running(command) => StepView::Run(command),
        ToolRunView::Resolving(r) => match r.stage {
            StageView::Probing { tier, .. } => StepView::Probe(r.candidate(tier)),
            StageView::Preparing { .. } => StepView::CreateDir(install_dir(r.home, r.tool)),
            StageView::Checking { .. } => StepView::Probe(r.target()),
            StageView::Installing { source } => StepView::Write {
                path: r.target(),
                content: source,
            },
        },
    }
}

/// An invocation whose script was found at `script`: its parameters are
/// encoded and the script is run on them, or the invocation ends where they
/// cannot be encoded.
pub open spec fn launch_of(script: Seq<char>, home: Seq<char>, params: serde_json::Value)
    -> ProgressView {
    match payload_of(json_encoding(params)) {
        Ok(payload) => ProgressView::Continue(
            ToolRunView::Running(tool_command_of(script, home, payload)),
        ),
        Err(message) => ProgressView::Finished(Err(message)),
    }
}

/// An invocation after the host's reply to its pending step. A reply that
/// does not answer the pending step leaves the invocation where it is.
pub open spec fn next_of(run: ToolRunView, reply: ReplyView) -> ProgressView {
    match run {
        ToolRunView::Running(command) => match reply {
            ReplyView::Ran(result) => ProgressView::Finished(outcome_of(result)),
            _ => ProgressView::Continue(run),
        },
        ToolRunView::Resolving(r) => match (r.stage, reply) {
            (StageView::Probing { tier, .. }, ReplyView::Exists(true)) => launch_of(
                r.candidate(tier),
                r.home,
                r.params,
            ),
            (StageView::Probing { tier, carried }, ReplyView::Exists(false)) => match (
                tier.following(),
                carried,
            ) {
                (Some(next), _) => ProgressView::Continue(
                    ToolRunView::Resolving(r.at(StageView::Probing { tier: next, carried })),
                ),
                (None, Some(source)) => ProgressView::Continue(
                    ToolRunView::Resolving(r.at(StageView::Preparing { source })),
                ),
                (None, None) => ProgressView::Finished(Err(r.not_found_report())),
            },
            (StageView::Preparing { source }, ReplyView::Done) => ProgressView::Continue(
                ToolRunView::Resolving(r.at(StageView::Checking { source })),
            ),
            (StageView::Preparing { .. }, ReplyView::Failed(why)) => ProgressView::Finished(
                Err("Failed to create tools directory: "@ + why),
            ),
            (StageView::Checking { .. }, ReplyView::Exists(true)) => launch_of(
                r.target(),
                r.home,
                r.params,
            ),
            (StageView::Checking { source }, ReplyView::Exists(false)) => ProgressView::Continue(
                ToolRunView::Resolving(r.at(StageView::Installing { source })),
            ),
            (StageView::Installing { .. }, ReplyView::Done) => launch_of(
                r.target(),
                r.home,
                r.params,
            ),
            (StageView::Installing { .. }, ReplyView::Failed(why)) => ProgressView::Finished(
                Err("Failed to install script: "@ + why),
            ),
            _ => ProgressView::Continue(run),
        },
    }
}

/// An invocation as it begins: with a known executable the search starts at
/// the first tier; without one, the script is taken to stand at its relative
/// place and is run unseen.
pub open spec fn start_of(
    tool: Seq<char>,
    params: serde_json::Value,
    environment: EnvironmentView,
    scripts: Seq<EmbeddedScriptView>,
) -> ProgressView {
    let base = base_name(tool);
    let home = crate::locations::home_of(environment.home);
    match environment.exe {
        Some(exe) => ProgressView::Continue(
            ToolRunView::Resolving(
                ResolutionView {
                    tool,
                    base,
                    params,
                    exe_path: exe.path,
                    exe_dir: exe.dir,
                    home,
                    stage: StageView::Probing {
                        tier: Tier::Packaged,
                        carried: embedded_source(scripts, tool, base),
                    },
                },
            ),
        ),
        None => launch_of(crate::locations::relative_location(tool, base), home, params),
    }
}

enum Stage {
    Probing { tier: Tier, carried: Option<String> },
    Preparing { source: String },
    Checking { source: String },
    Installing { source: String },
}

impl View for Stage {
    type V = StageView;

    closed spec fn view(&self) -> StageView {
        match self {
            Stage::Probing { tier, carried } => StageView::Probing {
                tier: *tier,
                carried: carried.deep_view(),
            },
            Stage::Preparing { source } => StageView::Preparing { source: source@ },
            Stage::Checking { source } => StageView::Checking { source: source@ },
            Stage::Installing { source } => StageView::Installing { source: source@ },
        }
    }
}

/// An invocation whose script is still being looked for.
pub struct Resolution {
    tool: String,
    base: String,
    params: serde_json::Value,
    exe_path: String,
    exe_dir: String,
    home: String,
    stage: Stage,
}

impl View for Resolution {
    type V = ResolutionView;

    closed spec fn view(&self) -> ResolutionView {
        ResolutionView {
            tool: self.tool@,
            base: self.base@,
            params: self.params,
            exe_path: self.exe_path@,
            exe_dir: self.exe_dir@,
            home: self.home@,
            stage: self.stage@,
        }
    }
}

/// An invocation under way.
pub enum ToolRun {
    /// Its script is being looked for.
    Resolving(Resolution),
    /// Its script, found at `script`, is running in `home` on `payload`.
    Running { script: String, home: String, payload: String },
}

impl View for ToolRun {
    type V = ToolRunView;

    open spec fn view(&self) -> ToolRunView {
        match self {
            ToolRun::Resolving(resolution) => ToolRunView::Resolving(resolution@),
            ToolRun::Running { script, home, payload } => ToolRunView::Running(
                tool_command_of(script@, home@, payload@),
            ),
        }
    }
}

/// An invocation after a step: under way, or ended with its result.
pub enum Progress {
    Continue(ToolRun),
    Finished(Result<serde_json::Value, String>),
}

impl View for Progress {
    type V = ProgressView;

    open spec fn view(&self) -> ProgressView {
        match self {
            Progress::Continue(run) => ProgressView::Continue(run@),
            Progress::Finished(result) => ProgressView::Finished(result_view(*result)),
        }
    }
}

/// Every place where the script of `tool` is looked for, in search order.
pub fn places_to_try(tool: &str, base: &str, exe_dir: &str, home: &str) -> (places: String)
    ensures
        places@ == places_tried(tool@, base@, exe_dir@, home@),
{
    let mut places = script_location(Tier::Packaged, exe_dir, home, tool, base);
    places.append(", ");
    places.append(script_location(Tier::UserLocal, exe_dir, home, tool, base).as_str());
    places.append(", ");
    places.append(script_location(Tier::AppImageUsr, exe_dir, home, tool, base).as_str());
    places.append(", ");
    places.append(script_location(Tier::AppImageShare, exe_dir, home, tool, base).as_str());
    places.append(", ");
    places.append(script_location(Tier::System, exe_dir, home, tool, base).as_str());
    places.append(", ");
    places.append(script_location(Tier::Development, exe_dir, home, tool, base).as_str());
    places
}

/// The error of a script that is nowhere and is not carried.
pub fn not_found_message(tool: &str, base: &str, exe_dir: &str, home: &str, exe_shown: &str) -> (message:
    String)
    ensures
        message@ == not_found_text(tool@, base@, exe_dir@, home@, exe_shown@),
{
    let mut message = join2("Python script not found. Tried multiple locations for ", tool);
    message.append("/");
    message.append(base);
    message.append(".py: ");
    message.append(places_to_try(tool, base, exe_dir, home).as_str());
    message.append(". Current exe: ");
    message.append(exe_shown);
    message
}

/// Encodes the parameters and starts the script found at `script`.
fn launch(script: String, home: String, params: &serde_json::Value) -> (progress: Progress)
    ensures
        progress@ == launch_of(script@, home@, *params),
{
    match payload_from(encode(params)) {
        Ok(payload) => Progress::Continue(ToolRun::Running { script, home, payload }),
        Err(message) => Progress::Finished(Err(message)),
    }
}

impl Resolution {
    fn candidate(&self, tier: Tier) -> (path: String)
        ensures
            path@ == self@.candidate(tier),
    {
        script_location(
            tier,
            self.exe_dir.as_str(),
            self.home.as_str(),
            self.tool.as_str(),
            self.base.as_str(),
        )
    }

    fn not_found_message(&self) -> (message: String)
        ensures
            message@ == self@.not_found_report(),
    {
        let exe_shown = debug_text(self.exe_path.as_str());
        not_found_message(
            self.tool.as_str(),
            self.base.as_str(),
            self.exe_dir.as_str(),
            self.home.as_str(),
            exe_shown.as_str(),
        )
    }

    fn pending(&self) -> (step: Step)
        ensures
            step@ == pending_of(ToolRunView::Resolving(self@)),
    {
        match &self.stage {
            Stage::Probing { tier, .. } => Step::Probe(self.candidate(*tier)),
            Stage::Preparing { .. } => Step::CreateDir(
                script_install_dir(self.home.as_str(), self.tool.as_str()),
            ),
            Stage::Checking { .. } => Step::Probe(self.candidate(Tier::UserLocal)),
            Stage::Installing { source } => Step::Write {
                path: self.candidate(Tier::UserLocal),
                content: source.clone(),
            },
        }
    }

    fn found(self, script: String) -> (progress: Progress)
        ensures
            progress@ == launch_of(script@, self@.home, self@.params),
    {
        launch(script, self.home, &self.params)
    }

    fn at(self, stage: Stage) -> (progress: Progress)
        ensures
            progress@ == ProgressView::Continue(ToolRunView::Resolving(self@.at(stage@))),
    {
        Progress::Continue(
            ToolRun::Resolving(
                Resolution {
                    tool: self.tool,
                    base: self.base,
                    params: self.params,
                    exe_path: self.exe_path,
                    exe_dir: self.exe_dir,
                    home: self.home,
                    stage,
                },
            ),
        )
    }

    fn step(self, reply: Reply) -> (progress: Progress)
        ensures
            progress@ == next_of(ToolRunView::Resolving(self@), reply@),
    {
        let Resolution { tool, base, params, exe_path, exe_dir, home, stage } = self;
        match (stage, reply) {
            (Stage::Probing { tier, carried }, Reply::Exists(exists)) => {
                let r = Resolution {
                    tool,
                    base,
                    params,
                    exe_path,
                    exe_dir,
                    home,
                    stage: Stage::Probing { tier, carried: None },
                };
                if exists {
                    let script = r.candidate(tier);
                    r.found(script)
                } else {
                    match (tier.next(), carried) {
                        (Some(next), carried) => r.at(Stage::Probing { tier: next, carried }),
                        (None, Some(source)) => r.at(Stage::Preparing { source }),
                        (None, None) => Progress::Finished(Err(r.not_found_message())),
                    }
                }
            },
            (Stage::Preparing { source }, Reply::Done) => {
                let r = Resolution {
                    tool,
                    base,
                    params,
                    exe_path,
                    exe_dir,
                    home,
                    stage: Stage::Probing { tier: Tier::Packaged, carried: None },
                };
                r.at(Stage::Checking { source })
            },
            (Stage::Preparing { .. }, Reply::Failed(why)) => Progress::Finished(
                Err(join2("Failed to create tools directory: ", why.as_str())),
            ),
            (Stage::Checking { source }, Reply::Exists(exists)) => {
                let r = Resolution {
                    tool,
                    base,
                    params,
                    exe_path,
                    exe_dir,
                    home,
                    stage: Stage::Probing { tier: Tier::Packaged, carried: None },
                };
                if exists {
                    let script = r.candidate(Tier::UserLocal);
                    r.found(script)
                } else {
                    r.at(Stage::Installing { source })
                }
            },
            (Stage::Installing { .. }, Reply::Done) => {
                let r = Resolution {
                    tool,
                    base,
                    params,
                    exe_path,
                    exe_dir,
                    home,
                    stage: Stage::Probing { tier: Tier::Packaged, carried: None },
                };
                let script = r.candidate(Tier::UserLocal);
                r.found(script)
            },
            (Stage::Installing { .. }, Reply::Failed(why)) => Progress::Finished(
                Err(join2("Failed to install script: ", why.as_str())),
            ),
            (stage, _) => Progress::Continue(
                ToolRun::Resolving(
                    Resolution { tool, base, params, exe_path, exe_dir, home, stage },
                ),
            ),
        }
    }
}

impl ToolRun {
    /// The step that the host owes this invocation.
    pub fn pending(&self) -> (step: Step)
        ensures
            step@ == pending_of(self@),
    {
        match self {
            ToolRun::Resolving(resolution) => resolution.pending(),
            ToolRun::Running { script, home, payload } => Step::Run(
                tool_command(script.clone(), home.as_str(), payload.clone()),
            ),
        }
    }

    /// Takes the host's reply to the pending step and moves on.
    pub fn step(self, reply: Reply) -> (progress: Progress)
        ensures
            progress@ == next_of(self@, reply@),
    {
        match self {
            ToolRun::Resolving(resolution) => resolution.step(reply),
            ToolRun::Running { script, home, payload } => match reply {
                Reply::Ran(result) => Progress::Finished(conclude(result)),
                _ => Progress::Continue(ToolRun::Running { script, home, payload }),
            },
        }
    }
}

/// Begins an invocation of `tool` on `params`.
pub fn run_python_tool(
    tool: String,
    params: serde_json::Value,
    environment: Environment,
    scripts: &EmbeddedScriptTable,
) -> (progress: Progress)
    ensures
        progress@ == start_of(tool@, params, environment@, scripts@),
{
    let base = script_base_name(tool.as_str());
    let home = home_or_default(environment.home);
    match environment.exe {
        Some(exe) => {
            let carried = match get_embedded_script(scripts, tool.as_str(), base.as_str()) {
                Some(source) => Some(source.to_owned()),
                None => None,
            };
            Progress::Continue(
                ToolRun::Resolving(
                    Resolution {
                        tool,
                        base,
                        params,
                        exe_path: exe.path,
                        exe_dir: exe.dir,
                        home,
                        stage: Stage::Probing { tier: Tier::Packaged, carried },
                    },
                ),
            )
        },
        None => {
            let script = script_relative_location(tool.as_str(), base.as_str());
            launch(script, home, &params)
        },
    }
}

} // verus!
