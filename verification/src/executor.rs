//! Running a tool's script: the process to start, and what its end means.

use vstd::prelude::*;
use crate::host::{Command, CommandView, ProcessResult, ProcessResultView};
use crate::json::{answer_from, answer_of, json_decoding, json_error_text, result_view};
use crate::text::{join2, lemma_occurs_between, lossy_text, occurs_in, utf8_lossy};
use vstd::utf8::{decode_utf8, valid_utf8};

verus! {

/// A process in the environment that every process of the bridge gets: it
/// starts in `home`, a directory known to be writable; the variables that
/// redirect the interpreter's library search are taken out; output is
/// unbuffered; and every temporary-directory variable names `home`.
pub open spec fn sanitized_of(
    program: Seq<char>,
    args: Seq<Seq<char>>,
    home: Seq<char>,
    input: Option<Seq<char>>,
) -> CommandView {
    CommandView {
        program,
        args,
        working_dir: Some(home),
        env_remove: seq!["PYTHONHOME"@, "PYTHONPATH"@],
        env_set: seq![
            ("PYTHONUNBUFFERED"@, "1"@),
            ("TMPDIR"@, home),
            ("TEMP"@, home),
            ("TMP"@, home),
        ],
        input,
    }
}

/// A process in the environment that every process of the bridge gets.
pub fn sanitized(program: &str, args: Vec<String>, home: &str, input: Option<String>) -> (command:
    Command)
    ensures
        command@ == sanitized_of(program@, args.deep_view(), home@, input.deep_view()),
{
    let mut env_remove: Vec<String> = Vec::new();
    env_remove.push("PYTHONHOME".to_owned());
    env_remove.push("PYTHONPATH".to_owned());
    assert(env_remove.deep_view() =~= seq!["PYTHONHOME"@, "PYTHONPATH"@]);
    let mut env_set: Vec<(String, String)> = Vec::new();
    env_set.push(("PYTHONUNBUFFERED".to_owned(), "1".to_owned()));
    env_set.push(("TMPDIR".to_owned(), home.to_owned()));
    env_set.push(("TEMP".to_owned(), home.to_owned()));
    env_set.push(("TMP".to_owned(), home.to_owned()));
    assert(env_set.deep_view() =~= seq![
        ("PYTHONUNBUFFERED"@, "1"@),
        ("TMPDIR"@, home@),
        ("TEMP"@, home@),
        ("TMP"@, home@),
    ]);
    Command {
        program: program.to_owned(),
        args,
        working_dir: Some(home.to_owned()),
        env_remove,
        env_set,
        input,
    }
}

/// The process that runs the script at `script`: the system interpreter at
/// its fixed path, not searched for, with the script as its only argument
/// and `payload` on its input stream.
pub open spec fn tool_command_of(script: Seq<char>, home: Seq<char>, payload: Seq<char>)
    -> CommandView {
    sanitized_of("/usr/bin/python3"@, seq![script], home, Some(payload))
}

/// The process that runs the script at `script`.
pub fn tool_command(script: String, home: &str, payload: String) -> (command: Command)
    ensures
        command@ == tool_command_of(script@, home@, payload@),
{
    let mut args: Vec<String> = Vec::new();
    args.push(script);
    assert(args.deep_view() =~= seq![script@]);
    sanitized("/usr/bin/python3", args, home, Some(payload))
}

/// The report of a script that ended in failure: both of its streams, as
/// they were captured.
pub open spec fn failure_report(stderr: Seq<char>, stdout: Seq<char>) -> Seq<char> {
    "Python script failed:\nSTDERR: "@ + stderr + "\nSTDOUT: "@ + stdout
}

/// The report of a script that ended in failure.
pub fn failure_message(stderr: &str, stdout: &str) -> (message: String)
    ensures
        message@ == failure_report(stderr@, stdout@),
{
    let mut message = join2("Python script failed:\nSTDERR: ", stderr);
    message.append("\nSTDOUT: ");
    message.append(stdout);
    message
}

/// What a run of a tool's script comes to. A run that could not be started,
/// fed or waited for is an error that says which. A script that ended in
/// failure is an error that carries both streams. A script that ended in
/// success answers with what its output decodes to, and is an error that
/// carries the output where that is no structured value.
pub open spec fn outcome_of(result: ProcessResultView) -> Result<serde_json::Value, Seq<char>> {
    match result {
        ProcessResultView::NotStarted(why) => Err("Failed to start Python process: "@ + why),
        ProcessResultView::InputFailed(why) => Err("Failed to write to Python stdin: "@ + why),
        ProcessResultView::OutputFailed(why) => Err("Failed to read Python output: "@ + why),
        ProcessResultView::Exited { success, stdout, stderr } => if success {
            answer_of(json_decoding(utf8_lossy(stdout)), utf8_lossy(stdout))
        } else {
            Err(failure_report(utf8_lossy(stderr), utf8_lossy(stdout)))
        },
    }
}

/// The outcome is an error whose message holds `text`.
pub open spec fn error_mentions(outcome: Result<serde_json::Value, Seq<char>>, text: Seq<char>)
    -> bool {
    match outcome {
        Ok(_) => false,
        Err(message) => occurs_in(text, message),
    }
}

/// What a run of a tool's script comes to. Where a stream held text, that
/// text itself stands in the message that carries the stream.
pub fn conclude(result: ProcessResult) -> (outcome: Result<serde_json::Value, String>)
    ensures
        result_view(outcome) == outcome_of(result@),
        result@ matches ProcessResultView::Exited { success, stdout, stderr } ==> {
            &&& !success && valid_utf8(stderr) ==> error_mentions(
                result_view(outcome),
                decode_utf8(stderr),
            )
            &&& outcome is Err && valid_utf8(stdout) ==> error_mentions(
                result_view(outcome),
                decode_utf8(stdout),
            )
        },
{
    match result {
        ProcessResult::NotStarted(why) => Err(
            join2("Failed to start Python process: ", why.as_str()),
        ),
        ProcessResult::InputFailed(why) => Err(
            join2("Failed to write to Python stdin: ", why.as_str()),
        ),
        ProcessResult::OutputFailed(why) => Err(
            join2("Failed to read Python output: ", why.as_str()),
        ),
        ProcessResult::Exited { success, stdout, stderr } => {
            let output = lossy_text(stdout.as_slice());
            if success {
                let decoded = crate::json::decode(output.as_str());
                proof {
                    if decoded is Err {
                        let error = decoded->Err_0;
                        lemma_occurs_between(
                            "Failed to parse Python output as JSON: "@ + json_error_text(error)
                                + " | Output: "@,
                            output@,
                            Seq::empty(),
                        );
                        assert(answer_of(decoded, output@)->Err_0 =~= "Failed to parse Python output as JSON: "@
                            + json_error_text(error) + " | Output: "@ + output@ + Seq::empty());
                    }
                }
                answer_from(decoded, output.as_str())
            } else {
                let diagnostics = lossy_text(stderr.as_slice());
                proof {
                    lemma_occurs_between(
                        "Python script failed:\nSTDERR: "@,
                        diagnostics@,
                        "\nSTDOUT: "@ + output@,
                    );
                    lemma_occurs_between(
                        "Python script failed:\nSTDERR: "@ + diagnostics@ + "\nSTDOUT: "@,
                        output@,
                        Seq::empty(),
                    );
                    let report = failure_report(diagnostics@, output@);
                    assert(report =~= "Python script failed:\nSTDERR: "@ + diagnostics@ + (
                    "\nSTDOUT: "@ + output@));
                    assert(report =~= "Python script failed:\nSTDERR: "@ + diagnostics@
                        + "\nSTDOUT: "@ + output@ + Seq::empty());
                }
                Err(failure_message(diagnostics.as_str(), output.as_str()))
            }
        },
    }
}

} // verus!
