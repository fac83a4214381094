use std::collections::BTreeMap;

use localtoolbox::host::{Command, Reply, Step};
use localtoolbox::invocation::{run_python_tool, Progress};
use localtoolbox::locations::{Environment, Executable};
use localtoolbox::scripts::EmbeddedScriptTable;
use serde_json::Value;

/// A disk that remembers what was asked of it.
struct Disk {
    files: BTreeMap<String, String>,
    created: Vec<String>,
    written: Vec<String>,
    probed: Vec<String>,
    refuse_dirs: Option<String>,
    refuse_writes: Option<String>,
}

impl Disk {
    fn new(paths: &[&str]) -> Disk {
        let mut files = BTreeMap::new();
        for path in paths {
            files.insert(path.to_string(), format!("# {}", path));
        }
        Disk {
            files,
            created: Vec::new(),
            written: Vec::new(),
            probed: Vec::new(),
            refuse_dirs: None,
            refuse_writes: None,
        }
    }
}

enum Search {
    Runs(Command),
    Ends(Result<Value, String>),
}

/// Answers every step of the search from `disk`, up to the run of the script.
fn search(mut progress: Progress, disk: &mut Disk) -> Search {
    loop {
        let run = match progress {
            Progress::Finished(result) => return Search::Ends(result),
            Progress::Continue(run) => run,
        };
        let reply = match run.pending() {
            Step::Probe(path) => {
                disk.probed.push(path.clone());
                Reply::Exists(disk.files.contains_key(&path))
            }
            Step::CreateDir(path) => match &disk.refuse_dirs {
                Some(why) => Reply::Failed(why.clone()),
                None => {
                    disk.created.push(path);
                    Reply::Done
                }
            },
            Step::Write { path, content } => match &disk.refuse_writes {
                Some(why) => Reply::Failed(why.clone()),
                None => {
                    disk.written.push(path.clone());
                    disk.files.insert(path, content);
                    Reply::Done
                }
            },
            Step::Run(command) => return Search::Runs(command),
            Step::List(path) => panic!("the search listed {}", path),
        };
        progress = run.step(reply);
    }
}

fn environment() -> Environment {
    Environment {
        exe: Some(Executable {
            path: "/opt/app/bin/localtoolbox".to_string(),
            dir: "/opt/app/bin".to_string(),
        }),
        home: Some("/home/ada".to_string()),
    }
}

fn carried() -> EmbeddedScriptTable {
    let mut table = EmbeddedScriptTable::new();
    table.add("video_add_audio", "addaudio", "import sys\nprint('{}')\n");
    table.add("image_compressor", "compress", "import json\n");
    table
}

fn begin(tool: &str, table: &EmbeddedScriptTable) -> Progress {
    run_python_tool(tool.to_string(), Value::Null, environment(), table)
}

fn script_of(found: Search) -> String {
    match found {
        Search::Runs(command) => {
            assert_eq!(command.args.len(), 1);
            command.args[0].clone()
        }
        Search::Ends(result) => panic!("the invocation ended: {:?}", result),
    }
}

const TIERS: [&str; 6] = [
    "/opt/app/bin/tools/video_add_audio/addaudio.py",
    "/home/ada/.local/share/localtoolbox/tools/video_add_audio/addaudio.py",
    "/opt/app/bin/usr/share/localtoolbox/tools/video_add_audio/addaudio.py",
    "/opt/app/bin/share/localtoolbox/tools/video_add_audio/addaudio.py",
    "/usr/share/localtoolbox/tools/video_add_audio/addaudio.py",
    "/opt/app/bin/../tools/video_add_audio/addaudio.py",
];

#[test]
fn a_script_in_one_tier_is_found_whichever_tier_it_is() {
    let table = EmbeddedScriptTable::new();
    for (rank, place) in TIERS.iter().enumerate() {
        let mut disk = Disk::new(&[place]);
        let first = script_of(search(begin("video_add_audio", &table), &mut disk));
        assert_eq!(&first, place);
        assert_eq!(disk.probed, TIERS[..rank + 1].to_vec());
        let again = script_of(search(begin("video_add_audio", &table), &mut disk));
        assert_eq!(again, first);
        assert!(disk.written.is_empty());
        assert!(disk.created.is_empty());
    }
}

#[test]
fn of_two_tiers_the_one_searched_first_wins() {
    let table = carried();
    for high in 0..TIERS.len() {
        for low in high + 1..TIERS.len() {
            let mut disk = Disk::new(&[TIERS[low], TIERS[high]]);
            let found = script_of(search(begin("video_add_audio", &table), &mut disk));
            assert_eq!(found, TIERS[high]);
            assert!(!disk.probed.contains(&TIERS[low].to_string()));
        }
    }
}

#[test]
fn an_unknown_tool_that_is_nowhere_fails_by_name() {
    let table = carried();
    let mut disk = Disk::new(&[]);
    let found = search(begin("unknown_tool", &table), &mut disk);
    let message = match found {
        Search::Ends(Err(message)) => message,
        _ => panic!("the search should have failed"),
    };
    assert!(message.contains("unknown_tool"));
    assert_eq!(
        message,
        "Python script not found. Tried multiple locations for unknown_tool/unknowntool.py: \
         /opt/app/bin/tools/unknown_tool/unknowntool.py, \
         /home/ada/.local/share/localtoolbox/tools/unknown_tool/unknowntool.py, \
         /opt/app/bin/usr/share/localtoolbox/tools/unknown_tool/unknowntool.py, \
         /opt/app/bin/share/localtoolbox/tools/unknown_tool/unknowntool.py, \
         /usr/share/localtoolbox/tools/unknown_tool/unknowntool.py, \
         /opt/app/bin/../tools/unknown_tool/unknowntool.py. \
         Current exe: \"/opt/app/bin/localtoolbox\""
    );
    assert_eq!(disk.probed.len(), 6);
    assert!(disk.written.is_empty());
    assert!(disk.created.is_empty());
}

#[test]
fn the_executable_is_named_the_way_paths_print() {
    let table = EmbeddedScriptTable::new();
    let environment = Environment {
        exe: Some(Executable { path: "/opt/it's\there/app".to_string(), dir: "/opt".to_string() }),
        home: None,
    };
    let progress = run_python_tool("nothing".to_string(), Value::Null, environment, &table);
    let message = match search(progress, &mut Disk::new(&[])) {
        Search::Ends(Err(message)) => message,
        _ => panic!("the search should have failed"),
    };
    let expected = format!("{:?}", std::path::Path::new("/opt/it's\there/app"));
    assert!(message.ends_with(&format!(". Current exe: {}", expected)));
    assert!(message.contains("/tmp/.local/share/localtoolbox/tools/nothing/nothing.py"));
}

#[test]
fn a_carried_script_is_installed_once() {
    let table = carried();
    let mut disk = Disk::new(&[]);
    let first = script_of(search(begin("video_add_audio", &table), &mut disk));
    assert_eq!(first, TIERS[1]);
    assert_eq!(disk.created, vec!["/home/ada/.local/share/localtoolbox/tools/video_add_audio"]);
    assert_eq!(disk.written, vec![TIERS[1]]);
    assert_eq!(disk.files.len(), 1);
    assert_eq!(disk.files[TIERS[1]], "import sys\nprint('{}')\n");
    // Six tiers, then the place itself once more before it is written.
    assert_eq!(disk.probed.len(), 7);
    assert_eq!(disk.probed[6], TIERS[1]);

    let second = script_of(search(begin("video_add_audio", &table), &mut disk));
    assert_eq!(second, first);
    assert_eq!(disk.written, vec![TIERS[1]]);
    assert_eq!(disk.created.len(), 1);
    assert_eq!(disk.files[TIERS[1]], "import sys\nprint('{}')\n");
}

#[test]
fn a_file_that_appears_meanwhile_is_left_alone() {
    let table = carried();
    let mut progress = begin("image_compressor", &table);
    let place = "/home/ada/.local/share/localtoolbox/tools/image_compressor/compress.py";
    let mut probes = 0;
    loop {
        let run = match progress {
            Progress::Continue(run) => run,
            Progress::Finished(result) => panic!("the invocation ended: {:?}", result),
        };
        let reply = match run.pending() {
            Step::Probe(path) => {
                probes += 1;
                // Nothing is there during the search; the file is there when
                // the place is looked at again before writing.
                Reply::Exists(probes == 7 && path == place)
            }
            Step::CreateDir(_) => Reply::Done,
            Step::Write { .. } => panic!("the file was written over"),
            Step::Run(command) => {
                assert_eq!(command.args, vec![place.to_string()]);
                break;
            }
            Step::List(_) => panic!("the search listed a directory"),
        };
        progress = run.step(reply);
    }
    assert_eq!(probes, 7);
}

#[test]
fn a_directory_that_cannot_be_created_ends_the_invocation() {
    let table = carried();
    let mut disk = Disk::new(&[]);
    disk.refuse_dirs = Some("Permission denied (os error 13)".to_string());
    match search(begin("video_add_audio", &table), &mut disk) {
        Search::Ends(Err(message)) => assert_eq!(
            message,
            "Failed to create tools directory: Permission denied (os error 13)"
        ),
        _ => panic!("the search should have failed"),
    }
    assert!(disk.written.is_empty());
}

#[test]
fn a_script_that_cannot_be_written_ends_the_invocation() {
    let table = carried();
    let mut disk = Disk::new(&[]);
    disk.refuse_writes = Some("No space left on device (os error 28)".to_string());
    match search(begin("video_add_audio", &table), &mut disk) {
        Search::Ends(Err(message)) => assert_eq!(
            message,
            "Failed to install script: No space left on device (os error 28)"
        ),
        _ => panic!("the search should have failed"),
    }
}

#[test]
fn without_a_known_executable_the_relative_place_is_run_unseen() {
    let table = carried();
    let environment = Environment { exe: None, home: Some("/home/ada".to_string()) };
    let progress = run_python_tool("pdf_merge".to_string(), Value::Null, environment, &table);
    let mut disk = Disk::new(&[]);
    let found = script_of(search(progress, &mut disk));
    assert_eq!(found, "../tools/pdf_merge/pdfmerge.py");
    assert!(disk.probed.is_empty());
}

#[test]
fn a_reply_that_answers_nothing_changes_nothing() {
    let table = carried();
    let run = match begin("video_add_audio", &table) {
        Progress::Continue(run) => run,
        Progress::Finished(_) => panic!("the invocation ended at once"),
    };
    let run = match run.step(Reply::Done) {
        Progress::Continue(run) => run,
        Progress::Finished(_) => panic!("the invocation ended on a stray reply"),
    };
    let run = match run.step(Reply::Failed("stray".to_string())) {
        Progress::Continue(run) => run,
        Progress::Finished(_) => panic!("the invocation ended on a stray reply"),
    };
    match run.pending() {
        Step::Probe(path) => assert_eq!(path, TIERS[0]),
        _ => panic!("the search should still stand at the first tier"),
    }
}
