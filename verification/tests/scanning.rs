use mlcheck::catalogue::Language;
use mlcheck::dispatch::{file_extension, language_for, process_file};
use mlcheck::error::ScanError;
use mlcheck::identity::GroupId;
use mlcheck::instant::Timestamp;
use mlcheck::scan::{FileReport, Mode, Reply, Request, Scan, Stage};
use mlcheck::sink::{Backend, SinkRequest};

const HEADER: &str = "file_name,target,description,detected,group_id,datetime\n";

fn id(value: u128) -> GroupId {
    GroupId::from_value(value)
}

fn at(seconds: i64) -> Timestamp {
    Timestamp::new(seconds, 0).expect("a plain instant")
}

/// Drives a scan to its end against a flat table held in memory. `contents`
/// gives the text of each file, `None` for one that cannot be read.
fn run_flat(
    mode: Mode,
    files: &[&str],
    contents: &[Option<&str>],
    destination: &mut String,
) -> (Scan, Request, Vec<String>) {
    let names: Vec<String> = files.iter().map(|f| f.to_string()).collect();
    let mut scan = Scan::new(mode, Backend::FlatTable, names);
    let mut shown = Vec::new();
    let mut reply = Reply::Begin;
    for _ in 0..1000 {
        let request = scan.advance(reply).expect("every reply answers the request before it");
        reply = match request {
            Request::Read(index) => match contents[index] {
                Some(text) => Reply::Content(text.to_string()),
                None => Reply::Unreadable,
            },
            Request::Probe => Reply::Length(destination.len() as u64),
            Request::Establish(SinkRequest::AppendText(text))
            | Request::Append { request: SinkRequest::AppendText(text), .. } => {
                destination.push_str(&text);
                Reply::Done
            }
            Request::Establish(other) | Request::Append { request: other, .. } => {
                panic!("a flat table gets text only, not {:?}", other)
            }
            Request::Report(index) => {
                shown.push(match &scan.reports()[index] {
                    FileReport::Scanned(summary) => {
                        format!("{}: {}%", summary.file_name, summary.percentage)
                    }
                    FileReport::Failed { file_name, error } => {
                        format!("{}: {}", file_name, error.message())
                    }
                });
                Reply::Reported
            }
            Request::Finished | Request::Aborted(_) => return (scan, request, shown),
        };
    }
    panic!("the scan did not end");
}

#[test]
fn extensions() {
    assert_eq!(file_extension("model.py"), Some(vec!['p', 'y']));
    assert_eq!(file_extension("a.b.Rmd"), Some(vec!['R', 'm', 'd']));
    assert_eq!(file_extension("trailing."), Some(vec![]));
    assert_eq!(file_extension(".py"), None);
    assert_eq!(file_extension("Makefile"), None);
    assert_eq!(file_extension(""), None);
    assert_eq!(file_extension("."), None);
    assert_eq!(file_extension("..py"), Some(vec!['p', 'y']));
}

#[test]
fn languages_by_extension() {
    assert_eq!(language_for("train.py"), Ok(Language::PythonLike));
    assert_eq!(language_for("explore.ipynb"), Ok(Language::PythonLike));
    assert_eq!(language_for("fit.R"), Ok(Language::RLike));
    assert_eq!(language_for("report.Rmd"), Ok(Language::RLike));
    assert_eq!(language_for("archive.tar.py"), Ok(Language::PythonLike));
    for other in ["notes.txt", "fit.r", "train.PY", "report.rmd", "py", ".py", ".R", "x.pyc", "x.", ""] {
        assert_eq!(language_for(other), Err(ScanError::UnsupportedExtension), "{:?}", other);
    }
}

#[test]
fn process_file_gives_summary_and_records() {
    let content = "from sklearn.model_selection import train_test_split\nX_train, X_test = train_test_split(X, y, random_state=42)";
    let (summary, records) = process_file("train.py", content, id(7), at(100)).expect("a Python file");
    assert_eq!(summary.file_name, "train.py");
    assert_eq!(summary.detected, 3);
    assert_eq!(summary.percentage, 60);
    assert_eq!(summary.group_id, id(7));
    assert_eq!(summary.timestamp, at(100));
    let detected: Vec<bool> = summary.outcomes.iter().map(|o| o.detected).collect();
    assert_eq!(detected, vec![true, true, false, true, false]);
    assert_eq!(records.len(), 5);
    for (record, outcome) in records.iter().zip(summary.outcomes.iter()) {
        assert_eq!(record.file_name, "train.py");
        assert_eq!(record.rule_signature, outcome.rule.signature);
        assert_eq!(record.detected, outcome.detected);
        assert_eq!(record.group_id, id(7));
        assert_eq!(record.timestamp, at(100));
    }
}

#[test]
fn process_file_refuses_other_extensions() {
    assert_eq!(process_file("notes.txt", "sklearn", id(1), at(1)).err(), Some(ScanError::UnsupportedExtension));
}

#[test]
fn process_file_uses_r_rules_for_r() {
    let (summary, _) = process_file("fit.R", "sklearn\nset.seed(3)\n", id(1), at(1)).unwrap();
    let found: Vec<(String, bool)> =
        summary.outcomes.iter().map(|o| (o.rule.signature.clone(), o.detected)).collect();
    assert_eq!(
        found,
        vec![
            ("tidymodels".to_string(), false),
            ("initial_split".to_string(), false),
            ("strata".to_string(), false),
            ("set.seed".to_string(), true),
            ("recipe".to_string(), false),
        ]
    );
    assert_eq!(summary.percentage, 20);
}

#[test]
fn single_file_scan_step_by_step() {
    let mut scan = Scan::new(Mode::SingleFile, Backend::FlatTable, vec!["train.py".to_string()]);
    assert_eq!(scan.stage(), Stage::Idle);
    assert!(matches!(scan.advance_with(Reply::Begin, id(1), at(1)), Some(Request::Read(0))));
    assert_eq!(scan.stage(), Stage::Reading);
    let request = scan.advance_with(Reply::Content("import sklearn\n".to_string()), id(9), at(50));
    assert!(matches!(request, Some(Request::Probe)));
    match scan.advance_with(Reply::Length(0), id(2), at(2)) {
        Some(Request::Establish(SinkRequest::AppendText(text))) => assert_eq!(text, HEADER),
        other => panic!("expected the header, got {:?}", other),
    }
    let signatures = ["sklearn", "train_test_split", "stratify", "random_state", "Pipeline"];
    for (k, signature) in signatures.iter().enumerate() {
        match scan.advance_with(Reply::Done, id(3), at(3)) {
            Some(Request::Append { record, request: SinkRequest::AppendText(text) }) => {
                assert_eq!(record.rule_signature, *signature);
                assert_eq!(record.detected, k == 0);
                assert_eq!(record.group_id, id(9));
                assert_eq!(record.timestamp, at(50));
                assert!(text.starts_with(&format!("train.py,{},", signature)));
                assert!(text.ends_with(",00000000-0000-0000-0000-000000000009,1970-01-01T00:00:50+00:00\n"));
            }
            other => panic!("expected an append, got {:?}", other),
        }
        assert_eq!(scan.stage(), Stage::Appending);
    }
    assert!(matches!(scan.advance_with(Reply::Done, id(4), at(4)), Some(Request::Report(0))));
    match &scan.reports()[0] {
        FileReport::Scanned(summary) => {
            assert_eq!(summary.percentage, 20);
            assert_eq!(summary.group_id, id(9));
        }
        other => panic!("expected a summary, got {:?}", other),
    }
    assert!(matches!(scan.advance_with(Reply::Reported, id(5), at(5)), Some(Request::Finished)));
    assert!(scan.is_closed());
    assert!(scan.advance_with(Reply::Begin, id(6), at(6)).is_none());
}

#[test]
fn reply_that_answers_nothing_changes_nothing() {
    let mut scan = Scan::new(Mode::SingleFile, Backend::FlatTable, vec!["train.py".to_string()]);
    assert!(scan.advance(Reply::Done).is_none());
    assert!(scan.advance(Reply::Length(3)).is_none());
    assert_eq!(scan.stage(), Stage::Idle);
    assert!(matches!(scan.advance(Reply::Begin), Some(Request::Read(0))));
    assert!(scan.advance(Reply::Begin).is_none());
    assert!(scan.advance(Reply::Reported).is_none());
    assert_eq!(scan.stage(), Stage::Reading);
    assert_eq!(scan.position(), 0);
    assert!(scan.reports().is_empty());
}

#[test]
fn relational_scan_needs_no_probe() {
    let mut scan = Scan::new(Mode::SingleFile, Backend::Relational, vec!["fit.R".to_string()]);
    assert!(matches!(scan.advance(Reply::Begin), Some(Request::Read(0))));
    match scan.advance(Reply::Content("recipe()".to_string())) {
        Some(Request::Establish(SinkRequest::Execute(statement))) => {
            assert!(statement.starts_with("CREATE TABLE IF NOT EXISTS mlcheck_results"))
        }
        other => panic!("expected the table statement, got {:?}", other),
    }
    let mut group = None;
    for _ in 0..5 {
        match scan.advance(Reply::Done) {
            Some(Request::Append { record, request: SinkRequest::Insert { statement, values } }) => {
                assert!(statement.starts_with("INSERT INTO mlcheck_results"));
                assert_eq!(values.target, record.rule_signature);
                assert_eq!(values.group_id, record.group_id.to_text());
                assert_eq!(values.datetime, record.timestamp.to_rfc3339());
                assert_eq!(*group.get_or_insert(record.group_id), record.group_id);
            }
            other => panic!("expected an insert, got {:?}", other),
        }
    }
    assert!(matches!(scan.advance(Reply::Done), Some(Request::Report(0))));
}

#[test]
fn directory_scan_goes_past_failures() {
    let mut destination = String::new();
    let (scan, last, shown) = run_flat(
        Mode::Directory,
        &["a.py", "notes.txt", "b.R", "gone.py"],
        &[Some("import sklearn\nPipeline\n"), Some("sklearn"), Some("library(tidymodels)"), None],
        &mut destination,
    );
    assert!(matches!(last, Request::Finished));
    assert_eq!(
        shown,
        vec![
            "a.py: 40%",
            "notes.txt: Unsupported file extension",
            "b.R: 20%",
            "gone.py: Could not read file",
        ]
    );
    assert_eq!(scan.reports().len(), 4);
    let lines: Vec<&str> = destination.lines().collect();
    assert_eq!(lines.len(), 11);
    assert_eq!(lines[0], HEADER.trim_end());
    assert!(lines[1..6].iter().all(|l| l.starts_with("a.py,")));
    assert!(lines[6..11].iter().all(|l| l.starts_with("b.R,")));
    assert!(lines[6].starts_with("b.R,tidymodels,Imports the tidymodels library,true,"));
    let group = |line: &str| line.split(',').nth(4).unwrap().to_string();
    let first = group(lines[1]);
    let second = group(lines[6]);
    assert!(lines[1..6].iter().all(|l| group(l) == first));
    assert!(lines[6..11].iter().all(|l| group(l) == second));
    assert_ne!(first, second);
    let instant = |line: &str| line.split(',').nth(5).unwrap().to_string();
    assert!(lines[1..6].iter().all(|l| instant(l) == instant(lines[1])));
}

#[test]
fn single_file_failure_aborts() {
    let mut destination = String::new();
    let (scan, last, shown) = run_flat(Mode::SingleFile, &["notes.txt"], &[Some("x")], &mut destination);
    assert!(matches!(last, Request::Aborted(ScanError::UnsupportedExtension)));
    assert_eq!(shown, vec!["notes.txt: Unsupported file extension"]);
    assert!(scan.is_closed());
    assert_eq!(destination, "");
    let (_, last, _) = run_flat(Mode::SingleFile, &["gone.py"], &[None], &mut destination);
    assert!(matches!(last, Request::Aborted(ScanError::ReadError)));
    assert_eq!(destination, "");
}

#[test]
fn two_runs_give_one_header_and_both_runs_records() {
    let mut destination = String::new();
    run_flat(Mode::SingleFile, &["a.py"], &[Some("stratify")], &mut destination);
    let after_first = destination.clone();
    run_flat(Mode::SingleFile, &["a.py"], &[Some("stratify\nPipeline")], &mut destination);
    let lines: Vec<&str> = destination.lines().collect();
    assert_eq!(lines.len(), 11);
    assert_eq!(lines.iter().filter(|l| **l == HEADER.trim_end()).count(), 1);
    assert_eq!(lines[0], HEADER.trim_end());
    assert!(destination.starts_with(&after_first));
    assert!(after_first.starts_with(HEADER));
    assert_eq!(after_first.lines().count(), 6);
    let detected: Vec<&str> = lines[1..].iter().map(|l| l.split(',').nth(3).unwrap()).collect();
    assert_eq!(
        detected,
        vec!["false", "false", "true", "false", "false", "false", "false", "true", "false", "true"]
    );
}

#[test]
fn refused_append_keeps_what_was_written() {
    let mut scan = Scan::new(
        Mode::Directory,
        Backend::FlatTable,
        vec!["a.py".to_string(), "b.py".to_string()],
    );
    scan.advance(Reply::Begin);
    scan.advance(Reply::Content("".to_string()));
    assert!(matches!(scan.advance(Reply::Length(10)), Some(Request::Append { .. })));
    assert!(matches!(scan.advance(Reply::Done), Some(Request::Append { .. })));
    assert!(matches!(scan.advance(Reply::Refused), Some(Request::Report(0))));
    assert!(matches!(
        &scan.reports()[0],
        FileReport::Failed { file_name, error: ScanError::SinkWriteError } if file_name == "a.py"
    ));
    assert!(matches!(scan.advance(Reply::Reported), Some(Request::Read(1))));
    assert_eq!(scan.position(), 1);
}

#[test]
fn refused_schema_fails_the_file() {
    let mut scan = Scan::new(Mode::SingleFile, Backend::FlatTable, vec!["a.py".to_string()]);
    scan.advance(Reply::Begin);
    assert!(matches!(scan.advance(Reply::Content("".to_string())), Some(Request::Probe)));
    assert!(matches!(scan.advance(Reply::Refused), Some(Request::Report(0))));
    assert!(matches!(scan.advance(Reply::Reported), Some(Request::Aborted(ScanError::SinkSchemaError))));
    let mut scan = Scan::new(Mode::SingleFile, Backend::FlatTable, vec!["a.py".to_string()]);
    scan.advance(Reply::Begin);
    scan.advance(Reply::Content("".to_string()));
    assert!(matches!(scan.advance(Reply::Length(0)), Some(Request::Establish(_))));
    assert!(matches!(scan.advance(Reply::Refused), Some(Request::Report(0))));
    assert!(matches!(scan.advance(Reply::Reported), Some(Request::Aborted(ScanError::SinkSchemaError))));
}

#[test]
fn scan_of_no_files_finishes_at_once() {
    let mut scan = Scan::new(Mode::Directory, Backend::Relational, Vec::new());
    assert!(matches!(scan.advance(Reply::Begin), Some(Request::Finished)));
    assert!(scan.is_closed());
    assert!(scan.files().is_empty());
    assert!(scan.reports().is_empty());
}

#[test]
fn identity_is_drawn_for_a_file_text_only() {
    let mut scan = Scan::new(Mode::SingleFile, Backend::FlatTable, vec!["a.py".to_string()]);
    assert!(!scan.makes_records(&Reply::Content("x".to_string())));
    assert!(!scan.makes_records(&Reply::Begin));
    scan.advance(Reply::Begin);
    assert!(scan.makes_records(&Reply::Content("x".to_string())));
    assert!(!scan.makes_records(&Reply::Unreadable));
    scan.advance(Reply::Content("x".to_string()));
    assert!(!scan.makes_records(&Reply::Content("x".to_string())));
}

#[test]
fn fresh_identity_for_every_file() {
    let names: Vec<String> = (0..20).map(|k| format!("f{}.py", k)).collect();
    let mut scan = Scan::new(Mode::Directory, Backend::Relational, names);
    let mut groups = Vec::new();
    let mut reply = Reply::Begin;
    loop {
        reply = match scan.advance(reply).expect("an answer") {
            Request::Read(_) => Reply::Content(String::new()),
            Request::Probe => panic!("the relational store is not probed"),
            Request::Establish(_) | Request::Append { .. } => Reply::Done,
            Request::Report(index) => {
                match &scan.reports()[index] {
                    FileReport::Scanned(summary) => groups.push(summary.group_id),
                    other => panic!("expected a summary, got {:?}", other),
                }
                Reply::Reported
            }
            Request::Finished => break,
            Request::Aborted(error) => panic!("aborted with {:?}", error),
        };
    }
    assert_eq!(groups.len(), 20);
    for (k, group) in groups.iter().enumerate() {
        assert!(!groups[..k].contains(group));
    }
}
