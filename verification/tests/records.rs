use mlcheck::catalogue::{rule, rule_set_for, Language};
use mlcheck::delimited::quote_field;
use mlcheck::error::ScanError;
use mlcheck::evaluator::evaluate;
use mlcheck::identity::{generate_group_id, GroupId};
use mlcheck::instant::{Timestamp, MAX_SECONDS, MIN_SECONDS};
use mlcheck::record::build_records;
use mlcheck::sink::{render_row, Backend, SinkRequest};

fn sample_id() -> GroupId {
    GroupId::from_value(0x67e55044_10b1_426f_9247_bb680e5fe0c8)
}

fn sample_time() -> Timestamp {
    Timestamp::new(1_714_566_600, 250_000_000).expect("an instant in 2024")
}

/// Reads a row of the flat table back, without the line feed that ends it:
/// commas outside quotes part the fields, and two double quotes inside quotes
/// stand for one.
fn read_row(row: &str) -> Vec<String> {
    let mut fields = Vec::new();
    let mut current = String::new();
    let mut in_quotes = false;
    let mut chars = row.chars().peekable();
    while let Some(c) = chars.next() {
        if in_quotes {
            if c != '"' {
                current.push(c);
            } else if chars.peek() == Some(&'"') {
                chars.next();
                current.push('"');
            } else {
                in_quotes = false;
            }
        } else if c == ',' {
            fields.push(std::mem::take(&mut current));
        } else if c == '"' && current.is_empty() {
            in_quotes = true;
        } else {
            current.push(c);
        }
    }
    fields.push(current);
    fields
}

#[test]
fn rule_sets_by_tag() {
    let python = rule_set_for("python-like").expect("python-like is supported");
    let signatures: Vec<&str> = python.iter().map(|r| r.signature.as_str()).collect();
    assert_eq!(signatures, vec!["sklearn", "train_test_split", "stratify", "random_state", "Pipeline"]);
    assert_eq!(python[4].description, "Uses a pipeline to guard against data leakage");
    let r = rule_set_for("r-like").expect("r-like is supported");
    let signatures: Vec<&str> = r.iter().map(|r| r.signature.as_str()).collect();
    assert_eq!(signatures, vec!["tidymodels", "initial_split", "strata", "set.seed", "recipe"]);
    assert_eq!(r[0].description, "Imports the tidymodels library");
}

#[test]
fn unknown_tag_is_unsupported_language() {
    assert_eq!(rule_set_for("julia-like").err(), Some(ScanError::UnsupportedLanguage));
    assert_eq!(rule_set_for("").err(), Some(ScanError::UnsupportedLanguage));
    assert_eq!(rule_set_for("Python-like").err(), Some(ScanError::UnsupportedLanguage));
}

#[test]
fn tags_name_their_languages() {
    assert_eq!(Language::from_tag(Language::PythonLike.tag()), Some(Language::PythonLike));
    assert_eq!(Language::from_tag(Language::RLike.tag()), Some(Language::RLike));
    assert_eq!(Language::PythonLike.tag(), "python-like");
    assert_eq!(Language::RLike.tag(), "r-like");
}

#[test]
fn canonical_text_of_group_id() {
    assert_eq!(sample_id().to_text(), "67e55044-10b1-426f-9247-bb680e5fe0c8");
    assert_eq!(GroupId::from_value(0).to_text(), "00000000-0000-0000-0000-000000000000");
    assert_eq!(GroupId::from_value(u128::MAX).to_text(), "ffffffff-ffff-ffff-ffff-ffffffffffff");
    assert_eq!(
        GroupId::from_value(0x0123456789abcdef0123456789abcdef).to_text(),
        "01234567-89ab-cdef-0123-456789abcdef"
    );
}

#[test]
fn group_id_parses_back() {
    let id = generate_group_id();
    let parsed = uuid::Uuid::parse_str(&id.to_text()).expect("canonical text");
    assert_eq!(parsed.as_u128(), id.value);
}

#[test]
fn generated_group_ids_are_random_uuids() {
    let first = generate_group_id();
    let second = generate_group_id();
    assert_ne!(first, second);
    for id in [first, second] {
        assert_eq!(id.value & 0x0000_0000_0000_f000_c000_0000_0000_0000, 0x0000_0000_0000_4000_8000_0000_0000_0000);
        let text = id.to_text();
        assert_eq!(text.len(), 36);
        assert_eq!(&text[14..15], "4");
    }
}

#[test]
fn rfc3339_text_of_timestamp() {
    assert_eq!(Timestamp::new(0, 0).unwrap().to_rfc3339(), "1970-01-01T00:00:00+00:00");
    assert_eq!(sample_time().to_rfc3339(), "2024-05-01T12:30:00.250+00:00");
    assert_eq!(Timestamp::new(-1, 1).unwrap().to_rfc3339(), "1969-12-31T23:59:59.000000001+00:00");
    assert_eq!(sample_time().seconds(), 1_714_566_600);
    assert_eq!(sample_time().nanos(), 250_000_000);
}

#[test]
fn timestamp_exists_within_the_years_that_can_be_held() {
    assert_eq!(MIN_SECONDS, -8_334_601_228_800);
    assert_eq!(MAX_SECONDS, 8_210_266_876_799);
    assert!(Timestamp::new(MIN_SECONDS, 0).is_some());
    assert!(Timestamp::new(MIN_SECONDS - 1, 0).is_none());
    assert!(Timestamp::new(MIN_SECONDS - 1, 999_999_999).is_none());
    assert!(Timestamp::new(MAX_SECONDS, 999_999_999).is_some());
    assert!(Timestamp::new(MAX_SECONDS, 1_999_999_999).is_some());
    assert!(Timestamp::new(MAX_SECONDS + 1, 0).is_none());
    assert!(Timestamp::new(i64::MAX, 0).is_none());
    assert!(Timestamp::new(i64::MIN, 0).is_none());
    assert_eq!(Timestamp::new(MIN_SECONDS, 0).unwrap().to_rfc3339(), "-262143-01-01T00:00:00+00:00");
    assert_eq!(
        Timestamp::new(MAX_SECONDS, 999_999_999).unwrap().to_rfc3339(),
        "+262142-12-31T23:59:59.999999999+00:00"
    );
}

#[test]
fn leap_second_only_in_the_last_second_of_a_minute() {
    assert!(Timestamp::new(0, 999_999_999).is_some());
    assert!(Timestamp::new(0, 1_000_000_000).is_none());
    assert!(Timestamp::new(0, 1_500_000_000).is_none());
    assert!(Timestamp::new(58, 1_000_000_000).is_none());
    assert!(Timestamp::new(59, 1_000_000_000).is_some());
    assert!(Timestamp::new(59, 1_999_999_999).is_some());
    assert!(Timestamp::new(59, 2_000_000_000).is_none());
    assert!(Timestamp::new(0, 2_000_000_000).is_none());
    assert!(Timestamp::new(0, u32::MAX).is_none());
    assert!(Timestamp::new(-1, 1_000_000_000).is_some());
    assert!(Timestamp::new(-2, 1_000_000_000).is_none());
    assert!(Timestamp::new(-61, 1_999_999_999).is_some());
    assert!(Timestamp::new(119, 1_000_000_000).is_some());
    assert!(Timestamp::new(60, 1_000_000_000).is_none());
}

#[test]
fn texts_of_different_instants_differ() {
    let text = |seconds: i64, nanos: u32| Timestamp::new(seconds, nanos).unwrap().to_rfc3339();
    assert_eq!(text(59, 1_500_000_000), "1970-01-01T00:00:60.500+00:00");
    assert_eq!(text(60, 500_000_000), "1970-01-01T00:01:00.500+00:00");
    assert_eq!(text(60, 500_000), "1970-01-01T00:01:00.000500+00:00");
    assert_eq!(text(60, 500), "1970-01-01T00:01:00.000000500+00:00");
    assert_eq!(text(60, 0), "1970-01-01T00:01:00+00:00");
    assert_eq!(text(253_402_300_799, 0), "9999-12-31T23:59:59+00:00");
    assert_eq!(text(253_402_300_800, 0), "+10000-01-01T00:00:00+00:00");
    assert_eq!(text(-62_167_219_200, 0), "0000-01-01T00:00:00+00:00");
    assert_eq!(text(-62_167_219_201, 0), "-0001-12-31T23:59:59+00:00");
}

#[test]
fn timestamp_parses_back() {
    let now = Timestamp::now();
    let parsed = chrono::DateTime::parse_from_rfc3339(&now.to_rfc3339()).expect("an RFC 3339 text");
    assert_eq!(parsed.timestamp(), now.seconds());
    assert_eq!(parsed.timestamp_subsec_nanos(), now.nanos());
    let fixed = sample_time();
    let parsed = chrono::DateTime::parse_from_rfc3339(&fixed.to_rfc3339()).expect("an RFC 3339 text");
    assert_eq!(parsed.timestamp(), fixed.seconds());
    assert_eq!(parsed.timestamp_subsec_nanos(), fixed.nanos());
}

#[test]
fn records_share_group_and_instant() {
    let rules = Language::RLike.rules();
    let outcomes = evaluate("library(tidymodels)\nset.seed(1)\n", &rules);
    let records = build_records("model.R", &outcomes, sample_id(), sample_time());
    assert_eq!(records.len(), 5);
    for (record, outcome) in records.iter().zip(outcomes.iter()) {
        assert_eq!(record.file_name, "model.R");
        assert_eq!(record.rule_signature, outcome.rule.signature);
        assert_eq!(record.rule_description, outcome.rule.description);
        assert_eq!(record.detected, outcome.detected);
        assert_eq!(record.group_id, sample_id());
        assert_eq!(record.timestamp, sample_time());
    }
    let detected: Vec<bool> = records.iter().map(|r| r.detected).collect();
    assert_eq!(detected, vec![true, false, false, true, false]);
}

#[test]
fn row_of_a_record() {
    let outcomes = evaluate("import sklearn", &vec![rule("sklearn", "Imports the scikit-learn library"), rule("stratify", "Ensures class balance")]);
    let records = build_records("train.py", &outcomes, sample_id(), sample_time());
    assert_eq!(
        render_row(&records[0]),
        "train.py,sklearn,Imports the scikit-learn library,true,67e55044-10b1-426f-9247-bb680e5fe0c8,2024-05-01T12:30:00.250+00:00\n"
    );
    assert_eq!(
        render_row(&records[1]),
        "train.py,stratify,Ensures class balance,false,67e55044-10b1-426f-9247-bb680e5fe0c8,2024-05-01T12:30:00.250+00:00\n"
    );
}

#[test]
fn row_reads_back_field_by_field() {
    let outcomes = evaluate("x = Pipeline()", &Language::PythonLike.rules());
    let id = generate_group_id();
    let now = Timestamp::now();
    let records = build_records("notebook.ipynb", &outcomes, id, now);
    for record in &records {
        let row = render_row(record);
        assert!(row.ends_with('\n'));
        let plain: Vec<&str> = row[..row.len() - 1].split(',').collect();
        let fields = read_row(&row[..row.len() - 1]);
        assert_eq!(fields, plain);
        assert_eq!(fields.len(), 6);
        assert_eq!(fields[0], record.file_name);
        assert_eq!(fields[1], record.rule_signature);
        assert_eq!(fields[2], record.rule_description);
        assert_eq!(fields[3].parse::<bool>().unwrap(), record.detected);
        assert_eq!(uuid::Uuid::parse_str(&fields[4]).unwrap().as_u128(), record.group_id.value);
        let instant = chrono::DateTime::parse_from_rfc3339(&fields[5]).unwrap();
        assert_eq!(instant.timestamp(), record.timestamp.seconds());
        assert_eq!(instant.timestamp_subsec_nanos(), record.timestamp.nanos());
    }
}

#[test]
fn fields_are_quoted_where_they_must_be() {
    assert_eq!(quote_field(""), "");
    assert_eq!(quote_field("train.py"), "train.py");
    assert_eq!(quote_field("it's a file.py"), "it's a file.py");
    assert_eq!(quote_field("a,b.py"), "\"a,b.py\"");
    assert_eq!(quote_field(","), "\",\"");
    assert_eq!(quote_field("\""), "\"\"\"\"");
    assert_eq!(quote_field("say \"hi\""), "\"say \"\"hi\"\"\"");
    assert_eq!(quote_field("\"\"x"), "\"\"\"\"\"x\"");
    assert_eq!(quote_field("two\nlines"), "\"two\nlines\"");
    assert_eq!(quote_field("dos\r"), "\"dos\r\"");
    assert_eq!(quote_field("naïve,é\"ü"), "\"naïve,é\"\"ü\"");
}

#[test]
fn comma_in_file_name_is_quoted() {
    let outcomes = evaluate("", &vec![rule("a", "A")]);
    let records = build_records("a,b.py", &outcomes, sample_id(), sample_time());
    let row = render_row(&records[0]);
    assert_eq!(
        row,
        "\"a,b.py\",a,A,false,67e55044-10b1-426f-9247-bb680e5fe0c8,2024-05-01T12:30:00.250+00:00\n"
    );
    assert_eq!(read_row(&row[..row.len() - 1])[0], "a,b.py");
    assert_eq!(read_row(&row[..row.len() - 1]).len(), 6);
}

#[test]
fn any_text_reads_back_unchanged() {
    let texts = [
        "",
        ",",
        ",leading.py",
        "trailing,",
        "\"",
        "\"\"",
        "\",\"",
        "a \"quoted\" name, with a comma.py",
        "line\nfeed",
        "carriage\rreturn\r\n",
        "plain",
        " spaced ",
        "ünï,cödé\"",
        ",,,",
        "\"\"\"",
        "x\"",
        "\"x",
    ];
    for file_name in texts {
        for signature in texts {
            for description in ["Uses a pipeline", "a, b and \"c\"", ""] {
                let outcomes = evaluate("anything", &vec![rule(signature, description)]);
                let records = build_records(file_name, &outcomes, sample_id(), sample_time());
                let row = render_row(&records[0]);
                assert!(row.ends_with('\n'));
                let fields = read_row(&row[..row.len() - 1]);
                assert_eq!(fields.len(), 6, "{:?}", row);
                assert_eq!(fields[0], file_name);
                assert_eq!(fields[1], signature);
                assert_eq!(fields[2], description);
                assert_eq!(fields[3].parse::<bool>().unwrap(), records[0].detected);
                assert_eq!(uuid::Uuid::parse_str(&fields[4]).unwrap().as_u128(), sample_id().value);
                let instant = chrono::DateTime::parse_from_rfc3339(&fields[5]).unwrap();
                assert_eq!(instant.timestamp(), sample_time().seconds());
                assert_eq!(instant.timestamp_subsec_nanos(), sample_time().nanos());
            }
        }
    }
}

#[test]
fn backends_by_selector() {
    assert_eq!(Backend::from_selector("csv"), Ok(Backend::FlatTable));
    assert_eq!(Backend::from_selector("sql"), Ok(Backend::Relational));
    assert_eq!(Backend::from_selector("json"), Err(ScanError::InvalidOutputFormat));
    assert_eq!(Backend::from_selector("CSV"), Err(ScanError::InvalidOutputFormat));
    assert_eq!(Backend::from_selector(""), Err(ScanError::InvalidOutputFormat));
    assert!(Backend::FlatTable.needs_probe());
    assert!(!Backend::Relational.needs_probe());
}

#[test]
fn flat_table_header_only_on_empty_destination() {
    match Backend::FlatTable.ensure_schema(0) {
        SinkRequest::AppendText(text) => {
            assert_eq!(text, "file_name,target,description,detected,group_id,datetime\n")
        }
        other => panic!("expected the header, got {:?}", other),
    }
    assert!(matches!(Backend::FlatTable.ensure_schema(1), SinkRequest::Nothing));
    assert!(matches!(Backend::FlatTable.ensure_schema(u64::MAX), SinkRequest::Nothing));
}

#[test]
fn ensure_schema_twice_gives_one_header() {
    let mut destination = String::new();
    for _ in 0..2 {
        if let SinkRequest::AppendText(text) = Backend::FlatTable.ensure_schema(destination.len() as u64) {
            destination.push_str(&text);
        }
    }
    assert_eq!(destination, "file_name,target,description,detected,group_id,datetime\n");
    let mut existing = String::from("something\n");
    if let SinkRequest::AppendText(text) = Backend::FlatTable.ensure_schema(existing.len() as u64) {
        existing.push_str(&text);
    }
    assert_eq!(existing, "something\n");
}

#[test]
fn relational_requests() {
    match Backend::Relational.ensure_schema(0) {
        SinkRequest::Execute(statement) => assert_eq!(
            statement,
            "CREATE TABLE IF NOT EXISTS mlcheck_results (id INTEGER PRIMARY KEY AUTOINCREMENT, file_name TEXT, target TEXT, description TEXT, detected BOOLEAN, group_id TEXT, datetime TEXT)"
        ),
        other => panic!("expected a statement, got {:?}", other),
    }
    assert!(matches!(Backend::Relational.ensure_schema(77), SinkRequest::Execute(_)));
    let outcomes = evaluate("recipe(x)", &vec![rule("recipe", "Uses a recipe")]);
    let records = build_records("fit.Rmd", &outcomes, sample_id(), sample_time());
    match Backend::Relational.append(&records[0]) {
        SinkRequest::Insert { statement, values } => {
            assert_eq!(
                statement,
                "INSERT INTO mlcheck_results (file_name, target, description, detected, group_id, datetime) VALUES (?1, ?2, ?3, ?4, ?5, ?6)"
            );
            assert_eq!(values.file_name, "fit.Rmd");
            assert_eq!(values.target, "recipe");
            assert_eq!(values.description, "Uses a recipe");
            assert!(values.detected);
            assert_eq!(values.group_id, "67e55044-10b1-426f-9247-bb680e5fe0c8");
            assert_eq!(values.datetime, "2024-05-01T12:30:00.250+00:00");
        }
        other => panic!("expected an insert, got {:?}", other),
    }
    match Backend::FlatTable.append(&records[0]) {
        SinkRequest::AppendText(text) => assert_eq!(text, render_row(&records[0])),
        other => panic!("expected text, got {:?}", other),
    }
}

#[test]
fn error_messages() {
    assert_eq!(ScanError::InputNotFound.message(), "Input file does not exist");
    assert_eq!(ScanError::UnsupportedExtension.message(), "Unsupported file extension");
    assert_eq!(
        ScanError::InvalidOutputFormat.message(),
        "Invalid output format specified. Please use 'csv' or 'sql'."
    );
    assert_eq!(ScanError::ReadError.message(), "Could not read file");
    assert_eq!(ScanError::SinkWriteError.message(), "Failed to write check result");
    assert_eq!(ScanError::SinkSchemaError.message(), "Failed to prepare the output destination");
    assert_eq!(ScanError::UnsupportedLanguage.message(), "Unsupported language");
}

#[test]
fn current_instant_is_within_a_second_and_has_a_text() {
    let before = chrono::Utc::now().timestamp();
    let now = Timestamp::now();
    let after = chrono::Utc::now().timestamp();
    assert!(now.nanos() < 1_000_000_000);
    assert!(before <= now.seconds() && now.seconds() <= after);
    assert_eq!(Timestamp::new(now.seconds(), now.nanos()), Some(now));
    assert!(now.to_rfc3339().ends_with("+00:00"));
}
