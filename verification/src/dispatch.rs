//! From a file's name and text to what is recorded and reported about it.

use crate::catalogue::Language;
use crate::error::ScanError;
use crate::evaluator::{
    count_detected, detected_count, evaluate, evaluation, outcome_texts, percentage_of,
    presence_percentage, Outcome, OutcomeText,
};
use crate::identity::GroupId;
use crate::instant::Timestamp;
use crate::record::{build_records, record_texts, records_of, RecordText, ResultRecord};
use crate::text::{chars_of, same_chars, slice_of};
use vstd::prelude::*;

verus! {

/// The extension that a scan finds when it has looked at the characters of
/// `name` from position `at` on and met no dot: the text after the last dot
/// before `at`, where the first character of the name does not count as one.
pub open spec fn extension_scan(name: Seq<char>, at: int) -> Option<Seq<char>>
    decreases at,
{
    if at <= 1 {
        None
    } else if name[at - 1] == '.' {
        Some(name.subrange(at, name.len() as int))
    } else {
        extension_scan(name, at - 1)
    }
}

/// The extension of a file name: what follows its last dot. A name without a
/// dot has none, nor has a name whose only dot is its first character.
pub open spec fn extension_of(name: Seq<char>) -> Option<Seq<char>> {
    extension_scan(name, name.len() as int)
}

/// The language of the files with a given extension: `py` and `ipynb` are
/// Python-like, `R` and `Rmd` are R-like, and no other extension has one.
pub open spec fn language_of_extension(extension: Seq<char>) -> Option<Language> {
    if extension == "py"@ || extension == "ipynb"@ {
        Some(Language::PythonLike)
    } else if extension == "R"@ || extension == "Rmd"@ {
        Some(Language::RLike)
    } else {
        None
    }
}

/// The language of a file, by the extension of its name.
pub open spec fn language_of_file(name: Seq<char>) -> Option<Language> {
    match extension_of(name) {
        Some(extension) => language_of_extension(extension),
        None => None,
    }
}

/// What is reported about a file that was evaluated and recorded.
#[derive(Debug)]
pub struct Summary {
    /// The file's name.
    pub file_name: String,
    /// One outcome per rule of the file's language, in catalogue order.
    pub outcomes: Vec<Outcome>,
    /// How many of the outcomes are detections.
    pub detected: usize,
    /// The presence percentage, in whole percent, rounded down.
    pub percentage: u8,
    /// The identity that the file's records share.
    pub group_id: GroupId,
    /// The instant that the file's records share.
    pub timestamp: Timestamp,
}

/// A summary over character sequences.
pub ghost struct SummaryText {
    pub file_name: Seq<char>,
    pub outcomes: Seq<OutcomeText>,
    pub detected: nat,
    pub percentage: nat,
    pub group_id: GroupId,
    pub timestamp: Timestamp,
}

impl View for Summary {
    type V = SummaryText;

    open spec fn view(&self) -> SummaryText {
        SummaryText {
            file_name: self.file_name@,
            outcomes: outcome_texts(self.outcomes@),
            detected: self.detected as nat,
            percentage: self.percentage as nat,
            group_id: self.group_id,
            timestamp: self.timestamp,
        }
    }
}

/// The summary of a file's outcomes.
pub open spec fn summary_of(
    file_name: Seq<char>,
    outcomes: Seq<OutcomeText>,
    group_id: GroupId,
    now: Timestamp,
) -> SummaryText {
    SummaryText {
        file_name,
        outcomes,
        detected: detected_count(outcomes),
        percentage: percentage_of(outcomes),
        group_id,
        timestamp: now,
    }
}

/// The summary and the records of a file with a supported extension.
pub open spec fn file_results(
    file_name: Seq<char>,
    content: Seq<char>,
    group_id: GroupId,
    now: Timestamp,
) -> (SummaryText, Seq<RecordText>) {
    let outcomes = evaluation(content, language_of_file(file_name).unwrap().rule_set());
    (
        summary_of(file_name, outcomes, group_id, now),
        records_of(file_name, outcomes, group_id, now),
    )
}

/// How the console names an outcome.
pub open spec fn status_text(detected: bool) -> Seq<char> {
    if detected {
        "present"@
    } else {
        "absent"@
    }
}

/// The word for an outcome in the console summary: `present` for a detection,
/// `absent` otherwise.
pub fn status_label(detected: bool) -> (label: &'static str)
    ensures
        label@ == status_text(detected),
{
    if detected {
        "present"
    } else {
        "absent"
    }
}

/// Checks the input path before anything is scanned: a path that does not
/// exist is an `InputNotFound`, and nothing else is wrong with a path.
pub fn validate_input(path_found: bool) -> (checked: Result<(), ScanError>)
    ensures
        path_found ==> checked == Ok::<(), ScanError>(()),
        !path_found ==> checked == Err::<(), ScanError>(ScanError::InputNotFound),
{
    if path_found {
        Ok(())
    } else {
        Err(ScanError::InputNotFound)
    }
}

/// The extension of `file_name`, if it has one.
pub fn file_extension(file_name: &str) -> (extension: Option<Vec<char>>)
    ensures
        match extension_of(file_name@) {
            Some(text) => extension is Some && extension->Some_0@ == text,
            None => extension is None,
        },
{
    let name = chars_of(file_name);
    let mut at: usize = name.len();
    while at > 1
        invariant
            at <= name.len(),
            name@ == file_name@,
            extension_scan(name@, at as int) == extension_of(name@),
        decreases at,
    {
        if name[at - 1] == '.' {
            let extension = slice_of(&name, at, name.len());
            assert(extension_scan(name@, at as int) == Some(extension@));
            return Some(extension);
        }
        at -= 1;
    }
    None
}

/// The language of the file named `file_name`: `UnsupportedExtension` unless
/// the name ends in `.py`, `.ipynb`, `.R` or `.Rmd`.
pub fn language_for(file_name: &str) -> (language: Result<Language, ScanError>)
    ensures
        language == match language_of_file(file_name@) {
            Some(found) => Ok::<Language, ScanError>(found),
            None => Err::<Language, ScanError>(ScanError::UnsupportedExtension),
        },
{
    match file_extension(file_name) {
        Some(extension) => {
            if same_chars(&extension, &chars_of("py")) || same_chars(&extension, &chars_of("ipynb"))
            {
                Ok(Language::PythonLike)
            } else if same_chars(&extension, &chars_of("R")) || same_chars(
                &extension,
                &chars_of("Rmd"),
            ) {
                Ok(Language::RLike)
            } else {
                Err(ScanError::UnsupportedExtension)
            }
        },
        None => Err(ScanError::UnsupportedExtension),
    }
}

/// Evaluates one file: picks the rule set by the file's extension, evaluates
/// the rules against `content`, and wraps the outcomes into records that all
/// carry `group_id` and `now`.
///
/// A file with an unsupported extension gives `UnsupportedExtension` and
/// nothing else; every other file gives its summary and its records.
pub fn process_file(file_name: &str, content: &str, group_id: GroupId, now: Timestamp) -> (results:
    Result<(Summary, Vec<ResultRecord>), ScanError>)
    ensures
        language_of_file(file_name@) is None ==> results == Err::<
            (Summary, Vec<ResultRecord>),
            ScanError,
        >(ScanError::UnsupportedExtension),
        language_of_file(file_name@) is Some ==> results is Ok && (
            results->Ok_0.0@,
            record_texts(results->Ok_0.1@),
        ) == file_results(file_name@, content@, group_id, now),
{
    let language = match language_for(file_name) {
        Ok(language) => language,
        Err(error) => {
            return Err(error);
        },
    };
    let rules = language.rules();
    let outcomes = evaluate(content, &rules);
    let records = build_records(file_name, &outcomes, group_id, now);
    let detected = count_detected(&outcomes);
    let percentage = presence_percentage(&outcomes);
    let summary = Summary {
        file_name: file_name.to_owned(),
        outcomes,
        detected,
        percentage,
        group_id,
        timestamp: now,
    };
    Ok((summary, records))
}

} // verus!
