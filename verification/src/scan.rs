//! The file dispatcher as a state machine.
//!
//! A scan goes through a list of files. For each one it picks the rule set by
//! the file's extension, evaluates the file's text, establishes the schema of
//! the destination and appends one record per rule. Reading files and writing
//! to the destination is not done here: the scan says what it needs next in a
//! `Request`, and whoever drives it carries that out and hands back a `Reply`.

use crate::dispatch::{file_results, language_for, language_of_file, process_file, Summary,
    SummaryText};
use crate::error::ScanError;
use crate::identity::{
    generate_group_id, random_identity_exists, GroupId, RANDOM_VERSION_AND_VARIANT,
};
use crate::instant::Timestamp;
use crate::record::{record_texts, records_of, share_group, RecordText, ResultRecord};
use crate::sink::{header_line, Backend, SinkRequest, SinkRequestText};
use vstd::prelude::*;

verus! {

/// What a failure of one file means for the files after it.
#[derive(Clone, Copy, Debug, PartialEq, Eq, Structural)]
pub enum Mode {
    /// One file was asked for: its failure ends the scan.
    SingleFile,
    /// The files of a directory were asked for: a failure is reported and the
    /// scan goes on with the next file.
    Directory,
}

/// Where a scan stands.
#[derive(Clone, Copy, Debug, PartialEq, Eq, Structural)]
pub enum Stage {
    /// Not begun.
    Idle,
    /// Waiting for the text of the current file.
    Reading,
    /// Waiting for the length of the destination.
    Probing,
    /// Waiting for the schema to be established.
    Establishing,
    /// Waiting for a record to be appended.
    Appending,
    /// Waiting for the report on the current file to be shown.
    Reporting,
    /// Over.
    Closed,
}

/// How the scan of one file ended.
#[derive(Debug)]
pub enum FileReport {
    /// The file was evaluated and all its records were appended.
    Scanned(Summary),
    /// The file was given up.
    Failed { file_name: String, error: ScanError },
}

/// A file report over character sequences.
pub ghost enum FileReportText {
    Scanned(SummaryText),
    Failed { file_name: Seq<char>, error: ScanError },
}

impl View for FileReport {
    type V = FileReportText;

    open spec fn view(&self) -> FileReportText {
        match self {
            FileReport::Scanned(summary) => FileReportText::Scanned(summary@),
            FileReport::Failed { file_name, error } => FileReportText::Failed {
                file_name: file_name@,
                error: *error,
            },
        }
    }
}

/// What the driver of a scan hands back after it has carried out a request.
#[derive(Debug)]
pub enum Reply {
    /// To an idle scan: begin.
    Begin,
    /// To `Read`: the text of the file.
    Content(String),
    /// To `Read`: the file could not be read as text.
    Unreadable,
    /// To `Probe`: the number of bytes that the destination holds, 0 if it
    /// does not exist yet.
    Length(u64),
    /// To `Establish` and `Append`: carried out.
    Done,
    /// To `Probe`, `Establish` and `Append`: the destination refused.
    Refused,
    /// To `Report`: shown.
    Reported,
}

/// A reply over character sequences.
pub ghost enum ReplyText {
    Begin,
    Content(Seq<char>),
    Unreadable,
    Length(int),
    Done,
    Refused,
    Reported,
}

impl View for Reply {
    type V = ReplyText;

    open spec fn view(&self) -> ReplyText {
        match self {
            Reply::Begin => ReplyText::Begin,
            Reply::Content(text) => ReplyText::Content(text@),
            Reply::Unreadable => ReplyText::Unreadable,
            Reply::Length(length) => ReplyText::Length(*length as int),
            Reply::Done => ReplyText::Done,
            Reply::Refused => ReplyText::Refused,
            Reply::Reported => ReplyText::Reported,
        }
    }
}

/// What a scan needs next.
#[derive(Debug)]
pub enum Request {
    /// Read the file at this index of the scan's files.
    Read(usize),
    /// Say how many bytes the destination holds.
    Probe,
    /// Carry this out on the destination, to establish its schema.
    Establish(SinkRequest),
    /// Carry `request` out on the destination, to append `record`.
    Append { record: ResultRecord, request: SinkRequest },
    /// Show the report at this index of the scan's reports.
    Report(usize),
    /// Nothing more: every file has its report.
    Finished,
    /// Nothing more: the one file that was asked for failed.
    Aborted(ScanError),
}

/// A request over character sequences.
pub ghost enum RequestText {
    Read(int),
    Probe,
    Establish(SinkRequestText),
    Append { record: RecordText, request: SinkRequestText },
    Report(int),
    Finished,
    Aborted(ScanError),
}

impl View for Request {
    type V = RequestText;

    open spec fn view(&self) -> RequestText {
        match self {
            Request::Read(index) => RequestText::Read(*index as int),
            Request::Probe => RequestText::Probe,
            Request::Establish(request) => RequestText::Establish(request@),
            Request::Append { record, request } => RequestText::Append {
                record: record@,
                request: request@,
            },
            Request::Report(index) => RequestText::Report(*index as int),
            Request::Finished => RequestText::Finished,
            Request::Aborted(error) => RequestText::Aborted(*error),
        }
    }
}

/// The state of a scan.
pub ghost struct ScanState {
    /// What a failure means for the files after it.
    pub mode: Mode,
    /// Where the records go.
    pub backend: Backend,
    /// The names of the files to scan, in order.
    pub files: Seq<Seq<char>>,
    /// Where the scan stands.
    pub stage: Stage,
    /// The index of the current file.
    pub position: int,
    /// The summary of the current file, from its evaluation to its report.
    pub summary: Option<SummaryText>,
    /// The records of the current file.
    pub records: Seq<RecordText>,
    /// How many of the records the destination has taken.
    pub written: int,
    /// One report per file that is done.
    pub reports: Seq<FileReportText>,
}

/// The state of a scan that has not begun.
pub open spec fn initial(mode: Mode, backend: Backend, files: Seq<Seq<char>>) -> ScanState {
    ScanState {
        mode,
        backend,
        files,
        stage: Stage::Idle,
        position: 0,
        summary: None,
        records: Seq::empty(),
        written: 0,
        reports: Seq::empty(),
    }
}

/// The current file is given up with `error`: that is its report, and what the
/// destination has taken of it stays there.
pub open spec fn fail(s: ScanState, error: ScanError) -> (ScanState, RequestText) {
    let report = FileReportText::Failed { file_name: s.files[s.position], error };
    (
        ScanState { stage: Stage::Reporting, summary: None, reports: s.reports.push(report), ..s },
        RequestText::Report(s.reports.len() as int),
    )
}

/// The current file is done: its summary is its report.
pub open spec fn succeed(s: ScanState) -> (ScanState, RequestText) {
    let report = FileReportText::Scanned(s.summary.unwrap());
    (
        ScanState { stage: Stage::Reporting, summary: None, reports: s.reports.push(report), ..s },
        RequestText::Report(s.reports.len() as int),
    )
}

/// The scan turns to the file at `index`: it asks for the file's text if the
/// extension is supported and gives the file up if not. Past the last file the
/// scan is over.
pub open spec fn begin(s: ScanState, index: int) -> (ScanState, RequestText) {
    let fresh = ScanState {
        position: index,
        summary: None,
        records: Seq::empty(),
        written: 0,
        ..s
    };
    if index >= s.files.len() {
        (ScanState { stage: Stage::Closed, ..fresh }, RequestText::Finished)
    } else if language_of_file(s.files[index]) is Some {
        (ScanState { stage: Stage::Reading, ..fresh }, RequestText::Read(index))
    } else {
        fail(fresh, ScanError::UnsupportedExtension)
    }
}

/// The text of the current file has come: it is evaluated, and its records
/// are made with `group_id` and `now`. Next the schema is established, for
/// which the flat table first wants to know what the destination holds.
pub open spec fn evaluated(s: ScanState, content: Seq<char>, group_id: GroupId, now: Timestamp) -> (
    ScanState,
    RequestText,
) {
    let (summary, records) = file_results(s.files[s.position], content, group_id, now);
    let ready = ScanState { summary: Some(summary), records, written: 0, ..s };
    if s.backend.probes() {
        (ScanState { stage: Stage::Probing, ..ready }, RequestText::Probe)
    } else {
        (
            ScanState { stage: Stage::Establishing, ..ready },
            RequestText::Establish(s.backend.schema_request(0)),
        )
    }
}

/// The records are appended one by one, from the first; a file without
/// records is done at once.
pub open spec fn start_appending(s: ScanState) -> (ScanState, RequestText) {
    if s.records.len() == 0 {
        succeed(ScanState { written: 0, ..s })
    } else {
        (
            ScanState { stage: Stage::Appending, written: 0, ..s },
            RequestText::Append {
                record: s.records[0],
                request: s.backend.append_request(s.records[0]),
            },
        )
    }
}

/// The length of the destination has come: the schema is established, unless
/// there is nothing to do for it.
pub open spec fn probed(s: ScanState, length: int) -> (ScanState, RequestText) {
    let request = s.backend.schema_request(length);
    if request is Nothing {
        start_appending(s)
    } else {
        (ScanState { stage: Stage::Establishing, ..s }, RequestText::Establish(request))
    }
}

/// The destination has taken one more record: the next one follows, and after
/// the last one the file is done.
pub open spec fn appended(s: ScanState) -> (ScanState, RequestText) {
    let written = s.written + 1;
    if written >= s.records.len() {
        succeed(ScanState { written, ..s })
    } else {
        (
            ScanState { written, ..s },
            RequestText::Append {
                record: s.records[written],
                request: s.backend.append_request(s.records[written]),
            },
        )
    }
}

/// The report on the current file has been shown: a failure of the one file
/// that was asked for ends the scan, and in every other case the scan turns
/// to the next file.
pub open spec fn reported(s: ScanState) -> (ScanState, RequestText) {
    if s.mode == Mode::SingleFile && s.reports.last() is Failed {
        (ScanState { stage: Stage::Closed, ..s }, RequestText::Aborted(s.reports.last()->error))
    } else {
        begin(s, s.position + 1)
    }
}

/// One step of a scan: the state after `reply` and the request that the scan
/// makes then; `None` where `reply` is no answer to what the scan waits for.
/// `group_id` and `now` go into the records when the reply is the text of a
/// file, and nowhere else.
pub open spec fn step(s: ScanState, reply: ReplyText, group_id: GroupId, now: Timestamp) -> Option<
    (ScanState, RequestText),
> {
    match (s.stage, reply) {
        (Stage::Idle, ReplyText::Begin) => Some(begin(s, 0)),
        (Stage::Reading, ReplyText::Content(content)) => Some(evaluated(s, content, group_id, now)),
        (Stage::Reading, ReplyText::Unreadable) => Some(fail(s, ScanError::ReadError)),
        (Stage::Probing, ReplyText::Length(length)) => Some(probed(s, length)),
        (Stage::Probing, ReplyText::Refused) => Some(fail(s, ScanError::SinkSchemaError)),
        (Stage::Establishing, ReplyText::Done) => Some(start_appending(s)),
        (Stage::Establishing, ReplyText::Refused) => Some(fail(s, ScanError::SinkSchemaError)),
        (Stage::Appending, ReplyText::Done) => Some(appended(s)),
        (Stage::Appending, ReplyText::Refused) => Some(fail(s, ScanError::SinkWriteError)),
        (Stage::Reporting, ReplyText::Reported) => Some(reported(s)),
        _ => None,
    }
}

/// A scan in state `before` that gets `reply` is in state `after` and makes
/// `request`, where `group_id` and `now` are what a file's records get.
pub open spec fn moved(
    before: ScanState,
    reply: ReplyText,
    group_id: GroupId,
    now: Timestamp,
    after: ScanState,
    request: Option<RequestText>,
) -> bool {
    match step(before, reply, group_id, now) {
        Some((state, asked)) => after == state && request == Some(asked),
        None => after == before && request is None,
    }
}

/// The current file has been evaluated: its summary is there, and its records
/// are those of the summary's outcomes, all with the summary's group identity
/// and instant.
pub open spec fn in_progress(s: ScanState) -> bool {
    &&& s.position < s.files.len()
    &&& s.reports.len() == s.position
    &&& s.summary is Some
    &&& s.summary->0.file_name == s.files[s.position]
    &&& s.records == records_of(
        s.files[s.position],
        s.summary->0.outcomes,
        s.summary->0.group_id,
        s.summary->0.timestamp,
    )
}

/// What holds of every state that a scan reaches.
pub open spec fn inv(s: ScanState) -> bool {
    &&& 0 <= s.position <= s.files.len()
    &&& 0 <= s.written <= s.records.len()
    &&& match s.stage {
        Stage::Idle => s.position == 0 && s.reports.len() == 0,
        Stage::Reading => {
            &&& s.position < s.files.len()
            &&& s.reports.len() == s.position
            &&& language_of_file(s.files[s.position]) is Some
        },
        Stage::Probing => in_progress(s),
        Stage::Establishing => in_progress(s),
        Stage::Appending => in_progress(s) && s.written < s.records.len(),
        Stage::Reporting => s.position < s.files.len() && s.reports.len() == s.position + 1,
        Stage::Closed => {
            ||| s.position == s.files.len() && s.reports.len() == s.files.len()
            ||| {
                &&& s.mode == Mode::SingleFile
                &&& s.position < s.files.len()
                &&& s.reports.len() == s.position + 1
                &&& s.reports.last() is Failed
            }
        },
    }
}

/// A scan that has not begun satisfies the invariant.
pub proof fn initial_satisfies_inv(mode: Mode, backend: Backend, files: Seq<Seq<char>>)
    ensures
        inv(initial(mode, backend, files)),
{
}

/// Every step keeps the invariant.
pub proof fn step_keeps_inv(s: ScanState, reply: ReplyText, group_id: GroupId, now: Timestamp)
    requires
        inv(s),
    ensures
        step(s, reply, group_id, now) matches Some((after, _)) ==> inv(after),
{
}

/// While a file's records go to the destination, every one of them carries
/// the same group identity and the same instant: those of the file's summary.
pub proof fn records_share_one_group(s: ScanState)
    requires
        inv(s),
        s.stage == Stage::Probing || s.stage == Stage::Establishing || s.stage == Stage::Appending,
    ensures
        s.summary is Some,
        share_group(s.records, s.summary->0.group_id, s.summary->0.timestamp),
        forall|i: int|
            0 <= i < s.records.len() ==> (#[trigger] s.records[i]).file_name
                == s.files[s.position],
{
}

/// The records of a file are made when the file's text comes, with the group
/// identity and the instant that are handed in then: one per rule of the
/// file's language, all with that identity and that instant.
pub proof fn records_made_with_given_group(
    s: ScanState,
    content: Seq<char>,
    group_id: GroupId,
    now: Timestamp,
)
    requires
        inv(s),
        s.stage == Stage::Reading,
    ensures
        step(s, ReplyText::Content(content), group_id, now) is Some,
        ({
            let after = step(s, ReplyText::Content(content), group_id, now).unwrap().0;
            &&& share_group(after.records, group_id, now)
            &&& after.records.len() == language_of_file(
                s.files[s.position],
            ).unwrap().rule_set().len()
            &&& after.summary == Some(
                file_results(s.files[s.position], content, group_id, now).0,
            )
        }),
{
}

/// Whatever a scan asks to append is the next record of the current file that
/// the destination has not taken yet, together with what the backend needs
/// done for it.
pub proof fn append_asks_for_next_record(
    s: ScanState,
    reply: ReplyText,
    group_id: GroupId,
    now: Timestamp,
)
    requires
        inv(s),
        step(s, reply, group_id, now) is Some,
        step(s, reply, group_id, now).unwrap().1 is Append,
    ensures
        ({
            let (after, asked) = step(s, reply, group_id, now)->0;
            &&& after.stage == Stage::Appending
            &&& 0 <= after.written < after.records.len()
            &&& asked->record == after.records[after.written]
            &&& asked->request == after.backend.append_request(asked->record)
            &&& after.records == s.records
        }),
{
}

/// A flat table is given its header exactly when the destination is found
/// empty; a destination that holds anything goes straight on to the records.
pub proof fn header_only_for_empty_destination(
    s: ScanState,
    length: int,
    group_id: GroupId,
    now: Timestamp,
)
    requires
        inv(s),
        s.stage == Stage::Probing,
        s.backend == Backend::FlatTable,
    ensures
        step(s, ReplyText::Length(length), group_id, now) is Some,
        ({
            let asked = step(s, ReplyText::Length(length), group_id, now).unwrap().1;
            &&& length == 0 ==> asked == RequestText::Establish(
                SinkRequestText::AppendText(header_line()),
            )
            &&& length != 0 ==> !(asked is Establish)
        }),
{
}

/// A scan of a directory that is over has one report for every file, however
/// many of the files failed.
pub proof fn directory_scan_reports_every_file(s: ScanState)
    requires
        inv(s),
        s.stage == Stage::Closed,
        s.mode == Mode::Directory,
    ensures
        s.reports.len() == s.files.len(),
{
}

/// A failure never loses a report: after every step there are at least as
/// many reports as before, and the earlier ones are unchanged.
pub proof fn reports_only_grow(s: ScanState, reply: ReplyText, group_id: GroupId, now: Timestamp)
    requires
        inv(s),
        step(s, reply, group_id, now) is Some,
    ensures
        ({
            let after = step(s, reply, group_id, now).unwrap().0;
            &&& s.reports.len() <= after.reports.len() <= s.reports.len() + 1
            &&& after.reports.subrange(0, s.reports.len() as int) == s.reports
            &&& after.files == s.files
            &&& after.mode == s.mode
            &&& after.backend == s.backend
        }),
{
    let after = step(s, reply, group_id, now).unwrap().0;
    assert(after.reports.subrange(0, s.reports.len() as int) =~= s.reports);
}

/// What a vector of file names holds, as a sequence of character sequences.
pub open spec fn file_texts(files: Seq<String>) -> Seq<Seq<char>> {
    Seq::new(files.len(), |i: int| files[i]@)
}

/// What a vector of reports holds, as a sequence of `FileReportText`.
pub open spec fn report_texts(reports: Seq<FileReport>) -> Seq<FileReportText> {
    Seq::new(reports.len(), |i: int| reports[i]@)
}

/// A request that may be missing, over character sequences.
pub open spec fn request_text(request: Option<Request>) -> Option<RequestText> {
    match request {
        Some(asked) => Some(asked@),
        None => None,
    }
}

/// A scan over a list of files.
#[derive(Debug)]
pub struct Scan {
    mode: Mode,
    backend: Backend,
    files: Vec<String>,
    stage: Stage,
    position: usize,
    summary: Option<Summary>,
    records: Vec<ResultRecord>,
    written: usize,
    reports: Vec<FileReport>,
}

impl View for Scan {
    type V = ScanState;

    closed spec fn view(&self) -> ScanState {
        ScanState {
            mode: self.mode,
            backend: self.backend,
            files: file_texts(self.files@),
            stage: self.stage,
            position: self.position as int,
            summary: match self.summary {
                Some(summary) => Some(summary@),
                None => None,
            },
            records: record_texts(self.records@),
            written: self.written as int,
            reports: report_texts(self.reports@),
        }
    }
}

impl Scan {
    /// The scan is in a state that a scan can reach.
    pub open spec fn wf(&self) -> bool {
        inv(self@)
    }

    /// A scan of `files`, not yet begun. It begins with the reply `Begin`.
    pub fn new(mode: Mode, backend: Backend, files: Vec<String>) -> (scan: Scan)
        ensures
            scan@ == initial(mode, backend, file_texts(files@)),
            scan.wf(),
    {
        let scan = Scan {
            mode,
            backend,
            files,
            stage: Stage::Idle,
            position: 0,
            summary: None,
            records: Vec::new(),
            written: 0,
            reports: Vec::new(),
        };
        assert(scan@.records =~= Seq::empty());
        assert(scan@.reports =~= Seq::empty());
        scan
    }

    /// Where the scan stands.
    pub fn stage(&self) -> (stage: Stage)
        ensures
            stage == self@.stage,
    {
        self.stage
    }

    /// Whether the scan is over.
    pub fn is_closed(&self) -> (closed: bool)
        ensures
            closed == (self@.stage == Stage::Closed),
    {
        self.stage == Stage::Closed
    }

    /// The index of the current file.
    pub fn position(&self) -> (position: usize)
        ensures
            position == self@.position,
    {
        self.position
    }

    /// The names of the files of the scan.
    pub fn files(&self) -> (files: &Vec<String>)
        ensures
            file_texts(files@) == self@.files,
    {
        &self.files
    }

    /// The reports on the files that are done, in the order of the files.
    pub fn reports(&self) -> (reports: &Vec<FileReport>)
        ensures
            report_texts(reports@) == self@.reports,
    {
        &self.reports
    }

    fn fail(&mut self, error: ScanError) -> (request: Request)
        requires
            old(self).position < old(self).files.len(),
        ensures
            (final(self)@, request@) == fail(old(self)@, error),
    {
        let index = self.reports.len();
        let report = FileReport::Failed { file_name: self.files[self.position].clone(), error };
        let ghost before = report_texts(self.reports@);
        self.reports.push(report);
        assert(report_texts(self.reports@) =~= before.push(report@));
        self.summary = None;
        self.stage = Stage::Reporting;
        Request::Report(index)
    }

    fn succeed(&mut self) -> (request: Request)
        requires
            old(self).summary is Some,
        ensures
            (final(self)@, request@) == succeed(old(self)@),
    {
        let index = self.reports.len();
        let summary = self.summary.take().unwrap();
        let report = FileReport::Scanned(summary);
        let ghost before = report_texts(self.reports@);
        self.reports.push(report);
        assert(report_texts(self.reports@) =~= before.push(report@));
        self.stage = Stage::Reporting;
        Request::Report(index)
    }

    fn begin(&mut self, index: usize) -> (request: Request)
        ensures
            (final(self)@, request@) == begin(old(self)@, index as int),
    {
        self.position = index;
        self.summary = None;
        self.records = Vec::new();
        self.written = 0;
        assert(record_texts(self.records@) =~= Seq::empty());
        if index >= self.files.len() {
            self.stage = Stage::Closed;
            Request::Finished
        } else {
            match language_for(self.files[index].as_str()) {
                Ok(_) => {
                    self.stage = Stage::Reading;
                    Request::Read(index)
                },
                Err(_) => self.fail(ScanError::UnsupportedExtension),
            }
        }
    }

    fn evaluated(&mut self, content: String, group_id: GroupId, now: Timestamp) -> (request:
        Request)
        requires
            old(self).position < old(self).files.len(),
            language_of_file(old(self).files@[old(self).position as int]@) is Some,
        ensures
            (final(self)@, request@) == evaluated(old(self)@, content@, group_id, now),
    {
        match process_file(self.files[self.position].as_str(), content.as_str(), group_id, now) {
            Ok((summary, records)) => {
                self.summary = Some(summary);
                self.records = records;
                self.written = 0;
            },
            Err(_) => {
                vstd::pervasive::unreached::<()>();
            },
        }
        if self.backend.needs_probe() {
            self.stage = Stage::Probing;
            Request::Probe
        } else {
            self.stage = Stage::Establishing;
            Request::Establish(self.backend.ensure_schema(0))
        }
    }

    fn start_appending(&mut self) -> (request: Request)
        requires
            old(self).records.len() == 0 ==> old(self).summary is Some,
        ensures
            (final(self)@, request@) == start_appending(old(self)@),
    {
        self.written = 0;
        if self.records.len() == 0 {
            self.succeed()
        } else {
            self.stage = Stage::Appending;
            Request::Append {
                record: self.records[0].clone(),
                request: self.backend.append(&self.records[0]),
            }
        }
    }

    fn probed(&mut self, length: u64) -> (request: Request)
        requires
            old(self).records.len() == 0 ==> old(self).summary is Some,
        ensures
            (final(self)@, request@) == probed(old(self)@, length as int),
    {
        match self.backend.ensure_schema(length) {
            SinkRequest::Nothing => self.start_appending(),
            request => {
                self.stage = Stage::Establishing;
                Request::Establish(request)
            },
        }
    }

    fn appended(&mut self) -> (request: Request)
        requires
            old(self).written < old(self).records.len(),
            old(self).summary is Some,
        ensures
            (final(self)@, request@) == appended(old(self)@),
    {
        self.written = self.written + 1;
        if self.written >= self.records.len() {
            self.succeed()
        } else {
            Request::Append {
                record: self.records[self.written].clone(),
                request: self.backend.append(&self.records[self.written]),
            }
        }
    }

    fn reported(&mut self) -> (request: Request)
        requires
            old(self).position < old(self).files.len(),
            old(self).reports.len() > 0,
        ensures
            (final(self)@, request@) == reported(old(self)@),
    {
        let last = self.reports.len() - 1;
        assert(report_texts(self.reports@).last() == self.reports@[last as int]@);
        match (self.mode, &self.reports[last]) {
            (Mode::SingleFile, FileReport::Failed { file_name: _, error }) => {
                let error = *error;
                self.stage = Stage::Closed;
                Request::Aborted(error)
            },
            _ => self.begin(self.position + 1),
        }
    }

    /// Whether `reply` is the text of a file that the scan waits for, so that
    /// a group identity and an instant are needed for the step.
    pub fn makes_records(&self, reply: &Reply) -> (needed: bool)
        ensures
            needed == (self@.stage == Stage::Reading && reply@ is Content),
    {
        match reply {
            Reply::Content(_) => self.stage == Stage::Reading,
            _ => false,
        }
    }

    /// One step of the scan. If `reply` is the text of a file that the scan
    /// waits for, a fresh group identity is generated and the current instant
    /// is captured, both once, for all the records of the file.
    ///
    /// Whatever identity and instant were drawn, the scan has moved as `step`
    /// says for them.
    ///
    /// Every scan that `Scan::new` made and that only these steps moved is
    /// well-formed.
    pub fn advance(&mut self, reply: Reply) -> (request: Option<Request>)
        requires
            old(self).wf(),
        ensures
            final(self).wf(),
            exists|group_id: GroupId, now: Timestamp|
                group_id.is_random() && #[trigger] moved(
                    old(self)@,
                    reply@,
                    group_id,
                    now,
                    final(self)@,
                    request_text(request),
                ),
    {
        let ghost before = self@;
        let ghost given = reply@;
        if self.makes_records(&reply) {
            let group_id = generate_group_id();
            let now = Timestamp::now();
            let request = self.advance_with(reply, group_id, now);
            assert(moved(before, given, group_id, now, self@, request_text(request)));
            request
        } else {
            let request = self.advance_without(reply);
            proof {
                let group_id = GroupId { value: RANDOM_VERSION_AND_VARIANT };
                random_identity_exists();
                let now: Timestamp = vstd::pervasive::arbitrary();
                assert(moved(before, given, group_id, now, self@, request_text(request)));
            }
            request
        }
    }

    /// One step of the scan, with the group identity and the instant that go
    /// into the records if `reply` is the text of a file.
    ///
    /// The scan moves as `step` says and hands back its next request. A reply
    /// that is no answer to what the scan waits for changes nothing and gets
    /// `None`.
    pub fn advance_with(&mut self, reply: Reply, group_id: GroupId, now: Timestamp) -> (request:
        Option<Request>)
        requires
            old(self).wf(),
        ensures
            final(self).wf(),
            moved(old(self)@, reply@, group_id, now, final(self)@, request_text(request)),
    {
        if self.makes_records(&reply) {
            proof {
                step_keeps_inv(self@, reply@, group_id, now);
            }
            match reply {
                Reply::Content(content) => Some(self.evaluated(content, group_id, now)),
                _ => None,
            }
        } else {
            self.advance_without(reply)
        }
    }

    /// A step that makes no records: it is the same whatever group identity
    /// and instant are at hand.
    fn advance_without(&mut self, reply: Reply) -> (request: Option<Request>)
        requires
            old(self).wf(),
            !(old(self)@.stage == Stage::Reading && reply@ is Content),
        ensures
            final(self).wf(),
            forall|group_id: GroupId, now: Timestamp| #[trigger]
                moved(old(self)@, reply@, group_id, now, final(self)@, request_text(request)),
    {
        proof {
            step_keeps_inv(
                self@,
                reply@,
                vstd::pervasive::arbitrary(),
                vstd::pervasive::arbitrary(),
            );
        }
        match self.stage {
            Stage::Idle => match reply {
                Reply::Begin => Some(self.begin(0)),
                _ => None,
            },
            Stage::Reading => match reply {
                Reply::Unreadable => Some(self.fail(ScanError::ReadError)),
                _ => None,
            },
            Stage::Probing => match reply {
                Reply::Length(length) => Some(self.probed(length)),
                Reply::Refused => Some(self.fail(ScanError::SinkSchemaError)),
                _ => None,
            },
            Stage::Establishing => match reply {
                Reply::Done => Some(self.start_appending()),
                Reply::Refused => Some(self.fail(ScanError::SinkSchemaError)),
                _ => None,
            },
            Stage::Appending => match reply {
                Reply::Done => Some(self.appended()),
                Reply::Refused => Some(self.fail(ScanError::SinkWriteError)),
                _ => None,
            },
            Stage::Reporting => match reply {
                Reply::Reported => Some(self.reported()),
                _ => None,
            },
            Stage::Closed => None,
        }
    }
}

} // verus!
