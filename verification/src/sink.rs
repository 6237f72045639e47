//! The two backends to which records go, behind one pair of capabilities:
//! establish the schema, append a record.
//!
//! Nothing here touches a destination. Each capability answers with a
//! `SinkRequest`, which says what the driver of the scan has to carry out: text
//! to put at the end of the flat-table file, or a statement for the relational
//! store.

use crate::error::ScanError;
use crate::delimited::{
    fields, fields_of_joined, fields_of_last, is_special, quote_field, quoted,
};
use crate::identity::{canonical_text_chars, canonical_text_injective, is_canonical_char};
use crate::instant::is_rfc3339_char;
use crate::record::{RecordText, ResultRecord};
use vstd::prelude::*;
use vstd::string::StringExecFns;

verus! {

/// A backend for the records.
#[derive(Clone, Copy, Debug, PartialEq, Eq, Structural)]
pub enum Backend {
    /// A comma-separated text file with one header row.
    FlatTable,
    /// A relational store with one table, `mlcheck_results`.
    Relational,
}

/// The values of one row of the relational table, in column order after `id`.
#[derive(Debug)]
pub struct RowValues {
    pub file_name: String,
    pub target: String,
    pub description: String,
    pub detected: bool,
    pub group_id: String,
    pub datetime: String,
}

/// Row values over character sequences.
pub ghost struct RowValuesText {
    pub file_name: Seq<char>,
    pub target: Seq<char>,
    pub description: Seq<char>,
    pub detected: bool,
    pub group_id: Seq<char>,
    pub datetime: Seq<char>,
}

impl View for RowValues {
    type V = RowValuesText;

    open spec fn view(&self) -> RowValuesText {
        RowValuesText {
            file_name: self.file_name@,
            target: self.target@,
            description: self.description@,
            detected: self.detected,
            group_id: self.group_id@,
            datetime: self.datetime@,
        }
    }
}

/// What is to be carried out on the destination.
#[derive(Debug)]
pub enum SinkRequest {
    /// The destination stays as it is.
    Nothing,
    /// Put this text at the end of the destination file.
    AppendText(String),
    /// Run this statement, which takes no values.
    Execute(String),
    /// Run this statement with the six values of a row.
    Insert { statement: String, values: RowValues },
}

/// A sink request over character sequences.
pub ghost enum SinkRequestText {
    Nothing,
    AppendText(Seq<char>),
    Execute(Seq<char>),
    Insert { statement: Seq<char>, values: RowValuesText },
}

impl View for SinkRequest {
    type V = SinkRequestText;

    open spec fn view(&self) -> SinkRequestText {
        match self {
            SinkRequest::Nothing => SinkRequestText::Nothing,
            SinkRequest::AppendText(text) => SinkRequestText::AppendText(text@),
            SinkRequest::Execute(statement) => SinkRequestText::Execute(statement@),
            SinkRequest::Insert { statement, values } => SinkRequestText::Insert {
                statement: statement@,
                values: values@,
            },
        }
    }
}

/// The header row of the flat table, with its line feed.
pub open spec fn header_line() -> Seq<char> {
    "file_name,target,description,detected,group_id,datetime\n"@
}

/// How the flat table writes `detected`.
pub open spec fn bool_text(value: bool) -> Seq<char> {
    if value {
        "true"@
    } else {
        "false"@
    }
}

/// The six field texts of a record's row, in column order.
pub open spec fn row_fields(record: RecordText) -> Seq<Seq<char>> {
    seq![
        record.file_name,
        record.rule_signature,
        record.rule_description,
        bool_text(record.detected),
        record.group_id.text(),
        record.timestamp.text(),
    ]
}

/// The row of a record in the flat table: the six fields with a comma
/// between two of them and a line feed at the end. A field that holds a
/// comma, a double quote, a line feed or a carriage return stands in double
/// quotes, with its own double quotes doubled; every other field stands as it
/// is.
pub open spec fn row_line(record: RecordText) -> Seq<char> {
    quoted(record.file_name) + seq![','] + quoted(record.rule_signature) + seq![','] + quoted(
        record.rule_description,
    ) + seq![','] + quoted(bool_text(record.detected)) + seq![','] + quoted(record.group_id.text())
        + seq![','] + quoted(record.timestamp.text()) + seq!['\n']
}

/// The statement that creates the table of the relational store unless it is
/// there already.
pub open spec fn create_table_statement() -> Seq<char> {
    "CREATE TABLE IF NOT EXISTS mlcheck_results (id INTEGER PRIMARY KEY AUTOINCREMENT, file_name TEXT, target TEXT, description TEXT, detected BOOLEAN, group_id TEXT, datetime TEXT)"@
}

/// The statement that inserts one row into the table of the relational store.
pub open spec fn insert_statement() -> Seq<char> {
    "INSERT INTO mlcheck_results (file_name, target, description, detected, group_id, datetime) VALUES (?1, ?2, ?3, ?4, ?5, ?6)"@
}

/// The values of a record's row in the relational store.
pub open spec fn row_values(record: RecordText) -> RowValuesText {
    RowValuesText {
        file_name: record.file_name,
        target: record.rule_signature,
        description: record.rule_description,
        detected: record.detected,
        group_id: record.group_id.text(),
        datetime: record.timestamp.text(),
    }
}

impl Backend {
    /// The backend that an output format selector names: `csv` the flat
    /// table, `sql` the relational store.
    pub open spec fn of_selector(selector: Seq<char>) -> Option<Backend> {
        if selector == "csv"@ {
            Some(Backend::FlatTable)
        } else if selector == "sql"@ {
            Some(Backend::Relational)
        } else {
            None
        }
    }

    /// Whether the schema of this backend depends on what the destination
    /// holds already, so that its length has to be asked for first.
    pub open spec fn probes(self) -> bool {
        self == Backend::FlatTable
    }

    /// What establishes the schema on a destination that holds `existing_len`
    /// bytes: for the flat table the header row if and only if the destination
    /// is empty, for the relational store the statement that creates the table
    /// if it is absent.
    pub open spec fn schema_request(self, existing_len: int) -> SinkRequestText {
        match self {
            Backend::FlatTable => if existing_len == 0 {
                SinkRequestText::AppendText(header_line())
            } else {
                SinkRequestText::Nothing
            },
            Backend::Relational => SinkRequestText::Execute(create_table_statement()),
        }
    }

    /// What appends `record`: for the flat table its row, for the relational
    /// store the insert statement with the record's values.
    pub open spec fn append_request(self, record: RecordText) -> SinkRequestText {
        match self {
            Backend::FlatTable => SinkRequestText::AppendText(row_line(record)),
            Backend::Relational => SinkRequestText::Insert {
                statement: insert_statement(),
                values: row_values(record),
            },
        }
    }

    /// Picks the backend by the output format selector; any selector but
    /// `csv` and `sql` is an `InvalidOutputFormat`.
    pub fn from_selector(selector: &str) -> (picked: Result<Backend, ScanError>)
        ensures
            picked == match Backend::of_selector(selector@) {
                Some(backend) => Ok::<Backend, ScanError>(backend),
                None => Err::<Backend, ScanError>(ScanError::InvalidOutputFormat),
            },
    {
        let given = selector.to_owned();
        if given == "csv".to_owned() {
            Ok(Backend::FlatTable)
        } else if given == "sql".to_owned() {
            Ok(Backend::Relational)
        } else {
            Err(ScanError::InvalidOutputFormat)
        }
    }

    /// Whether the destination's length has to be asked for before the schema
    /// is established.
    pub fn needs_probe(&self) -> (needed: bool)
        ensures
            needed == self.probes(),
    {
        match self {
            Backend::FlatTable => true,
            Backend::Relational => false,
        }
    }

    /// Establishes the schema: says what has to be done to a destination that
    /// holds `existing_len` bytes so that it is ready for records. An existing,
    /// non-empty flat table is never given a header.
    pub fn ensure_schema(&self, existing_len: u64) -> (request: SinkRequest)
        ensures
            request@ == self.schema_request(existing_len as int),
    {
        match self {
            Backend::FlatTable => {
                if existing_len == 0 {
                    SinkRequest::AppendText(
                        "file_name,target,description,detected,group_id,datetime\n".to_owned(),
                    )
                } else {
                    SinkRequest::Nothing
                }
            },
            Backend::Relational => SinkRequest::Execute(
                "CREATE TABLE IF NOT EXISTS mlcheck_results (id INTEGER PRIMARY KEY AUTOINCREMENT, file_name TEXT, target TEXT, description TEXT, detected BOOLEAN, group_id TEXT, datetime TEXT)".to_owned(),
            ),
        }
    }

    /// Appends one record: says what has to be done to the destination so that
    /// it holds `record` after what it held before.
    pub fn append(&self, record: &ResultRecord) -> (request: SinkRequest)
        ensures
            request@ == self.append_request(record@),
    {
        match self {
            Backend::FlatTable => SinkRequest::AppendText(render_row(record)),
            Backend::Relational => SinkRequest::Insert {
                statement: "INSERT INTO mlcheck_results (file_name, target, description, detected, group_id, datetime) VALUES (?1, ?2, ?3, ?4, ?5, ?6)".to_owned(),
                values: RowValues {
                    file_name: record.file_name.clone(),
                    target: record.rule_signature.clone(),
                    description: record.rule_description.clone(),
                    detected: record.detected,
                    group_id: record.group_id.to_text(),
                    datetime: record.timestamp.to_rfc3339(),
                },
            },
        }
    }
}

/// What a flat-table destination holds once `request` has been carried out on
/// it: text is put at its end, and nothing else changes it.
pub open spec fn after_request(destination: Seq<char>, request: SinkRequestText) -> Seq<char> {
    match request {
        SinkRequestText::AppendText(text) => destination + text,
        _ => destination,
    }
}

/// What a flat-table destination holds once its schema has been established.
/// A destination is empty in characters exactly when it is empty in bytes, so
/// its length in characters stands for the length that is asked for.
pub open spec fn flat_table_established(destination: Seq<char>) -> Seq<char> {
    after_request(destination, Backend::FlatTable.schema_request(destination.len() as int))
}

/// Establishing the schema of a flat table is idempotent: an empty
/// destination gets the header row, once, however often the schema is
/// established, and a destination that holds anything is left as it is.
pub proof fn schema_established_once(destination: Seq<char>)
    ensures
        flat_table_established(flat_table_established(destination)) == flat_table_established(
            destination,
        ),
        destination.len() == 0 ==> flat_table_established(destination) == header_line(),
        destination.len() > 0 ==> flat_table_established(destination) == destination,
{
    reveal_strlit("file_name,target,description,detected,group_id,datetime\n");
    assert(Seq::<char>::empty() + header_line() =~= header_line());
}

/// The last three fields of a row never stand in quotes: the words `true` and
/// `false`, the canonical text of an identity and a text made of the
/// characters of RFC 3339 texts hold nothing that calls for quotes. A row
/// whose file name, signature and description hold no such character either
/// is the six texts with commas between them.
pub proof fn fixed_fields_stand_unquoted(record: RecordText)
    ensures
        quoted(bool_text(record.detected)) == bool_text(record.detected),
        quoted(record.group_id.text()) == record.group_id.text(),
        (forall|i: int|
            0 <= i < record.timestamp.text().len() ==> is_rfc3339_char(
                #[trigger] record.timestamp.text()[i],
            )) ==> quoted(record.timestamp.text()) == record.timestamp.text(),
{
    reveal_strlit("true");
    reveal_strlit("false");
    canonical_text_chars(record.group_id.value);
    let id = record.group_id.text();
    assert forall|i: int| 0 <= i < id.len() implies !is_special(#[trigger] id[i]) by {
        assert(is_canonical_char(id[i]));
    }
}

/// Every row can be taken apart again: it ends in a line feed, and what
/// stands before the line feed reads back as exactly the six field texts of
/// the record, each unchanged, whatever characters they hold.
pub proof fn row_fields_recovered(record: RecordText)
    ensures
        row_line(record).last() == '\n',
        fields(row_line(record).drop_last()) == row_fields(record),
{
    let comma = seq![','];
    let detected = bool_text(record.detected);
    let id = record.group_id.text();
    let at = record.timestamp.text();
    let rest5 = quoted(id) + comma + quoted(at);
    let rest4 = quoted(detected) + comma + rest5;
    let rest3 = quoted(record.rule_description) + comma + rest4;
    let rest2 = quoted(record.rule_signature) + comma + rest3;
    let rest1 = quoted(record.file_name) + comma + rest2;
    assert(row_line(record).drop_last() =~= rest1);
    fields_of_last(at);
    fields_of_joined(id, quoted(at));
    fields_of_joined(detected, rest5);
    fields_of_joined(record.rule_description, rest4);
    fields_of_joined(record.rule_signature, rest3);
    fields_of_joined(record.file_name, rest2);
    assert(fields(rest1) =~= row_fields(record));
}

/// A row tells its record: two records with the same row have the same file
/// name, signature, description, detection and group identity, and instants
/// with the same text. That the text tells the instant is stated where the
/// text is made, at `Timestamp::to_rfc3339`.
pub proof fn row_tells_record(first: RecordText, second: RecordText)
    requires
        row_line(first) == row_line(second),
    ensures
        first.file_name == second.file_name,
        first.rule_signature == second.rule_signature,
        first.rule_description == second.rule_description,
        first.detected == second.detected,
        first.group_id == second.group_id,
        first.timestamp.text() == second.timestamp.text(),
{
    row_fields_recovered(first);
    row_fields_recovered(second);
    let one = row_fields(first);
    let other = row_fields(second);
    assert(one == other);
    assert(one[0] == other[0] && one[1] == other[1] && one[2] == other[2]);
    assert(one[3] == other[3] && one[4] == other[4] && one[5] == other[5]);
    reveal_strlit("true");
    reveal_strlit("false");
    assert(bool_text(true).len() != bool_text(false).len());
    canonical_text_injective(first.group_id.value, second.group_id.value);
}

/// The row of `record` in the flat table.
pub fn render_row(record: &ResultRecord) -> (row: String)
    ensures
        row@ == row_line(record@),
{
    proof {
        reveal_strlit(",");
        reveal_strlit("\n");
        assert(","@ =~= seq![',']);
        assert("\n"@ =~= seq!['\n']);
    }
    let mut row = quote_field(record.file_name.as_str());
    row.append(",");
    row.append(quote_field(record.rule_signature.as_str()).as_str());
    row.append(",");
    row.append(quote_field(record.rule_description.as_str()).as_str());
    row.append(",");
    row.append(quote_field(if record.detected { "true" } else { "false" }).as_str());
    row.append(",");
    row.append(quote_field(record.group_id.to_text().as_str()).as_str());
    row.append(",");
    row.append(quote_field(record.timestamp.to_rfc3339().as_str()).as_str());
    row.append("\n");
    row
}

} // verus!
