//! Result records: what is kept of the evaluation of one rule against one file.

use crate::evaluator::{outcome_texts, Outcome, OutcomeText};
use crate::identity::GroupId;
use crate::instant::Timestamp;
use vstd::prelude::*;

verus! {

/// The outcome of one rule for one file, with the group identity and the
/// instant that it shares with the other records of the same file and run.
#[derive(Debug)]
pub struct ResultRecord {
    /// The name of the file that was evaluated.
    pub file_name: String,
    /// The signature that was searched for.
    pub rule_signature: String,
    /// What the signature stands for.
    pub rule_description: String,
    /// Whether the signature was found.
    pub detected: bool,
    /// The identity of the file's batch of records.
    pub group_id: GroupId,
    /// When the file was evaluated.
    pub timestamp: Timestamp,
}

/// A record over character sequences.
pub ghost struct RecordText {
    pub file_name: Seq<char>,
    pub rule_signature: Seq<char>,
    pub rule_description: Seq<char>,
    pub detected: bool,
    pub group_id: GroupId,
    pub timestamp: Timestamp,
}

impl View for ResultRecord {
    type V = RecordText;

    open spec fn view(&self) -> RecordText {
        RecordText {
            file_name: self.file_name@,
            rule_signature: self.rule_signature@,
            rule_description: self.rule_description@,
            detected: self.detected,
            group_id: self.group_id,
            timestamp: self.timestamp,
        }
    }
}

impl Clone for ResultRecord {
    fn clone(&self) -> (copy: Self)
        ensures
            copy == *self,
    {
        ResultRecord {
            file_name: self.file_name.clone(),
            rule_signature: self.rule_signature.clone(),
            rule_description: self.rule_description.clone(),
            detected: self.detected,
            group_id: self.group_id,
            timestamp: self.timestamp,
        }
    }
}

/// What a vector of records holds, as a sequence of `RecordText`.
pub open spec fn record_texts(records: Seq<ResultRecord>) -> Seq<RecordText> {
    Seq::new(records.len(), |i: int| records[i]@)
}

/// The record of one outcome.
pub open spec fn record_of(
    file_name: Seq<char>,
    outcome: OutcomeText,
    group_id: GroupId,
    now: Timestamp,
) -> RecordText {
    RecordText {
        file_name,
        rule_signature: outcome.rule.signature,
        rule_description: outcome.rule.description,
        detected: outcome.detected,
        group_id,
        timestamp: now,
    }
}

/// The records of a file's outcomes: one per outcome, in order.
pub open spec fn records_of(
    file_name: Seq<char>,
    outcomes: Seq<OutcomeText>,
    group_id: GroupId,
    now: Timestamp,
) -> Seq<RecordText> {
    Seq::new(outcomes.len(), |i: int| record_of(file_name, outcomes[i], group_id, now))
}

/// Every record of `records` carries `group_id` and `now`.
pub open spec fn share_group(records: Seq<RecordText>, group_id: GroupId, now: Timestamp) -> bool {
    forall|i: int|
        0 <= i < records.len() ==> (#[trigger] records[i]).group_id == group_id
            && records[i].timestamp == now
}

/// Wraps the outcomes of one file into records.
///
/// There is one record per outcome, in the order of the outcomes, and all of
/// them carry the one `group_id` and the one instant `now` that were handed in.
pub fn build_records(
    file_name: &str,
    outcomes: &Vec<Outcome>,
    group_id: GroupId,
    now: Timestamp,
) -> (records: Vec<ResultRecord>)
    ensures
        record_texts(records@) == records_of(file_name@, outcome_texts(outcomes@), group_id, now),
        share_group(record_texts(records@), group_id, now),
{
    let mut records: Vec<ResultRecord> = Vec::new();
    let mut i: usize = 0;
    while i < outcomes.len()
        invariant
            i <= outcomes.len(),
            records.len() == i,
            forall|j: int|
                0 <= j < i ==> (#[trigger] records@[j])@ == record_of(
                    file_name@,
                    outcomes@[j]@,
                    group_id,
                    now,
                ),
        decreases outcomes.len() - i,
    {
        let outcome = &outcomes[i];
        records.push(
            ResultRecord {
                file_name: file_name.to_owned(),
                rule_signature: outcome.rule.signature.clone(),
                rule_description: outcome.rule.description.clone(),
                detected: outcome.detected,
                group_id,
                timestamp: now,
            },
        );
        i += 1;
    }
    assert(record_texts(records@) =~= records_of(
        file_name@,
        outcome_texts(outcomes@),
        group_id,
        now,
    ));
    records
}

} // verus!
