//! The rule evaluator: which rules of a rule set a file's text shows, and how
//! large a share of the rule set that is.
//!
//! Detection is a plain substring test, line by line. Nothing is tokenised: a
//! signature inside a comment or a string literal counts, and a signature that
//! is broken across two lines does not.

use crate::catalogue::{rule_texts, Rule, RuleText};
use crate::text::{chars_of, contains, has_substring, lines, split_lines, texts};
use vstd::prelude::*;

verus! {

/// What the evaluation of one rule against one file found.
#[derive(Debug)]
pub struct Outcome {
    /// The rule that was evaluated.
    pub rule: Rule,
    /// Whether some line of the file contains the rule's signature.
    pub detected: bool,
}

/// An outcome over character sequences.
pub ghost struct OutcomeText {
    pub rule: RuleText,
    pub detected: bool,
}

impl View for Outcome {
    type V = OutcomeText;

    open spec fn view(&self) -> OutcomeText {
        OutcomeText { rule: self.rule@, detected: self.detected }
    }
}

impl Clone for Outcome {
    fn clone(&self) -> (copy: Self)
        ensures
            copy == *self,
    {
        Outcome { rule: self.rule.clone(), detected: self.detected }
    }
}

/// What a vector of outcomes holds, as a sequence of `OutcomeText`.
pub open spec fn outcome_texts(outcomes: Seq<Outcome>) -> Seq<OutcomeText> {
    Seq::new(outcomes.len(), |i: int| outcomes[i]@)
}

/// One of `some_lines` contains `signature`.
pub open spec fn some_line_contains(some_lines: Seq<Seq<char>>, signature: Seq<char>) -> bool {
    exists|k: int| 0 <= k < some_lines.len() && contains(#[trigger] some_lines[k], signature)
}

/// The detection policy: a signature is detected in a text if and only if at
/// least one line of the text contains it as a literal, case-sensitive
/// substring.
pub open spec fn detected_in(content: Seq<char>, signature: Seq<char>) -> bool {
    some_line_contains(lines(content), signature)
}

/// The evaluation of a rule set against a text: one outcome per rule, in the
/// order of the rules.
pub open spec fn evaluation(content: Seq<char>, rules: Seq<RuleText>) -> Seq<OutcomeText> {
    Seq::new(
        rules.len(),
        |i: int| OutcomeText { rule: rules[i], detected: detected_in(content, rules[i].signature) },
    )
}

/// The number of outcomes that are detections.
pub open spec fn detected_count(outcomes: Seq<OutcomeText>) -> nat
    decreases outcomes.len(),
{
    if outcomes.len() == 0 {
        0
    } else {
        detected_count(outcomes.drop_last()) + if outcomes.last().detected {
            1nat
        } else {
            0nat
        }
    }
}

/// The share of detections among the outcomes, in whole percent, rounded down;
/// 0 for no outcomes at all.
pub open spec fn percentage_of(outcomes: Seq<OutcomeText>) -> nat {
    if outcomes.len() == 0 {
        0
    } else {
        100 * detected_count(outcomes) / outcomes.len()
    }
}

/// No more outcomes are detections than there are outcomes.
pub proof fn detected_count_bounded(outcomes: Seq<OutcomeText>)
    ensures
        detected_count(outcomes) <= outcomes.len(),
    decreases outcomes.len(),
{
    if outcomes.len() > 0 {
        detected_count_bounded(outcomes.drop_last());
    }
}

/// The presence percentage of `N` outcomes with `K` detections is `100 * K / N`
/// in whole percent: it lies between 0 and 100, it is the largest whole number
/// of percent that is not above the exact share, and it is the exact share
/// wherever that is a whole number (2 of 5 is 40). Without outcomes it is 0.
pub proof fn percentage_is_share(outcomes: Seq<OutcomeText>)
    ensures
        0 <= percentage_of(outcomes) <= 100,
        outcomes.len() == 0 ==> percentage_of(outcomes) == 0,
        outcomes.len() > 0 ==> percentage_of(outcomes) * outcomes.len() <= 100 * detected_count(
            outcomes,
        ) < (percentage_of(outcomes) + 1) * outcomes.len(),
        outcomes.len() > 0 && (100 * detected_count(outcomes)) % outcomes.len() == 0
            ==> percentage_of(outcomes) * outcomes.len() == 100 * detected_count(outcomes),
{
    detected_count_bounded(outcomes);
    if outcomes.len() > 0 {
        let total = outcomes.len() as int;
        let hundredfold = 100 * detected_count(outcomes) as int;
        assert(hundredfold == total * (hundredfold / total) + hundredfold % total
            && 0 <= hundredfold % total < total) by (nonlinear_arith)
            requires
                total > 0,
        ;
        assert(hundredfold / total <= 100) by (nonlinear_arith)
            requires
                total > 0,
                0 <= hundredfold <= 100 * total,
        ;
        assert(hundredfold / total >= 0) by (nonlinear_arith)
            requires
                total > 0,
                0 <= hundredfold,
        ;
        assert((hundredfold / total) * total == total * (hundredfold / total))
            by (nonlinear_arith);
        assert((hundredfold / total + 1) * total == total * (hundredfold / total) + total)
            by (nonlinear_arith);
    }
}

/// Whether one of `some_lines` contains `signature`.
pub fn found_in_lines(some_lines: &Vec<Vec<char>>, signature: &Vec<char>) -> (found: bool)
    ensures
        found == some_line_contains(texts(some_lines@), signature@),
{
    let mut k: usize = 0;
    while k < some_lines.len()
        invariant
            k <= some_lines.len(),
            forall|j: int| 0 <= j < k ==> !contains(#[trigger] texts(some_lines@)[j], signature@),
        decreases some_lines.len() - k,
    {
        if has_substring(&some_lines[k], signature) {
            assert(contains(texts(some_lines@)[k as int], signature@));
            return true;
        }
        k += 1;
    }
    false
}

/// Whether some line of `content` contains `signature`.
pub fn is_detected(content: &str, signature: &str) -> (detected: bool)
    ensures
        detected == detected_in(content@, signature@),
{
    let content_lines = split_lines(&chars_of(content));
    found_in_lines(&content_lines, &chars_of(signature))
}

/// Evaluates every rule of `rules` against `content`.
///
/// The result has one outcome per rule, in the order of the rules; a rule is
/// detected exactly when `detected_in` holds of the content and the rule's
/// signature.
pub fn evaluate(content: &str, rules: &Vec<Rule>) -> (outcomes: Vec<Outcome>)
    ensures
        outcome_texts(outcomes@) == evaluation(content@, rule_texts(rules@)),
{
    let content_lines = split_lines(&chars_of(content));
    let mut outcomes: Vec<Outcome> = Vec::new();
    let mut i: usize = 0;
    while i < rules.len()
        invariant
            i <= rules.len(),
            outcomes.len() == i,
            texts(content_lines@) == lines(content@),
            forall|j: int|
                0 <= j < i ==> (#[trigger] outcomes@[j])@ == evaluation(
                    content@,
                    rule_texts(rules@),
                )[j],
        decreases rules.len() - i,
    {
        let signature = chars_of(rules[i].signature.as_str());
        let detected = found_in_lines(&content_lines, &signature);
        outcomes.push(Outcome { rule: rules[i].clone(), detected });
        i += 1;
    }
    assert(outcome_texts(outcomes@) =~= evaluation(content@, rule_texts(rules@)));
    outcomes
}

/// The number of detections among `outcomes`.
pub fn count_detected(outcomes: &Vec<Outcome>) -> (count: usize)
    ensures
        count == detected_count(outcome_texts(outcomes@)),
{
    let ghost all = outcome_texts(outcomes@);
    let mut count: usize = 0;
    let mut i: usize = 0;
    while i < outcomes.len()
        invariant
            i <= outcomes.len(),
            all == outcome_texts(outcomes@),
            count == detected_count(all.take(i as int)),
            count <= i,
        decreases outcomes.len() - i,
    {
        assert(all.take(i + 1).drop_last() =~= all.take(i as int));
        if outcomes[i].detected {
            count += 1;
        }
        i += 1;
    }
    assert(all.take(outcomes.len() as int) =~= all);
    count
}

/// The presence percentage: `100 * K / N` for `N` outcomes of which `K` are
/// detections, in whole percent, rounded down, and 0 when there is no outcome.
pub fn presence_percentage(outcomes: &Vec<Outcome>) -> (percent: u8)
    ensures
        percent == percentage_of(outcome_texts(outcomes@)),
        percent <= 100,
{
    let total = outcomes.len();
    if total == 0 {
        return 0;
    }
    let detected = count_detected(outcomes);
    proof {
        detected_count_bounded(outcome_texts(outcomes@));
        assert(100 * detected / (total as int) <= 100) by (nonlinear_arith)
            requires
                0 <= detected <= total,
                total > 0,
        ;
    }
    let hundredfold: u128 = 100 * (detected as u128);
    (hundredfold / (total as u128)) as u8
}

} // verus!
