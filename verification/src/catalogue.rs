//! The rule catalogue: for each source language, the ordered list of
//! signatures to look for and what each one stands for.

use crate::error::ScanError;
use vstd::prelude::*;

verus! {

/// A family of source languages that shares one rule set.
#[derive(Clone, Copy, Debug, PartialEq, Eq, Structural)]
pub enum Language {
    /// Python scripts and notebooks.
    PythonLike,
    /// R scripts and R Markdown.
    RLike,
}

/// One check: the text to look for and what finding it means.
#[derive(Debug)]
pub struct Rule {
    /// The text that is searched for, literally and case-sensitively.
    pub signature: String,
    /// What the presence of the signature shows.
    pub description: String,
}

/// A rule as two character sequences.
pub ghost struct RuleText {
    pub signature: Seq<char>,
    pub description: Seq<char>,
}

impl View for Rule {
    type V = RuleText;

    open spec fn view(&self) -> RuleText {
        RuleText { signature: self.signature@, description: self.description@ }
    }
}

impl Clone for Rule {
    fn clone(&self) -> (copy: Self)
        ensures
            copy == *self,
    {
        Rule { signature: self.signature.clone(), description: self.description.clone() }
    }
}

/// What a vector of rules holds, as a sequence of `RuleText`.
pub open spec fn rule_texts(rules: Seq<Rule>) -> Seq<RuleText> {
    Seq::new(rules.len(), |i: int| rules[i]@)
}

/// The rules for Python-like sources.
pub open spec fn python_rules() -> Seq<RuleText> {
    seq![
        RuleText { signature: "sklearn"@, description: "Imports the scikit-learn library"@ },
        RuleText {
            signature: "train_test_split"@,
            description: "Splits data into train and test"@,
        },
        RuleText {
            signature: "stratify"@,
            description: "Ensures class balance in train and test datasets"@,
        },
        RuleText {
            signature: "random_state"@,
            description: "Sets seed for reproducible train and test datasets"@,
        },
        RuleText {
            signature: "Pipeline"@,
            description: "Uses a pipeline to guard against data leakage"@,
        },
    ]
}

/// The rules for R-like sources.
pub open spec fn r_rules() -> Seq<RuleText> {
    seq![
        RuleText { signature: "tidymodels"@, description: "Imports the tidymodels library"@ },
        RuleText { signature: "initial_split"@, description: "Splits data into train and test"@ },
        RuleText {
            signature: "strata"@,
            description: "Ensures class balance in train and test datasets"@,
        },
        RuleText {
            signature: "set.seed"@,
            description: "Sets seed for reproducible train and test datasets"@,
        },
        RuleText {
            signature: "recipe"@,
            description: "Uses a recipe to guard against data leakage"@,
        },
    ]
}

/// The language that a tag names, if any.
pub open spec fn language_of_tag(tag: Seq<char>) -> Option<Language> {
    if tag == "python-like"@ {
        Some(Language::PythonLike)
    } else if tag == "r-like"@ {
        Some(Language::RLike)
    } else {
        None
    }
}

impl Language {
    /// The rule set of this language.
    pub open spec fn rule_set(self) -> Seq<RuleText> {
        match self {
            Language::PythonLike => python_rules(),
            Language::RLike => r_rules(),
        }
    }

    /// The tag of this language.
    pub open spec fn tag_text(self) -> Seq<char> {
        match self {
            Language::PythonLike => "python-like"@,
            Language::RLike => "r-like"@,
        }
    }

    /// The tag under which this language's rule set is kept.
    pub fn tag(&self) -> (tag: &'static str)
        ensures
            tag@ == self.tag_text(),
    {
        match self {
            Language::PythonLike => "python-like",
            Language::RLike => "r-like",
        }
    }

    /// The language with the given tag.
    pub fn from_tag(tag: &str) -> (language: Option<Language>)
        ensures
            language == language_of_tag(tag@),
    {
        let given = tag.to_owned();
        if given == "python-like".to_owned() {
            Some(Language::PythonLike)
        } else if given == "r-like".to_owned() {
            Some(Language::RLike)
        } else {
            None
        }
    }

    /// The rules of this language, in catalogue order.
    pub fn rules(&self) -> (rules: Vec<Rule>)
        ensures
            rule_texts(rules@) == self.rule_set(),
    {
        let mut rules: Vec<Rule> = Vec::new();
        match self {
            Language::PythonLike => {
                rules.push(rule("sklearn", "Imports the scikit-learn library"));
                rules.push(rule("train_test_split", "Splits data into train and test"));
                rules.push(rule("stratify", "Ensures class balance in train and test datasets"));
                rules.push(
                    rule("random_state", "Sets seed for reproducible train and test datasets"),
                );
                rules.push(rule("Pipeline", "Uses a pipeline to guard against data leakage"));
            },
            Language::RLike => {
                rules.push(rule("tidymodels", "Imports the tidymodels library"));
                rules.push(rule("initial_split", "Splits data into train and test"));
                rules.push(rule("strata", "Ensures class balance in train and test datasets"));
                rules.push(rule("set.seed", "Sets seed for reproducible train and test datasets"));
                rules.push(rule("recipe", "Uses a recipe to guard against data leakage"));
            },
        }
        assert(rule_texts(rules@) =~= self.rule_set());
        rules
    }
}

/// A rule made of two texts.
pub fn rule(signature: &str, description: &str) -> (made: Rule)
    ensures
        made@ == (RuleText { signature: signature@, description: description@ }),
{
    Rule { signature: signature.to_owned(), description: description.to_owned() }
}

/// The rule set kept under `tag`: total over the tags `python-like` and
/// `r-like`, and `UnsupportedLanguage` for every other tag.
pub fn rule_set_for(tag: &str) -> (found: Result<Vec<Rule>, ScanError>)
    ensures
        match language_of_tag(tag@) {
            Some(language) => found is Ok && rule_texts(found->Ok_0@) == language.rule_set(),
            None => found == Err::<Vec<Rule>, ScanError>(ScanError::UnsupportedLanguage),
        },
{
    match Language::from_tag(tag) {
        Some(language) => Ok(language.rules()),
        None => Err(ScanError::UnsupportedLanguage),
    }
}

} // verus!
