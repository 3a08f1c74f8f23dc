//! The content filter that the moderation record consults.

use rustrict::Censor;
use rustrict::Type;
use vstd::prelude::*;

verus! {

/// What the content filter made of one text.
#[derive(Clone, Debug, PartialEq, Eq)]
pub struct Classification {
    /// The text with what the filter censors replaced by `*`.
    pub filtered: String,
    /// The text holds something severely offensive.
    pub offensive_severe: bool,
    /// The text tries to slip something past the filter.
    pub evasive: bool,
}

/// A `Classification` as mathematical values.
pub ghost struct Findings {
    pub filtered: Seq<char>,
    pub offensive_severe: bool,
    pub evasive: bool,
}

impl View for Classification {
    type V = Findings;

    open spec fn view(&self) -> Findings {
        Findings {
            filtered: self.filtered@,
            offensive_severe: self.offensive_severe,
            evasive: self.evasive,
        }
    }
}

/// What `rustrict`'s censor makes of `input` under the options that this
/// moderation uses: it censors what is severe, the first character too where
/// the word is severely offensive; it ignores neither false positives nor
/// self-censoring; it writes `*` over what it censors. The answer holds the
/// censored text, whether the analysis meets `OFFENSIVE & SEVERE`, and
/// whether it meets `EVASIVE`.
pub uninterp spec fn classification(input: Seq<char>) -> Findings;

/// Hands `input` to `rustrict`: builds a censor with `Censor::from_str`, sets
/// the five options that `classification` lists (`with_censor_threshold`,
/// `with_censor_first_character_threshold`, `with_ignore_false_positives`,
/// `with_ignore_self_censoring`, `with_censor_replacement`), runs
/// `Censor::censor_and_analyze`, and puts the two questions to the analysis
/// with `Type::is`.
///
/// Trusted, not proved: the answer is `classification(input@)`. That claims
/// one thing, that the answer depends on the text alone: the censor reads the
/// text and the word lists compiled into `rustrict`, nothing else. What the
/// answer is for a given text is stated nowhere.
#[verifier::external_body]
pub(crate) fn classify(input: &str) -> (found: Classification)
    ensures
        found@ == classification(input@),
{
    let (filtered, analysis) = Censor::from_str(input)
        .with_censor_threshold(Type::SEVERE)
        .with_censor_first_character_threshold(Type::OFFENSIVE & Type::SEVERE)
        .with_ignore_false_positives(false)
        .with_ignore_self_censoring(false)
        .with_censor_replacement('*')
        .censor_and_analyze();
    Classification {
        filtered,
        offensive_severe: analysis.is(Type::OFFENSIVE & Type::SEVERE),
        evasive: analysis.is(Type::EVASIVE),
    }
}

} // verus!
