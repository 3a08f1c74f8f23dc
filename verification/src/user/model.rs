//! A user and the moderation record that the user owns.

use crate::user::filter::classification;
use crate::user::filter::classify;
use crate::user::filter::Classification;
use crate::user::filter::Findings;
use vstd::prelude::*;

verus! {

/// Why a text was not passed on.
#[derive(Clone, Copy, Debug, PartialEq, Eq, Structural)]
pub enum ModerationError {
    /// The user is muted: nothing they write is looked at.
    UserMuted,
    /// The text is severely offensive.
    InappropriateContent,
    /// The content filter gave no answer.
    ClassificationFailed,
}

impl ModerationError {
    /// The words for this error.
    pub open spec fn text(self) -> Seq<char> {
        match self {
            ModerationError::UserMuted => "User is muted"@,
            ModerationError::InappropriateContent => "Message is inappropriate"@,
            ModerationError::ClassificationFailed => "Message could not be classified"@,
        }
    }

    /// The words for this error, to show to the user.
    pub fn message(&self) -> (text: String)
        ensures
            text@ == self.text(),
    {
        match self {
            ModerationError::UserMuted => "User is muted".to_owned(),
            ModerationError::InappropriateContent => "Message is inappropriate".to_owned(),
            ModerationError::ClassificationFailed => "Message could not be classified".to_owned(),
        }
    }
}

/// The filter's answer as mathematical values; `None` where it gave none.
pub open spec fn findings(found: Option<Classification>) -> Option<Findings> {
    match found {
        Some(c) => Some(c@),
        None => None,
    }
}

/// A reply of `process` with its text as a sequence of characters.
pub open spec fn reply_view(reply: Result<String, ModerationError>) -> Result<
    Seq<char>,
    ModerationError,
> {
    match reply {
        Ok(text) => Ok(text@),
        Err(e) => Err(e),
    }
}

/// Warnings that make one report.
pub const WARNING_LIMIT: u32 = 5;

/// Reports that mute the user.
pub const REPORT_LIMIT: u32 = 10;

/// What a moderation record holds, as mathematical values.
pub ghost struct Record {
    pub reports: nat,
    pub warnings: nat,
    pub is_muted: bool,
}

impl Record {
    /// The record of a user nobody has complained about.
    pub open spec fn fresh() -> Record {
        Record { reports: 0, warnings: 0, is_muted: false }
    }

    /// The warning count stays below its limit.
    pub open spec fn well_formed(self) -> bool {
        self.warnings < WARNING_LIMIT
    }

    /// The next warning completes a report.
    pub open spec fn rolls_over(self) -> bool {
        self.warnings + 1 >= WARNING_LIMIT
    }

    /// One more report; at the report limit the user is muted.
    pub open spec fn after_report(self) -> Record {
        Record {
            reports: self.reports + 1,
            is_muted: self.is_muted || self.reports + 1 >= REPORT_LIMIT,
            ..self
        }
    }

    /// One more warning; the warning that reaches the limit is traded for a report.
    pub open spec fn after_warn(self) -> Record {
        if self.rolls_over() {
            Record { warnings: 0, ..self }.after_report()
        } else {
            Record { warnings: self.warnings + 1, ..self }
        }
    }

    /// The filter's answer earns the user a warning: they are not muted and
    /// the text is severely offensive or evasive.
    pub open spec fn warned_for(self, found: Option<Findings>) -> bool {
        &&& !self.is_muted
        &&& found matches Some(f)
        &&& f.offensive_severe || f.evasive
    }

    /// The record after a text with this answer from the filter was processed.
    pub open spec fn after_process(self, found: Option<Findings>) -> Record {
        if self.warned_for(found) {
            self.after_warn()
        } else {
            self
        }
    }

    /// What the user is told: the filtered text, or why there is none. A
    /// muted user is turned away before the filter is asked.
    pub open spec fn reply_to(self, found: Option<Findings>) -> Result<Seq<char>, ModerationError> {
        if self.is_muted {
            Err(ModerationError::UserMuted)
        } else {
            match found {
                None => Err(ModerationError::ClassificationFailed),
                Some(f) => if f.offensive_severe {
                    Err(ModerationError::InappropriateContent)
                } else {
                    Ok(f.filtered)
                },
            }
        }
    }

    /// Muted, counters untouched.
    pub open spec fn after_mute(self) -> Record {
        Record { is_muted: true, ..self }
    }

    /// Not muted, counters untouched.
    pub open spec fn after_unmute(self) -> Record {
        Record { is_muted: false, ..self }
    }
}

/// A user of the chat.
#[derive(Clone)]
pub struct User {
    pub name: String,
    pub id: i32,
    pub glass: GlassModeration,
}

/// A user as mathematical values.
pub ghost struct UserView {
    pub name: Seq<char>,
    pub id: int,
    pub glass: Record,
}

impl View for User {
    type V = UserView;

    open spec fn view(&self) -> UserView {
        UserView { name: self.name@, id: self.id as int, glass: self.glass@ }
    }
}

impl User {
    /// A user with this name and id and a fresh moderation record.
    pub fn new(name: String, id: i32) -> (user: Self)
        ensures
            user@ == (UserView { name: name@, id: id as int, glass: Record::fresh() }),
    {
        Self { name, id, glass: GlassModeration::default() }
    }
}

/// The moderation record of one user.
#[derive(Clone)]
pub struct GlassModeration {
    reports: u32,
    warnings: u32,
    pub is_muted: bool,
}

impl View for GlassModeration {
    type V = Record;

    closed spec fn view(&self) -> Record {
        Record {
            reports: self.reports as nat,
            warnings: self.warnings as nat,
            is_muted: self.is_muted,
        }
    }
}

impl Default for GlassModeration {
    fn default() -> (record: Self)
        ensures
            record@ == Record::fresh(),
            record@.well_formed(),
    {
        GlassModeration { reports: 0, warnings: 0, is_muted: false }
    }
}

impl GlassModeration {
    /// Runs `input` through the content filter. A muted user is turned away.
    /// Severely offensive text is refused and earns a warning; evasive text
    /// earns a warning and passes, filtered; any other text passes, filtered.
    pub fn process(&mut self, input: &str) -> (reply: Result<String, ModerationError>)
        requires
            !old(self)@.is_muted && old(self)@.rolls_over() ==> old(self)@.reports < u32::MAX,
        ensures
            final(self)@ == old(self)@.after_process(Some(classification(input@))),
            old(self)@.well_formed() ==> final(self)@.well_formed(),
            reply_view(reply) == old(self)@.reply_to(Some(classification(input@))),
    {
        if self.is_muted {
            return Err(ModerationError::UserMuted);
        }
        let found = classify(input);
        self.process_classified(Some(found))
    }

    /// The part of `process` that follows the content filter: `found` is the
    /// filter's answer, or `None` where it failed, which costs the user nothing.
    pub fn process_classified(&mut self, found: Option<Classification>) -> (reply: Result<
        String,
        ModerationError,
    >)
        requires
            old(self)@.warned_for(findings(found)) && old(self)@.rolls_over() ==> old(self)@.reports
                < u32::MAX,
        ensures
            final(self)@ == old(self)@.after_process(findings(found)),
            old(self)@.well_formed() ==> final(self)@.well_formed(),
            reply_view(reply) == old(self)@.reply_to(findings(found)),
    {
        if self.is_muted {
            return Err(ModerationError::UserMuted);
        }
        match found {
            None => Err(ModerationError::ClassificationFailed),
            Some(c) => {
                if c.offensive_severe {
                    self.warn();
                    Err(ModerationError::InappropriateContent)
                } else {
                    if c.evasive {
                        self.warn();
                    }
                    Ok(c.filtered)
                }
            },
        }
    }

    /// Warns the user; the warning that reaches the limit becomes a report.
    pub fn warn(&mut self)
        requires
            old(self)@.rolls_over() ==> old(self)@.reports < u32::MAX,
        ensures
            final(self)@ == old(self)@.after_warn(),
            final(self)@.well_formed(),
    {
        if self.warnings >= WARNING_LIMIT - 1 {
            self.warnings = 0;
            self.report();
        } else {
            self.warnings += 1;
        }
    }

    /// Reports the user, muting them once the reports reach the limit.
    pub fn report(&mut self)
        requires
            old(self)@.reports < u32::MAX,
        ensures
            final(self)@ == old(self)@.after_report(),
            old(self)@.well_formed() ==> final(self)@.well_formed(),
    {
        self.reports += 1;
        if self.reports >= REPORT_LIMIT {
            self.is_muted = true;
        }
    }

    /// The reports counted so far.
    pub fn reports(&self) -> (count: u32)
        ensures
            count == self@.reports,
    {
        self.reports
    }

    /// The warnings counted since the last report.
    pub fn warnings(&self) -> (count: u32)
        ensures
            count == self@.warnings,
    {
        self.warnings
    }

    /// Mutes the user.
    pub fn mute(&mut self)
        ensures
            final(self)@ == old(self)@.after_mute(),
            old(self)@.well_formed() ==> final(self)@.well_formed(),
    {
        self.is_muted = true;
    }

    /// Unmutes the user.
    pub fn unmute(&mut self)
        ensures
            final(self)@ == old(self)@.after_unmute(),
            old(self)@.well_formed() ==> final(self)@.well_formed(),
    {
        self.is_muted = false;
    }
}

} // verus!
