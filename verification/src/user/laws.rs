//! What holds of a moderation record over any course of events.

use crate::user::filter::Findings;
use crate::user::model::ModerationError;
use crate::user::model::Record;
use crate::user::model::REPORT_LIMIT;
use crate::user::model::WARNING_LIMIT;
use vstd::prelude::*;

verus! {

/// One thing that can happen to a moderation record.
pub ghost enum Action {
    Warn,
    Report,
    Mute,
    Unmute,
    /// A text is processed, with this answer from the content filter.
    Process(Option<Findings>),
}

/// The record after one action.
pub open spec fn step(record: Record, action: Action) -> Record {
    match action {
        Action::Warn => record.after_warn(),
        Action::Report => record.after_report(),
        Action::Mute => record.after_mute(),
        Action::Unmute => record.after_unmute(),
        Action::Process(found) => record.after_process(found),
    }
}

/// The record after a course of actions, first to last.
pub open spec fn run(start: Record, actions: Seq<Action>) -> Record
    decreases actions.len(),
{
    if actions.len() == 0 {
        start
    } else {
        step(run(start, actions.drop_last()), actions.last())
    }
}

/// The record was not muted at the start nor after any of the actions but,
/// possibly, the last.
pub open spec fn unmuted_before_last(start: Record, actions: Seq<Action>) -> bool {
    forall|k: int| 0 <= k < actions.len() ==> !(#[trigger] run(start, actions.take(k))).is_muted
}

/// `n` warnings in a row.
pub open spec fn warnings_in_a_row(n: nat) -> Seq<Action> {
    Seq::new(n, |i: int| Action::Warn)
}

/// Whatever happens to a record, its warnings stay below the warning limit.
pub proof fn lemma_warnings_stay_below_limit(start: Record, actions: Seq<Action>)
    requires
        start.well_formed(),
    ensures
        run(start, actions).well_formed(),
    decreases actions.len(),
{
    if actions.len() > 0 {
        lemma_warnings_stay_below_limit(start, actions.drop_last());
    }
}

/// Until a record is muted its reports stay below the report limit. After
/// the action that mutes it they may stand at the limit itself, not above.
pub proof fn lemma_reports_stay_below_limit_until_muted(start: Record, actions: Seq<Action>)
    requires
        start.reports < REPORT_LIMIT,
        unmuted_before_last(start, actions),
    ensures
        ({
            let end = run(start, actions);
            end.reports < REPORT_LIMIT || (end.reports == REPORT_LIMIT && end.is_muted)
        }),
    decreases actions.len(),
{
    if actions.len() > 0 {
        let earlier = actions.drop_last();
        assert(earlier == actions.take(actions.len() - 1));
        assert forall|k: int| 0 <= k < earlier.len() implies !(#[trigger] run(
            start,
            earlier.take(k),
        )).is_muted by {
            assert(earlier.take(k) == actions.take(k));
        }
        lemma_reports_stay_below_limit_until_muted(start, earlier);
        assert(!run(start, actions.take(actions.len() - 1)).is_muted);
    }
}

/// No action takes a report away.
pub proof fn lemma_reports_never_decrease(start: Record, actions: Seq<Action>)
    ensures
        run(start, actions).reports >= start.reports,
    decreases actions.len(),
{
    if actions.len() > 0 {
        lemma_reports_never_decrease(start, actions.drop_last());
    }
}

/// A record becomes muted only by an explicit mute or by a report that
/// brings it to the report limit; such a report always mutes; and a muted
/// record stays muted until an explicit unmute.
pub proof fn lemma_mute_comes_and_goes(record: Record, action: Action)
    ensures
        ({
            let next = step(record, action);
            &&& !record.is_muted && next.is_muted ==> action is Mute || (next.reports
                == record.reports + 1 && next.reports >= REPORT_LIMIT)
            &&& next.reports > record.reports && next.reports >= REPORT_LIMIT ==> next.is_muted
            &&& record.is_muted && !next.is_muted ==> action is Unmute
        }),
{
}

/// After `n` warnings a fresh record holds `n % 5` warnings and `n / 5`
/// reports, and is muted once that makes ten reports.
pub proof fn lemma_warnings_in_a_row(n: nat)
    ensures
        ({
            let end = run(Record::fresh(), warnings_in_a_row(n));
            &&& end.warnings == n % (WARNING_LIMIT as nat)
            &&& end.reports == n / (WARNING_LIMIT as nat)
            &&& end.is_muted == (n >= WARNING_LIMIT * REPORT_LIMIT)
        }),
    decreases n,
{
    if n > 0 {
        lemma_warnings_in_a_row((n - 1) as nat);
        assert(warnings_in_a_row(n).drop_last() == warnings_in_a_row((n - 1) as nat));
    }
}

/// A mute taken back at once leaves a record unmuted and its counters as
/// they were.
pub proof fn lemma_mute_then_unmute(record: Record)
    ensures
        record.after_mute().after_unmute().is_muted == false,
        record.after_mute().after_unmute().warnings == record.warnings,
        record.after_mute().after_unmute().reports == record.reports,
{
}

/// A muted user is turned away whatever the text is, and the record stays
/// as it was.
pub proof fn lemma_muted_user_is_turned_away(record: Record, found: Option<Findings>)
    requires
        record.is_muted,
    ensures
        record.reply_to(found) == Err::<Seq<char>, ModerationError>(ModerationError::UserMuted),
        record.after_process(found) == record,
{
}

/// Severely offensive text is refused, evasive or not, and earns exactly
/// one warning.
pub proof fn lemma_offensive_text_is_refused(record: Record, found: Findings)
    requires
        !record.is_muted,
        found.offensive_severe,
    ensures
        record.reply_to(Some(found)) == Err::<Seq<char>, ModerationError>(
            ModerationError::InappropriateContent,
        ),
        record.after_process(Some(found)) == record.after_warn(),
{
}

/// Text that is evasive and not severely offensive passes, filtered, and
/// earns exactly one warning.
pub proof fn lemma_evasive_text_passes_with_a_warning(record: Record, found: Findings)
    requires
        !record.is_muted,
        !found.offensive_severe,
        found.evasive,
    ensures
        record.reply_to(Some(found)) == Ok::<Seq<char>, ModerationError>(found.filtered),
        record.after_process(Some(found)) == record.after_warn(),
{
}

/// Text that is neither severely offensive nor evasive passes, filtered, and
/// the record stays as it was.
pub proof fn lemma_clean_text_passes(record: Record, found: Findings)
    requires
        !record.is_muted,
        !found.offensive_severe,
        !found.evasive,
    ensures
        record.reply_to(Some(found)) == Ok::<Seq<char>, ModerationError>(found.filtered),
        record.after_process(Some(found)) == record,
{
}

/// Where the filter gives no answer the user is told so and the record
/// stays as it was.
pub proof fn lemma_failed_filter_costs_nothing(record: Record)
    requires
        !record.is_muted,
    ensures
        record.reply_to(None) == Err::<Seq<char>, ModerationError>(
            ModerationError::ClassificationFailed,
        ),
        record.after_process(None) == record,
{
}

/// One warning adds one to the warnings, or, where that reaches the warning
/// limit, sets them to zero and adds one report.
pub proof fn lemma_warning_counts(record: Record)
    requires
        record.well_formed(),
    ensures
        ({
            let next = record.after_warn();
            if record.warnings + 1 == WARNING_LIMIT {
                next.warnings == 0 && next.reports == record.reports + 1
            } else {
                next.warnings == record.warnings + 1 && next.reports == record.reports
                    && next.is_muted == record.is_muted
            }
        }),
{
}

} // verus!
