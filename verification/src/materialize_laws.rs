//! What holds of every materialization, whatever the driver reports.

use vstd::prelude::*;
use crate::materialize::{
    next, pending, started, ConversionFailureView, EffectView, MaterializeErrorView,
    MaterializerView, ReportView, StageView,
};
use crate::transient::lemma_transient_names_differ;

verus! {

/// The stages in the order in which they are passed.
pub open spec fn rank(stage: StageView) -> nat {
    match stage {
        StageView::Writing => 0,
        StageView::Converting => 1,
        StageView::Cleaning(_) => 2,
        StageView::Finished(_) => 3,
    }
}

/// `report` tells the outcome of the effect that is pending in `stage`.
pub open spec fn answers(stage: StageView, report: ReportView) -> bool {
    match stage {
        StageView::Writing => report is Written || report is WriteFailed,
        StageView::Converting => report is ConverterNotStarted || report is ConverterExited
            || report is ConverterInterrupted,
        StageView::Cleaning(_) => report is CleanupAttempted,
        StageView::Finished(_) => false,
    }
}

/// The result, once it is known.
pub open spec fn decided(stage: StageView) -> Option<Result<(), MaterializeErrorView>> {
    match stage {
        StageView::Cleaning(verdict) => Some(verdict),
        StageView::Finished(verdict) => Some(verdict),
        _ => None,
    }
}

/// The materialization after the driver has made `reports`, in order.
pub open spec fn run(start: MaterializerView, reports: Seq<ReportView>) -> MaterializerView
    decreases reports.len(),
{
    if reports.len() == 0 {
        start
    } else {
        next(run(start, reports.drop_last()), reports.last())
    }
}

/// During the run the driver has reported that the transient file exists.
pub open spec fn file_created(start: MaterializerView, reports: Seq<ReportView>) -> bool
    decreases reports.len(),
{
    if reports.len() == 0 {
        false
    } else {
        let before = run(start, reports.drop_last());
        let created_now = before.stage is Writing && match reports.last() {
            ReportView::Written => true,
            ReportView::WriteFailed { created, .. } => created,
            _ => false,
        };
        created_now || file_created(start, reports.drop_last())
    }
}

/// How often during the run the driver was asked to remove the transient
/// file and reported that it tried.
pub open spec fn removal_attempts(start: MaterializerView, reports: Seq<ReportView>) -> nat
    decreases reports.len(),
{
    if reports.len() == 0 {
        0
    } else {
        let before = run(start, reports.drop_last());
        let attempted_now: nat = if before.stage is Cleaning && reports.last()
            is CleanupAttempted {
            1
        } else {
            0
        };
        attempted_now + removal_attempts(start, reports.drop_last())
    }
}

/// The transient file that an effect names, if it names one.
pub open spec fn transient_in(effect: EffectView) -> Option<Seq<char>> {
    match effect {
        EffectView::WriteTransient { path, .. } => Some(path),
        EffectView::RunConverter { args, .. } => Some(args[0]),
        EffectView::RemoveTransient { path } => Some(path),
        EffectView::Finish(_) => None,
    }
}

/// A report that answers the pending effect moves the materialization to a
/// later stage; any other report leaves it as it is. What is written, and
/// where, never changes.
pub proof fn lemma_report_advances_or_is_ignored(m: MaterializerView, report: ReportView)
    ensures
        answers(m.stage, report) ==> rank(next(m, report).stage) > rank(m.stage),
        !answers(m.stage, report) ==> next(m, report) == m,
        next(m, report).transient == m.transient,
        next(m, report).markdown == m.markdown,
        next(m, report).output_path == m.output_path,
{
}

/// A run changes only the stage.
pub proof fn lemma_run_keeps_the_job(start: MaterializerView, reports: Seq<ReportView>)
    ensures
        run(start, reports).transient == start.transient,
        run(start, reports).markdown == start.markdown,
        run(start, reports).output_path == start.output_path,
        rank(run(start, reports).stage) >= rank(start.stage),
    decreases reports.len(),
{
    if reports.len() > 0 {
        lemma_run_keeps_the_job(start, reports.drop_last());
    }
}

/// Once the result is known, nothing that is reported changes it: least of
/// all whether the removal of the transient file succeeded.
pub proof fn lemma_verdict_is_final(start: MaterializerView, reports: Seq<ReportView>)
    requires
        decided(start.stage) is Some,
    ensures
        decided(run(start, reports).stage) == decided(start.stage),
    decreases reports.len(),
{
    if reports.len() > 0 {
        lemma_verdict_is_final(start, reports.drop_last());
    }
}

proof fn lemma_run_from_first(start: MaterializerView, reports: Seq<ReportView>)
    requires
        reports.len() > 0,
    ensures
        run(start, reports) == run(next(start, reports[0]), reports.skip(1)),
    decreases reports.len(),
{
    if reports.len() == 1 {
        assert(reports.drop_last().len() == 0);
        assert(reports.skip(1).len() == 0);
    } else {
        lemma_run_from_first(start, reports.drop_last());
        assert(reports.drop_last().skip(1) =~= reports.skip(1).drop_last());
    }
}

/// When the transient file cannot be written, the result is `WriteFailed`
/// with the cause reported, and at no time is the converter asked for.
pub proof fn lemma_write_failure_skips_converter(
    markdown: Seq<char>,
    output_path: Seq<char>,
    token: u64,
    reports: Seq<ReportView>,
    upto: int,
)
    requires
        reports.len() > 0,
        reports[0] is WriteFailed,
        0 <= upto <= reports.len(),
    ensures
        !(pending(run(started(markdown, output_path, token), reports.take(upto)))
            is RunConverter),
        decided(run(started(markdown, output_path, token), reports).stage) == Some(
            Err::<(), MaterializeErrorView>(
                MaterializeErrorView::WriteFailed(reports[0]->WriteFailed_cause),
            ),
        ),
{
    let start = started(markdown, output_path, token);
    let failed = next(start, reports[0]);
    lemma_run_from_first(start, reports);
    lemma_verdict_is_final(failed, reports.skip(1));
    if upto > 0 {
        let seen = reports.take(upto);
        lemma_run_from_first(start, seen);
        lemma_verdict_is_final(failed, seen.skip(1));
    }
}

/// When the converter cannot be launched, the removal of the transient file
/// is asked for next, the result is `ConversionFailed`, and the
/// materialization finishes only after the driver has tried the removal.
pub proof fn lemma_missing_converter_is_cleaned_up(
    m: MaterializerView,
    reports: Seq<ReportView>,
)
    requires
        m.stage is Converting,
        reports.len() > 0,
        reports[0] is ConverterNotStarted,
    ensures
        pending(next(m, reports[0])) == (EffectView::RemoveTransient { path: m.transient }),
        decided(run(m, reports).stage) == Some(
            Err::<(), MaterializeErrorView>(
                MaterializeErrorView::ConversionFailed(
                    ConversionFailureView::NotStarted {
                        cause: reports[0]->ConverterNotStarted_cause,
                    },
                ),
            ),
        ),
        run(m, reports).stage is Finished ==> removal_attempts(m, reports) == 1,
{
    let failed = next(m, reports[0]);
    lemma_run_from_first(m, reports);
    lemma_verdict_is_final(failed, reports.skip(1));
    lemma_removal_by_stage(m, reports);
}

/// Where a run stands tells what was reported of the transient file: it is
/// created before the converter is asked for, and the removal is tried once,
/// between the result and the end, unless the file never came to be.
pub proof fn lemma_removal_by_stage(start: MaterializerView, reports: Seq<ReportView>)
    requires
        start.stage is Writing || start.stage is Converting,
    ensures
        match run(start, reports).stage {
            StageView::Writing => start.stage is Writing && !file_created(start, reports)
                && removal_attempts(start, reports) == 0,
            StageView::Converting => (start.stage is Writing ==> file_created(start, reports))
                && removal_attempts(start, reports) == 0,
            StageView::Cleaning(_) => (start.stage is Writing ==> file_created(start, reports))
                && removal_attempts(start, reports) == 0,
            StageView::Finished(_) => if start.stage is Writing && !file_created(
                start,
                reports,
            ) {
                removal_attempts(start, reports) == 0
            } else {
                removal_attempts(start, reports) == 1
            },
        },
    decreases reports.len(),
{
    if reports.len() > 0 {
        lemma_removal_by_stage(start, reports.drop_last());
    }
}

/// A run that has finished has tried to remove the transient file exactly
/// once if the file was ever created, and never otherwise; a run that has
/// not finished has not tried yet.
pub proof fn lemma_finished_run_has_cleaned_up(
    markdown: Seq<char>,
    output_path: Seq<char>,
    token: u64,
    reports: Seq<ReportView>,
)
    ensures
        ({
            let start = started(markdown, output_path, token);
            let attempts = removal_attempts(start, reports);
            if run(start, reports).stage is Finished {
                attempts == if file_created(start, reports) {
                    1nat
                } else {
                    0nat
                }
            } else {
                attempts == 0
            }
        }),
{
    lemma_removal_by_stage(started(markdown, output_path, token), reports);
}

/// Two runs with different tokens never name the same transient file,
/// however far each has come.
pub proof fn lemma_runs_use_distinct_files(
    first: MaterializerView,
    second: MaterializerView,
    first_token: u64,
    second_token: u64,
    first_reports: Seq<ReportView>,
    second_reports: Seq<ReportView>,
)
    requires
        first == started(first.markdown, first.output_path, first_token),
        second == started(second.markdown, second.output_path, second_token),
        first_token != second_token,
    ensures
        ({
            let one = transient_in(pending(run(first, first_reports)));
            let other = transient_in(pending(run(second, second_reports)));
            one is Some && other is Some ==> one != other
        }),
{
    lemma_transient_names_differ(first_token, second_token);
    lemma_run_keeps_the_job(first, first_reports);
    lemma_run_keeps_the_job(second, second_reports);
}

} // verus!
