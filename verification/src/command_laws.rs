//! What holds of every run of the command, whatever the driver reports.

use vstd::prelude::*;
use crate::chat::{ChatReplyView, GenerationErrorView};
use crate::command::{
    command_next, command_pending, CommandEffectView, CommandErrorView, CommandReportView,
    NotebookCommandView,
};
use crate::fence::retagged;
use crate::materialize::{EffectView, MaterializerView, ReportView};
use crate::materialize_laws::run;
use crate::transient::transient_name_of;

verus! {

/// The command after the driver has made `reports`, in order.
pub open spec fn command_run(start: NotebookCommandView, reports: Seq<CommandReportView>)
    -> NotebookCommandView
    decreases reports.len(),
{
    if reports.len() == 0 {
        start
    } else {
        command_next(command_run(start, reports.drop_last()), reports.last())
    }
}

/// A command whose generation has failed stays failed.
pub proof fn lemma_failure_is_final(start: NotebookCommandView, reports: Seq<CommandReportView>)
    requires
        start is Failed,
    ensures
        command_run(start, reports) == start,
    decreases reports.len(),
{
    if reports.len() > 0 {
        lemma_failure_is_final(start, reports.drop_last());
    }
}

proof fn lemma_command_run_from_first(
    start: NotebookCommandView,
    reports: Seq<CommandReportView>,
)
    requires
        reports.len() > 0,
    ensures
        command_run(start, reports) == command_run(
            command_next(start, reports[0]),
            reports.skip(1),
        ),
    decreases reports.len(),
{
    if reports.len() == 1 {
        assert(reports.drop_last().len() == 0);
        assert(reports.skip(1).len() == 0);
    } else {
        lemma_command_run_from_first(start, reports.drop_last());
        assert(reports.drop_last().skip(1) =~= reports.skip(1).drop_last());
    }
}

/// When the chat API answers without a choice, the command fails with
/// `EmptyResponse`: that is its result whatever is reported afterwards, and
/// nothing is ever written, converted or removed.
pub proof fn lemma_empty_reply_fails_command(
    start: NotebookCommandView,
    reports: Seq<CommandReportView>,
)
    requires
        start is Generating,
        reports.len() > 0,
        reports[0] == CommandReportView::Model(ChatReplyView::Choices(Seq::empty())),
    ensures
        command_pending(command_run(start, reports)) == CommandEffectView::Finish(
            Err(CommandErrorView::Generation(GenerationErrorView::EmptyResponse)),
        ),
{
    lemma_command_run_from_first(start, reports);
    lemma_failure_is_final(command_next(start, reports[0]), reports.skip(1));
}

/// When the chat API fails, the command fails with `ApiFailure` and the
/// cause reported, whatever is reported afterwards.
pub proof fn lemma_failed_call_fails_command(
    start: NotebookCommandView,
    reports: Seq<CommandReportView>,
    cause: Seq<char>,
)
    requires
        start is Generating,
        reports.len() > 0,
        reports[0] == CommandReportView::Model(ChatReplyView::Failure(cause)),
    ensures
        command_pending(command_run(start, reports)) == CommandEffectView::Finish(
            Err(CommandErrorView::Generation(GenerationErrorView::ApiFailure(cause))),
        ),
{
    lemma_command_run_from_first(start, reports);
    lemma_failure_is_final(command_next(start, reports[0]), reports.skip(1));
}

/// When the chat API answers with choices, the first of them, retagged, is
/// what the driver is asked to write, into the transient file of this run.
pub proof fn lemma_first_choice_is_written(
    start: NotebookCommandView,
    choices: Seq<Seq<char>>,
)
    requires
        start is Generating,
        choices.len() > 0,
    ensures
        command_pending(
            command_next(start, CommandReportView::Model(ChatReplyView::Choices(choices))),
        ) == CommandEffectView::Perform(
            EffectView::WriteTransient {
                path: transient_name_of(start->token),
                content: retagged(choices[0]),
            },
        ),
{
}

/// Until the chat API has answered, the driver is asked for nothing but the
/// call; an effect of the materialization is never the one to finish; and a
/// command that finishes without an error says `true`.
pub proof fn lemma_effects_in_order(start: NotebookCommandView, reports: Seq<CommandReportView>)
    ensures
        command_run(start, reports) is Generating <==> command_pending(
            command_run(start, reports),
        ) is CallModel,
        command_pending(command_run(start, reports)) matches CommandEffectView::Perform(effect)
            ==> !(effect is Finish),
        command_pending(command_run(start, reports)) matches CommandEffectView::Finish(Ok(done))
            ==> done,
{
}

/// The reports of the materialization among `reports`, in order.
pub open spec fn performed_in(reports: Seq<CommandReportView>) -> Seq<ReportView>
    decreases reports.len(),
{
    if reports.len() == 0 {
        Seq::empty()
    } else {
        match reports.last() {
            CommandReportView::Performed(report) => performed_in(reports.drop_last()).push(report),
            CommandReportView::Model(_) => performed_in(reports.drop_last()),
        }
    }
}

/// Once the Markdown is there, the command is its materialization: it moves
/// as the materialization moves on the reports that are meant for it, and
/// what the chat API may still say is of no account. So whatever holds of
/// every materialization holds of the command from here on.
pub proof fn lemma_command_follows_materialization(
    m: MaterializerView,
    reports: Seq<CommandReportView>,
)
    ensures
        command_run(NotebookCommandView::Materializing(m), reports)
            == NotebookCommandView::Materializing(run(m, performed_in(reports))),
    decreases reports.len(),
{
    if reports.len() > 0 {
        lemma_command_follows_materialization(m, reports.drop_last());
        match reports.last() {
            CommandReportView::Performed(report) => {
                let before = performed_in(reports.drop_last());
                assert(before.push(report).drop_last() =~= before);
            },
            CommandReportView::Model(_) => {},
        }
    }
}

/// The chat API is called once: after its reply has been reported, the call
/// is never pending again.
pub proof fn lemma_model_is_called_once(
    start: NotebookCommandView,
    reports: Seq<CommandReportView>,
    at: int,
)
    requires
        0 <= at < reports.len(),
        reports[at] is Model,
    ensures
        !(command_pending(command_run(start, reports)) is CallModel),
    decreases reports.len(),
{
    if at < reports.len() - 1 {
        lemma_model_is_called_once(start, reports.drop_last(), at);
    }
}

} // verus!
