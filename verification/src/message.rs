//! What the user is told when the command fails: one sentence for each kind
//! of failure, so that the user knows where to look.

use vstd::prelude::*;
use crate::chat::{GenerationError, GenerationErrorView};
use crate::command::{CommandError, CommandErrorView, StartupError};
use crate::materialize::{
    ConversionFailure, ConversionFailureView, MaterializeError, MaterializeErrorView,
};

verus! {

/// Said when the chat API could not be called; the cause follows.
pub const MODEL_UNREACHABLE: &'static str = "could not reach the model: ";

/// Said when the chat API answered without a choice.
pub const MODEL_SILENT: &'static str = "the model returned nothing";

/// Said when the transient file could not be written; the cause follows.
pub const WRITE_FAILED: &'static str = "could not write the temporary file: ";

/// Said when the converter made no notebook; what is known of it follows.
pub const CONVERSION_FAILED: &'static str = "the conversion tool failed: ";

/// Said when the program is started without a credential.
pub const CREDENTIAL_MISSING: &'static str = "OPENAI_TOKEN not set";

/// The kinds of failure that the user is to tell apart.
#[derive(Clone, Copy, Debug, PartialEq, Eq, Structural)]
pub enum ErrorKind {
    /// The model could not be reached: the network is to be checked.
    ModelUnreachable,
    /// The model returned nothing.
    ModelSilent,
    /// The transient file could not be written: permissions are to be checked.
    WriteFailed,
    /// The converter failed: its installation is to be checked.
    ConversionFailed,
}

/// The kind of an error.
pub open spec fn kind_of(error: CommandErrorView) -> ErrorKind {
    match error {
        CommandErrorView::Generation(GenerationErrorView::ApiFailure(_)) => {
            ErrorKind::ModelUnreachable
        },
        CommandErrorView::Generation(GenerationErrorView::EmptyResponse) => ErrorKind::ModelSilent,
        CommandErrorView::Materialize(MaterializeErrorView::WriteFailed(_)) => {
            ErrorKind::WriteFailed
        },
        CommandErrorView::Materialize(MaterializeErrorView::ConversionFailed(_)) => {
            ErrorKind::ConversionFailed
        },
    }
}

/// What is known of a failed conversion: why the converter could not be
/// launched, or what it wrote to its error stream.
pub open spec fn detail_of(failure: ConversionFailureView) -> Seq<char> {
    match failure {
        ConversionFailureView::NotStarted { cause } => cause,
        ConversionFailureView::Failed { stderr, .. } => stderr,
        ConversionFailureView::Interrupted { stderr } => stderr,
    }
}

/// The sentence for an error.
pub open spec fn message_of(error: CommandErrorView) -> Seq<char> {
    match error {
        CommandErrorView::Generation(GenerationErrorView::ApiFailure(cause)) => MODEL_UNREACHABLE@
            + cause,
        CommandErrorView::Generation(GenerationErrorView::EmptyResponse) => MODEL_SILENT@,
        CommandErrorView::Materialize(MaterializeErrorView::WriteFailed(cause)) => WRITE_FAILED@
            + cause,
        CommandErrorView::Materialize(
            MaterializeErrorView::ConversionFailed(failure),
        ) => CONVERSION_FAILED@ + detail_of(failure),
    }
}

/// The kind of `error`.
pub fn kind(error: &CommandError) -> (kind: ErrorKind)
    ensures
        kind == kind_of(error@),
{
    match error {
        CommandError::Generation(GenerationError::ApiFailure(_)) => ErrorKind::ModelUnreachable,
        CommandError::Generation(GenerationError::EmptyResponse) => ErrorKind::ModelSilent,
        CommandError::Materialize(MaterializeError::WriteFailed(_)) => ErrorKind::WriteFailed,
        CommandError::Materialize(MaterializeError::ConversionFailed(_)) => {
            ErrorKind::ConversionFailed
        },
    }
}

/// The sentence that tells the user of `error`.
pub fn describe(error: &CommandError) -> (message: String)
    ensures
        message@ == message_of(error@),
{
    match error {
        CommandError::Generation(GenerationError::ApiFailure(cause)) => {
            String::from_str(MODEL_UNREACHABLE).concat(cause.as_str())
        },
        CommandError::Generation(GenerationError::EmptyResponse) => String::from_str(MODEL_SILENT),
        CommandError::Materialize(MaterializeError::WriteFailed(cause)) => {
            String::from_str(WRITE_FAILED).concat(cause.as_str())
        },
        CommandError::Materialize(MaterializeError::ConversionFailed(failure)) => {
            let detail = match failure {
                ConversionFailure::NotStarted { cause } => cause,
                ConversionFailure::Failed { stderr, .. } => stderr,
                ConversionFailure::Interrupted { stderr } => stderr,
            };
            String::from_str(CONVERSION_FAILED).concat(detail.as_str())
        },
    }
}

/// The sentence with which the program refuses to start.
pub fn describe_startup(error: StartupError) -> (message: String)
    ensures
        message@ == CREDENTIAL_MISSING@,
{
    match error {
        StartupError::CredentialMissing => String::from_str(CREDENTIAL_MISSING),
    }
}

/// The sentences tell the kinds of failure apart: errors of different kinds
/// never share a sentence, whatever their causes say.
pub proof fn lemma_messages_tell_kinds_apart(first: CommandErrorView, second: CommandErrorView)
    requires
        message_of(first) == message_of(second),
    ensures
        kind_of(first) == kind_of(second),
{
    reveal_strlit("could not reach the model: ");
    reveal_strlit("the model returned nothing");
    reveal_strlit("could not write the temporary file: ");
    reveal_strlit("the conversion tool failed: ");
    let a = message_of(first);
    let b = message_of(second);
    assert(a[0] == b[0] && a[4] == b[4] && a[10] == b[10]);
}

} // verus!
