//! The command as a whole: a description goes to the chat model, the reply
//! becomes Markdown, and the Markdown becomes a notebook file.
//!
//! As with the [`Materializer`], a driver performs the pending effect and
//! reports its outcome until the pending effect is to finish.

use vstd::prelude::*;
use crate::chat::{
    chat_request, markdown_from_reply, markdown_of, request_for, ChatReply, ChatReplyView,
    ChatRequest, ChatRequestView, GenerationError, GenerationErrorView,
};
use crate::materialize::{
    next, pending, started, Effect, EffectView, MaterializeError, MaterializeErrorView,
    Materializer, MaterializerView, Report, ReportView,
};

verus! {

/// The environment variable that holds the credential for the chat API.
pub const CREDENTIAL_VARIABLE: &'static str = "OPENAI_TOKEN";

/// Why the program cannot start.
#[derive(Clone, Copy, Debug, PartialEq, Eq, Structural)]
pub enum StartupError {
    /// No credential for the chat API was given.
    CredentialMissing,
}

/// Why the command failed.
#[derive(Debug, PartialEq, Eq)]
pub enum CommandError {
    Generation(GenerationError),
    Materialize(MaterializeError),
}

/// A [`CommandError`] as a mathematical value.
pub enum CommandErrorView {
    Generation(GenerationErrorView),
    Materialize(MaterializeErrorView),
}

impl View for CommandError {
    type V = CommandErrorView;

    open spec fn view(&self) -> CommandErrorView {
        match self {
            CommandError::Generation(error) => CommandErrorView::Generation(error@),
            CommandError::Materialize(error) => CommandErrorView::Materialize(error@),
        }
    }
}

/// The result of the command as a mathematical value.
pub open spec fn outcome_view(outcome: Result<bool, CommandError>) -> Result<
    bool,
    CommandErrorView,
> {
    match outcome {
        Ok(done) => Ok(done),
        Err(error) => Err(error@),
    }
}

/// What the driver of the command is asked to do.
#[derive(Debug, PartialEq, Eq)]
pub enum CommandEffect {
    /// Send the request to the chat API and wait for the reply.
    CallModel(ChatRequest),
    /// Perform this effect of the materialization; it is never to finish.
    Perform(Effect),
    /// Stop, with this result.
    Finish(Result<bool, CommandError>),
}

/// A [`CommandEffect`] as a mathematical value.
pub enum CommandEffectView {
    CallModel(ChatRequestView),
    Perform(EffectView),
    Finish(Result<bool, CommandErrorView>),
}

impl View for CommandEffect {
    type V = CommandEffectView;

    open spec fn view(&self) -> CommandEffectView {
        match self {
            CommandEffect::CallModel(request) => CommandEffectView::CallModel(request@),
            CommandEffect::Perform(effect) => CommandEffectView::Perform(effect@),
            CommandEffect::Finish(outcome) => CommandEffectView::Finish(outcome_view(*outcome)),
        }
    }
}

/// What the driver of the command reports.
#[derive(Debug, PartialEq, Eq)]
pub enum CommandReport {
    /// What came back from the chat API.
    Model(ChatReply),
    /// The outcome of an effect of the materialization.
    Performed(Report),
}

/// A [`CommandReport`] as a mathematical value.
pub enum CommandReportView {
    Model(ChatReplyView),
    Performed(ReportView),
}

impl View for CommandReport {
    type V = CommandReportView;

    open spec fn view(&self) -> CommandReportView {
        match self {
            CommandReport::Model(reply) => CommandReportView::Model(reply@),
            CommandReport::Performed(report) => CommandReportView::Performed(report@),
        }
    }
}

#[derive(Debug, PartialEq, Eq)]
enum CommandStage {
    Generating { output_path: String, description: String, token: u64 },
    Materializing(Materializer),
    Failed(GenerationError),
}

/// How far a command has come.
pub enum NotebookCommandView {
    /// The chat API is to be called for this description.
    Generating { output_path: Seq<char>, description: Seq<char>, token: u64 },
    /// The Markdown is there and is being made into the notebook file.
    Materializing(MaterializerView),
    /// No Markdown was generated.
    Failed(GenerationErrorView),
}

/// One run of the command.
#[derive(Debug, PartialEq, Eq)]
pub struct NotebookCommand {
    stage: CommandStage,
}

impl View for NotebookCommand {
    type V = NotebookCommandView;

    closed spec fn view(&self) -> NotebookCommandView {
        match self.stage {
            CommandStage::Generating {
                output_path,
                description,
                token,
            } => NotebookCommandView::Generating {
                output_path: output_path@,
                description: description@,
                token,
            },
            CommandStage::Materializing(m) => NotebookCommandView::Materializing(m@),
            CommandStage::Failed(error) => NotebookCommandView::Failed(error@),
        }
    }
}

/// The command's result for a result of the materialization.
pub open spec fn outcome_of(verdict: Result<(), MaterializeErrorView>) -> Result<
    bool,
    CommandErrorView,
> {
    match verdict {
        Ok(_) => Ok(true),
        Err(error) => Err(CommandErrorView::Materialize(error)),
    }
}

/// The effect that the driver of the command is to perform next.
pub open spec fn command_pending(c: NotebookCommandView) -> CommandEffectView {
    match c {
        NotebookCommandView::Generating { description, .. } => CommandEffectView::CallModel(
            request_for(description),
        ),
        NotebookCommandView::Materializing(m) => match pending(m) {
            EffectView::Finish(verdict) => CommandEffectView::Finish(outcome_of(verdict)),
            effect => CommandEffectView::Perform(effect),
        },
        NotebookCommandView::Failed(error) => CommandEffectView::Finish(
            Err(CommandErrorView::Generation(error)),
        ),
    }
}

/// The command after `report`. The reply of the chat API either starts the
/// materialization of its Markdown or fails the command; a report of the
/// materialization moves the materialization on; any other report changes
/// nothing.
pub open spec fn command_next(c: NotebookCommandView, report: CommandReportView)
    -> NotebookCommandView {
    match (c, report) {
        (
            NotebookCommandView::Generating { output_path, token, .. },
            CommandReportView::Model(reply),
        ) => match markdown_of(reply) {
            Ok(markdown) => NotebookCommandView::Materializing(
                started(markdown, output_path, token),
            ),
            Err(error) => NotebookCommandView::Failed(error),
        },
        (
            NotebookCommandView::Materializing(m),
            CommandReportView::Performed(performed),
        ) => NotebookCommandView::Materializing(next(m, performed)),
        _ => c,
    }
}

/// The credential that the program was started with, or the error that it
/// was started with none.
pub fn require_credential(value: Option<String>) -> (credential: Result<String, StartupError>)
    ensures
        match value {
            Some(given) => credential == Ok::<String, StartupError>(given),
            None => credential == Err::<String, StartupError>(StartupError::CredentialMissing),
        },
{
    match value {
        Some(given) => Ok(given),
        None => Err(StartupError::CredentialMissing),
    }
}

impl NotebookCommand {
    /// Starts the command that makes the notebook described by `description`
    /// at `output_path`. `token` tells this run from every other that may be
    /// under way.
    pub fn start(output_path: &str, description: &str, token: u64) -> (c: NotebookCommand)
        ensures
            c@ == (NotebookCommandView::Generating {
                output_path: output_path@,
                description: description@,
                token,
            }),
    {
        NotebookCommand {
            stage: CommandStage::Generating {
                output_path: String::from_str(output_path),
                description: String::from_str(description),
                token,
            },
        }
    }

    /// The effect that the driver is to perform next.
    pub fn effect(&self) -> (effect: CommandEffect)
        ensures
            effect@ == command_pending(self@),
    {
        match &self.stage {
            CommandStage::Generating { description, .. } => CommandEffect::CallModel(
                chat_request(description.as_str()),
            ),
            CommandStage::Materializing(m) => match m.effect() {
                Effect::Finish(Ok(_)) => CommandEffect::Finish(Ok(true)),
                Effect::Finish(Err(error)) => CommandEffect::Finish(
                    Err(CommandError::Materialize(error)),
                ),
                effect => CommandEffect::Perform(effect),
            },
            CommandStage::Failed(error) => CommandEffect::Finish(
                Err(CommandError::Generation(copy_generation_error(error))),
            ),
        }
    }

    /// Takes the driver's report and moves on.
    pub fn advance(self, report: CommandReport) -> (c: NotebookCommand)
        ensures
            c@ == command_next(self@, report@),
    {
        let stage = match (self.stage, report) {
            (
                CommandStage::Generating { output_path, description, token },
                CommandReport::Model(reply),
            ) => {
                match markdown_from_reply(reply) {
                    Ok(markdown) => CommandStage::Materializing(
                        Materializer::begin(markdown, output_path, token),
                    ),
                    Err(error) => CommandStage::Failed(error),
                }
            },
            (CommandStage::Materializing(m), CommandReport::Performed(performed)) => {
                CommandStage::Materializing(m.advance(performed))
            },
            (stage, _) => stage,
        };
        NotebookCommand { stage }
    }
}

fn copy_generation_error(error: &GenerationError) -> (copy: GenerationError)
    ensures
        copy@ == error@,
{
    match error {
        GenerationError::ApiFailure(cause) => GenerationError::ApiFailure(cause.clone()),
        GenerationError::EmptyResponse => GenerationError::EmptyResponse,
    }
}

} // verus!
