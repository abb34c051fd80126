//! From generated Markdown to a notebook file: the Markdown is written to a
//! transient file, an external converter turns that file into the notebook,
//! and the transient file is removed again.
//!
//! The [`Materializer`] decides; a driver acts. The driver performs the
//! effect that is pending, reports what happened, and goes on until the
//! pending effect is to finish.

use vstd::prelude::*;
use crate::transient::{transient_name, transient_name_of};

verus! {

/// The converter's executable.
pub const CONVERTER: &'static str = "pandoc";

/// The flag after which the converter expects the output path.
pub const OUTPUT_FLAG: &'static str = "-o";

/// How a conversion failed.
#[derive(Debug, PartialEq, Eq)]
pub enum ConversionFailure {
    /// The converter could not be launched.
    NotStarted { cause: String },
    /// The converter ran and exited with a status other than zero.
    Failed { code: i32, stderr: String },
    /// The converter was terminated before it exited by itself.
    Interrupted { stderr: String },
}

/// A [`ConversionFailure`] as a mathematical value.
pub enum ConversionFailureView {
    NotStarted { cause: Seq<char> },
    Failed { code: i32, stderr: Seq<char> },
    Interrupted { stderr: Seq<char> },
}

impl View for ConversionFailure {
    type V = ConversionFailureView;

    open spec fn view(&self) -> ConversionFailureView {
        match self {
            ConversionFailure::NotStarted { cause } => ConversionFailureView::NotStarted {
                cause: cause@,
            },
            ConversionFailure::Failed { code, stderr } => ConversionFailureView::Failed {
                code: *code,
                stderr: stderr@,
            },
            ConversionFailure::Interrupted { stderr } => ConversionFailureView::Interrupted {
                stderr: stderr@,
            },
        }
    }
}

/// Why no notebook file was made.
#[derive(Debug, PartialEq, Eq)]
pub enum MaterializeError {
    /// The transient file could not be written, for the cause given.
    WriteFailed(String),
    /// The converter did not turn the transient file into a notebook.
    ConversionFailed(ConversionFailure),
}

/// A [`MaterializeError`] as a mathematical value.
pub enum MaterializeErrorView {
    WriteFailed(Seq<char>),
    ConversionFailed(ConversionFailureView),
}

impl View for MaterializeError {
    type V = MaterializeErrorView;

    open spec fn view(&self) -> MaterializeErrorView {
        match self {
            MaterializeError::WriteFailed(cause) => MaterializeErrorView::WriteFailed(cause@),
            MaterializeError::ConversionFailed(failure) => MaterializeErrorView::ConversionFailed(
                failure@,
            ),
        }
    }
}

/// The result of a materialization as a mathematical value.
pub open spec fn verdict_view(verdict: Result<(), MaterializeError>) -> Result<
    (),
    MaterializeErrorView,
> {
    match verdict {
        Ok(_) => Ok(()),
        Err(error) => Err(error@),
    }
}

/// What the driver is asked to do.
#[derive(Debug, PartialEq, Eq)]
pub enum Effect {
    /// Write `content` to the file `path`, replacing what is there.
    WriteTransient { path: String, content: String },
    /// Run `program` with `args` and wait until it has exited.
    RunConverter { program: String, args: Vec<String> },
    /// Remove the file `path`; a failure to do so is of no account.
    RemoveTransient { path: String },
    /// Stop, with this result.
    Finish(Result<(), MaterializeError>),
}

/// An [`Effect`] as a mathematical value.
pub enum EffectView {
    WriteTransient { path: Seq<char>, content: Seq<char> },
    RunConverter { program: Seq<char>, args: Seq<Seq<char>> },
    RemoveTransient { path: Seq<char> },
    Finish(Result<(), MaterializeErrorView>),
}

impl View for Effect {
    type V = EffectView;

    open spec fn view(&self) -> EffectView {
        match self {
            Effect::WriteTransient { path, content } => EffectView::WriteTransient {
                path: path@,
                content: content@,
            },
            Effect::RunConverter { program, args } => EffectView::RunConverter {
                program: program@,
                args: args.deep_view(),
            },
            Effect::RemoveTransient { path } => EffectView::RemoveTransient { path: path@ },
            Effect::Finish(verdict) => EffectView::Finish(verdict_view(*verdict)),
        }
    }
}

/// What the driver reports of the effect it performed.
#[derive(Debug, PartialEq, Eq)]
pub enum Report {
    /// The transient file holds the content.
    Written,
    /// The content could not be written; `created` says whether the file
    /// exists all the same.
    WriteFailed { created: bool, cause: String },
    /// The converter could not be launched.
    ConverterNotStarted { cause: String },
    /// The converter exited with `code`, and wrote `stderr` to its error
    /// stream.
    ConverterExited { code: i32, stderr: String },
    /// The converter was terminated, on a timeout or a cancellation.
    ConverterInterrupted { stderr: String },
    /// The removal was tried; `removed` says whether the file is gone.
    CleanupAttempted { removed: bool },
}

/// A [`Report`] as a mathematical value.
pub enum ReportView {
    Written,
    WriteFailed { created: bool, cause: Seq<char> },
    ConverterNotStarted { cause: Seq<char> },
    ConverterExited { code: i32, stderr: Seq<char> },
    ConverterInterrupted { stderr: Seq<char> },
    CleanupAttempted { removed: bool },
}

impl View for Report {
    type V = ReportView;

    open spec fn view(&self) -> ReportView {
        match self {
            Report::Written => ReportView::Written,
            Report::WriteFailed { created, cause } => ReportView::WriteFailed {
                created: *created,
                cause: cause@,
            },
            Report::ConverterNotStarted { cause } => ReportView::ConverterNotStarted {
                cause: cause@,
            },
            Report::ConverterExited { code, stderr } => ReportView::ConverterExited {
                code: *code,
                stderr: stderr@,
            },
            Report::ConverterInterrupted { stderr } => ReportView::ConverterInterrupted {
                stderr: stderr@,
            },
            Report::CleanupAttempted { removed } => ReportView::CleanupAttempted {
                removed: *removed,
            },
        }
    }
}

/// How far a materialization has come.
#[derive(Debug, PartialEq, Eq)]
pub enum Stage {
    /// The transient file is to be written.
    Writing,
    /// The transient file is written and the converter is to run.
    Converting,
    /// The result is known and the transient file is to be removed.
    Cleaning(Result<(), MaterializeError>),
    /// Nothing is left to do.
    Finished(Result<(), MaterializeError>),
}

/// A [`Stage`] as a mathematical value.
pub enum StageView {
    Writing,
    Converting,
    Cleaning(Result<(), MaterializeErrorView>),
    Finished(Result<(), MaterializeErrorView>),
}

impl View for Stage {
    type V = StageView;

    open spec fn view(&self) -> StageView {
        match self {
            Stage::Writing => StageView::Writing,
            Stage::Converting => StageView::Converting,
            Stage::Cleaning(verdict) => StageView::Cleaning(verdict_view(*verdict)),
            Stage::Finished(verdict) => StageView::Finished(verdict_view(*verdict)),
        }
    }
}

/// One materialization: what is to be written where, and how far it has come.
#[derive(Debug, PartialEq, Eq)]
pub struct Materializer {
    transient: String,
    markdown: String,
    output_path: String,
    stage: Stage,
}

/// A [`Materializer`] as a mathematical value.
pub struct MaterializerView {
    pub transient: Seq<char>,
    pub markdown: Seq<char>,
    pub output_path: Seq<char>,
    pub stage: StageView,
}

impl View for Materializer {
    type V = MaterializerView;

    closed spec fn view(&self) -> MaterializerView {
        MaterializerView {
            transient: self.transient@,
            markdown: self.markdown@,
            output_path: self.output_path@,
            stage: self.stage@,
        }
    }
}

/// The materialization of `markdown` into `output_path` before anything is
/// done, for the run with the given token.
pub open spec fn started(markdown: Seq<char>, output_path: Seq<char>, token: u64)
    -> MaterializerView {
    MaterializerView {
        transient: transient_name_of(token),
        markdown,
        output_path,
        stage: StageView::Writing,
    }
}

/// The converter's arguments: the input file, the output flag, the output
/// path.
pub open spec fn converter_args(transient: Seq<char>, output_path: Seq<char>) -> Seq<Seq<char>> {
    seq![transient, OUTPUT_FLAG@, output_path]
}

/// The effect that the driver is to perform next.
pub open spec fn pending(m: MaterializerView) -> EffectView {
    match m.stage {
        StageView::Writing => EffectView::WriteTransient {
            path: m.transient,
            content: m.markdown,
        },
        StageView::Converting => EffectView::RunConverter {
            program: CONVERTER@,
            args: converter_args(m.transient, m.output_path),
        },
        StageView::Cleaning(_) => EffectView::RemoveTransient { path: m.transient },
        StageView::Finished(verdict) => EffectView::Finish(verdict),
    }
}

/// The stage that follows `stage` on `report`. A report that does not answer
/// the effect pending in `stage` changes nothing.
pub open spec fn next_stage(stage: StageView, report: ReportView) -> StageView {
    match (stage, report) {
        (StageView::Writing, ReportView::Written) => StageView::Converting,
        (StageView::Writing, ReportView::WriteFailed { created, cause }) => {
            let verdict = Err(MaterializeErrorView::WriteFailed(cause));
            if created {
                StageView::Cleaning(verdict)
            } else {
                StageView::Finished(verdict)
            }
        },
        (StageView::Converting, ReportView::ConverterNotStarted { cause }) => StageView::Cleaning(
            Err(MaterializeErrorView::ConversionFailed(ConversionFailureView::NotStarted { cause })),
        ),
        (StageView::Converting, ReportView::ConverterExited { code, stderr }) => {
            if code == 0 {
                StageView::Cleaning(Ok(()))
            } else {
                StageView::Cleaning(
                    Err(
                        MaterializeErrorView::ConversionFailed(
                            ConversionFailureView::Failed { code, stderr },
                        ),
                    ),
                )
            }
        },
        (StageView::Converting, ReportView::ConverterInterrupted { stderr }) => {
            StageView::Cleaning(
                Err(
                    MaterializeErrorView::ConversionFailed(
                        ConversionFailureView::Interrupted { stderr },
                    ),
                ),
            )
        },
        (StageView::Cleaning(verdict), ReportView::CleanupAttempted { .. }) => StageView::Finished(
            verdict,
        ),
        _ => stage,
    }
}

/// The materialization after `report`: only the stage moves.
pub open spec fn next(m: MaterializerView, report: ReportView) -> MaterializerView {
    MaterializerView { stage: next_stage(m.stage, report), ..m }
}

fn copy_failure(failure: &ConversionFailure) -> (copy: ConversionFailure)
    ensures
        copy@ == failure@,
{
    match failure {
        ConversionFailure::NotStarted { cause } => ConversionFailure::NotStarted {
            cause: cause.clone(),
        },
        ConversionFailure::Failed { code, stderr } => ConversionFailure::Failed {
            code: *code,
            stderr: stderr.clone(),
        },
        ConversionFailure::Interrupted { stderr } => ConversionFailure::Interrupted {
            stderr: stderr.clone(),
        },
    }
}

fn copy_verdict(verdict: &Result<(), MaterializeError>) -> (copy: Result<(), MaterializeError>)
    ensures
        verdict_view(copy) == verdict_view(*verdict),
{
    match verdict {
        Ok(_) => Ok(()),
        Err(MaterializeError::WriteFailed(cause)) => Err(
            MaterializeError::WriteFailed(cause.clone()),
        ),
        Err(MaterializeError::ConversionFailed(failure)) => Err(
            MaterializeError::ConversionFailed(copy_failure(failure)),
        ),
    }
}

impl Materializer {
    /// Starts the materialization of `markdown` into `output_path`. `token`
    /// tells this run from every other that may be under way.
    pub fn begin(markdown: String, output_path: String, token: u64) -> (m: Materializer)
        ensures
            m@ == started(markdown@, output_path@, token),
    {
        Materializer {
            transient: transient_name(token),
            markdown,
            output_path,
            stage: Stage::Writing,
        }
    }

    /// The effect that the driver is to perform next.
    pub fn effect(&self) -> (effect: Effect)
        ensures
            effect@ == pending(self@),
    {
        match &self.stage {
            Stage::Writing => Effect::WriteTransient {
                path: self.transient.clone(),
                content: self.markdown.clone(),
            },
            Stage::Converting => {
                let mut args: Vec<String> = Vec::new();
                args.push(self.transient.clone());
                args.push(String::from_str(OUTPUT_FLAG));
                args.push(self.output_path.clone());
                proof {
                    assert(args.deep_view() =~~= converter_args(
                        self.transient@,
                        self.output_path@,
                    ));
                }
                Effect::RunConverter { program: String::from_str(CONVERTER), args }
            },
            Stage::Cleaning(_) => Effect::RemoveTransient { path: self.transient.clone() },
            Stage::Finished(verdict) => Effect::Finish(copy_verdict(verdict)),
        }
    }

    /// Takes the driver's report and moves on.
    pub fn advance(self, report: Report) -> (m: Materializer)
        ensures
            m@ == next(self@, report@),
    {
        let Materializer { transient, markdown, output_path, stage } = self;
        let stage = match (stage, report) {
            (Stage::Writing, Report::Written) => Stage::Converting,
            (Stage::Writing, Report::WriteFailed { created, cause }) => {
                if created {
                    Stage::Cleaning(Err(MaterializeError::WriteFailed(cause)))
                } else {
                    Stage::Finished(Err(MaterializeError::WriteFailed(cause)))
                }
            },
            (Stage::Converting, Report::ConverterNotStarted { cause }) => Stage::Cleaning(
                Err(MaterializeError::ConversionFailed(ConversionFailure::NotStarted { cause })),
            ),
            (Stage::Converting, Report::ConverterExited { code, stderr }) => {
                if code == 0 {
                    Stage::Cleaning(Ok(()))
                } else {
                    Stage::Cleaning(
                        Err(
                            MaterializeError::ConversionFailed(
                                ConversionFailure::Failed { code, stderr },
                            ),
                        ),
                    )
                }
            },
            (Stage::Converting, Report::ConverterInterrupted { stderr }) => Stage::Cleaning(
                Err(MaterializeError::ConversionFailed(ConversionFailure::Interrupted { stderr })),
            ),
            (Stage::Cleaning(verdict), Report::CleanupAttempted { .. }) => Stage::Finished(verdict),
            (stage, _) => stage,
        };
        Materializer { transient, markdown, output_path, stage }
    }

    /// Whether nothing is left to do.
    pub fn is_finished(&self) -> (finished: bool)
        ensures
            finished == (self@.stage is Finished),
    {
        match &self.stage {
            Stage::Finished(_) => true,
            _ => false,
        }
    }
}

} // verus!
