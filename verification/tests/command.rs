use notebook_gen::chat::{ChatReply, GenerationError, MessageRole};
use notebook_gen::command::{
    require_credential, CommandEffect, CommandError, CommandReport, NotebookCommand, StartupError,
    CREDENTIAL_VARIABLE,
};
use notebook_gen::materialize::{ConversionFailure, Effect, MaterializeError, Report};
use notebook_gen::message::{describe, describe_startup, kind, ErrorKind};
use std::collections::BTreeMap;

/// A stand-in for the world: files by name, a converter that copies its
/// input, and a chat model with a fixed answer.
struct World {
    files: BTreeMap<String, String>,
    reply: Option<Vec<String>>,
    converter_installed: bool,
    writable: bool,
    log: Vec<String>,
}

impl World {
    fn new(reply: Option<Vec<&str>>) -> World {
        World {
            files: BTreeMap::new(),
            reply: reply.map(|choices| choices.into_iter().map(str::to_string).collect()),
            converter_installed: true,
            writable: true,
            log: Vec::new(),
        }
    }

    fn perform(&mut self, effect: CommandEffect) -> Result<CommandReport, Result<bool, CommandError>> {
        match effect {
            CommandEffect::CallModel(request) => {
                self.log.push(format!("call {}", request.model));
                Ok(CommandReport::Model(match &self.reply {
                    Some(choices) => ChatReply::Choices(choices.clone()),
                    None => ChatReply::Failure("connection refused".to_string()),
                }))
            }
            CommandEffect::Perform(Effect::WriteTransient { path, content }) => {
                self.log.push(format!("write {path}"));
                Ok(CommandReport::Performed(if self.writable {
                    self.files.insert(path, content);
                    Report::Written
                } else {
                    Report::WriteFailed { created: false, cause: "Permission denied".to_string() }
                }))
            }
            CommandEffect::Perform(Effect::RunConverter { program, args }) => {
                self.log.push(format!("run {program} {}", args.join(" ")));
                Ok(CommandReport::Performed(if self.converter_installed {
                    let input = self.files.get(&args[0]).cloned();
                    match input {
                        Some(text) => {
                            self.files.insert(args[2].clone(), format!("notebook of {text}"));
                            Report::ConverterExited { code: 0, stderr: String::new() }
                        }
                        None => Report::ConverterExited { code: 1, stderr: "no input".to_string() },
                    }
                } else {
                    Report::ConverterNotStarted { cause: "No such file or directory".to_string() }
                }))
            }
            CommandEffect::Perform(Effect::RemoveTransient { path }) => {
                self.log.push(format!("remove {path}"));
                let removed = self.files.remove(&path).is_some();
                Ok(CommandReport::Performed(Report::CleanupAttempted { removed }))
            }
            CommandEffect::Perform(Effect::Finish(_)) => unreachable!(),
            CommandEffect::Finish(outcome) => Err(outcome),
        }
    }

    fn step(&mut self, command: NotebookCommand) -> NotebookCommand {
        let effect = command.effect();
        command.advance(self.perform(effect).unwrap())
    }

    fn drive(&mut self, mut command: NotebookCommand) -> Result<bool, CommandError> {
        for _ in 0..16 {
            match self.perform(command.effect()) {
                Ok(report) => command = command.advance(report),
                Err(outcome) => return outcome,
            }
        }
        panic!("the command did not finish");
    }
}

#[test]
fn end_to_end_scenario() {
    let mut world = World::new(Some(vec!["# Title\n```python\nprint(1)\n```"]));
    let command = NotebookCommand::start("lists.ipynb", "a tutorial on list comprehensions", 9);

    let effect = command.effect();
    match &effect {
        CommandEffect::CallModel(request) => {
            assert_eq!(request.model, "gpt-3.5-turbo");
            assert_eq!(request.messages.len(), 1);
            assert_eq!(request.messages[0].role, MessageRole::User);
            assert!(request.messages[0]
                .content
                .ends_with("The description of the notebooks is a tutorial on list comprehensions."));
        }
        other => panic!("unexpected effect {other:?}"),
    }
    let command = command.advance(world.perform(effect).unwrap());

    let effect = command.effect();
    assert_eq!(
        effect,
        CommandEffect::Perform(Effect::WriteTransient {
            path: "_temp_0000000000000009.md".to_string(),
            content: "# Title\n```code\nprint(1)\n```".to_string(),
        })
    );
    let command = command.advance(world.perform(effect).unwrap());
    assert_eq!(
        world.files.get("_temp_0000000000000009.md").map(String::as_str),
        Some("# Title\n```code\nprint(1)\n```")
    );

    let effect = command.effect();
    assert_eq!(
        effect,
        CommandEffect::Perform(Effect::RunConverter {
            program: "pandoc".to_string(),
            args: vec![
                "_temp_0000000000000009.md".to_string(),
                "-o".to_string(),
                "lists.ipynb".to_string(),
            ],
        })
    );
    let command = command.advance(world.perform(effect).unwrap());

    let effect = command.effect();
    assert_eq!(
        effect,
        CommandEffect::Perform(Effect::RemoveTransient {
            path: "_temp_0000000000000009.md".to_string(),
        })
    );
    let command = command.advance(world.perform(effect).unwrap());
    assert!(!world.files.contains_key("_temp_0000000000000009.md"));
    assert_eq!(
        world.files.get("lists.ipynb").map(String::as_str),
        Some("notebook of # Title\n```code\nprint(1)\n```")
    );

    assert_eq!(command.effect(), CommandEffect::Finish(Ok(true)));
}

#[test]
fn zero_choices_fail_with_empty_response() {
    let mut world = World::new(Some(vec![]));
    let outcome = world.drive(NotebookCommand::start("out.ipynb", "anything", 1));
    assert_eq!(outcome, Err(CommandError::Generation(GenerationError::EmptyResponse)));
    assert_eq!(world.log, vec!["call gpt-3.5-turbo"]);
    assert!(world.files.is_empty());
}

#[test]
fn failed_call_fails_with_api_failure() {
    let mut world = World::new(None);
    let outcome = world.drive(NotebookCommand::start("out.ipynb", "anything", 1));
    assert_eq!(
        outcome,
        Err(CommandError::Generation(GenerationError::ApiFailure("connection refused".to_string())))
    );
    assert_eq!(world.log, vec!["call gpt-3.5-turbo"]);
}

#[test]
fn missing_converter_fails_and_leaves_no_transient_file() {
    let mut world = World::new(Some(vec!["text"]));
    world.converter_installed = false;
    let outcome = world.drive(NotebookCommand::start("out.ipynb", "anything", 3));
    assert_eq!(
        outcome,
        Err(CommandError::Materialize(MaterializeError::ConversionFailed(
            ConversionFailure::NotStarted { cause: "No such file or directory".to_string() }
        )))
    );
    assert!(world.files.is_empty());
    assert_eq!(
        world.log,
        vec![
            "call gpt-3.5-turbo",
            "write _temp_0000000000000003.md",
            "run pandoc _temp_0000000000000003.md -o out.ipynb",
            "remove _temp_0000000000000003.md",
        ]
    );
}

#[test]
fn failed_write_fails_without_the_converter() {
    let mut world = World::new(Some(vec!["text"]));
    world.writable = false;
    let outcome = world.drive(NotebookCommand::start("out.ipynb", "anything", 3));
    assert_eq!(
        outcome,
        Err(CommandError::Materialize(MaterializeError::WriteFailed("Permission denied".to_string())))
    );
    assert_eq!(world.log, vec!["call gpt-3.5-turbo", "write _temp_0000000000000003.md"]);
}

#[test]
fn two_runs_side_by_side_keep_apart() {
    let mut world = World::new(Some(vec!["shared"]));
    let mut first = NotebookCommand::start("first.ipynb", "one", 1);
    let mut second = NotebookCommand::start("second.ipynb", "two", 2);

    // Both runs ask the model; the answers differ.
    world.reply = Some(vec!["```python\nfirst\n```".to_string()]);
    first = world.step(first);
    world.reply = Some(vec!["```python\nsecond\n```".to_string()]);
    second = world.step(second);

    // Both write before either converts.
    first = world.step(first);
    second = world.step(second);
    assert_eq!(world.files.len(), 2);

    // The second run converts and cleans up while the first has not yet converted.
    second = world.step(second);
    second = world.step(second);
    assert_eq!(second.effect(), CommandEffect::Finish(Ok(true)));
    assert!(world.files.contains_key("_temp_0000000000000001.md"));

    first = world.step(first);
    first = world.step(first);
    assert_eq!(first.effect(), CommandEffect::Finish(Ok(true)));

    assert_eq!(
        world.files.get("first.ipynb").map(String::as_str),
        Some("notebook of ```code\nfirst\n```")
    );
    assert_eq!(
        world.files.get("second.ipynb").map(String::as_str),
        Some("notebook of ```code\nsecond\n```")
    );
    assert_eq!(world.files.len(), 2);
}

#[test]
fn reports_of_the_wrong_kind_are_ignored() {
    let command = NotebookCommand::start("out.ipynb", "d", 5);
    let command = command.advance(CommandReport::Performed(Report::Written));
    assert!(matches!(command.effect(), CommandEffect::CallModel(_)));
    let command = command.advance(CommandReport::Model(ChatReply::Choices(vec!["x".to_string()])));
    let command = command.advance(CommandReport::Model(ChatReply::Choices(Vec::new())));
    assert_eq!(
        command.effect(),
        CommandEffect::Perform(Effect::WriteTransient {
            path: "_temp_0000000000000005.md".to_string(),
            content: "x".to_string(),
        })
    );
    let failed = NotebookCommand::start("out.ipynb", "d", 5)
        .advance(CommandReport::Model(ChatReply::Choices(Vec::new())))
        .advance(CommandReport::Model(ChatReply::Choices(vec!["x".to_string()])))
        .advance(CommandReport::Performed(Report::Written));
    assert_eq!(
        failed.effect(),
        CommandEffect::Finish(Err(CommandError::Generation(GenerationError::EmptyResponse)))
    );
}

#[test]
fn credential_is_required() {
    assert_eq!(CREDENTIAL_VARIABLE, "OPENAI_TOKEN");
    assert_eq!(require_credential(Some("SECRET-REDACTED".to_string())), Ok("SECRET-REDACTED".to_string()));
    assert_eq!(require_credential(Some(String::new())), Ok(String::new()));
    assert_eq!(require_credential(None), Err(StartupError::CredentialMissing));
    assert_eq!(describe_startup(StartupError::CredentialMissing), "OPENAI_TOKEN not set");
}

#[test]
fn each_error_has_its_sentence() {
    let api = CommandError::Generation(GenerationError::ApiFailure("timed out".to_string()));
    let empty = CommandError::Generation(GenerationError::EmptyResponse);
    let write = CommandError::Materialize(MaterializeError::WriteFailed("disk full".to_string()));
    let missing = CommandError::Materialize(MaterializeError::ConversionFailed(
        ConversionFailure::NotStarted { cause: "not found".to_string() },
    ));
    let failed = CommandError::Materialize(MaterializeError::ConversionFailed(
        ConversionFailure::Failed { code: 3, stderr: "bad input".to_string() },
    ));
    let interrupted = CommandError::Materialize(MaterializeError::ConversionFailed(
        ConversionFailure::Interrupted { stderr: "partial".to_string() },
    ));
    assert_eq!(describe(&api), "could not reach the model: timed out");
    assert_eq!(describe(&empty), "the model returned nothing");
    assert_eq!(describe(&write), "could not write the temporary file: disk full");
    assert_eq!(describe(&missing), "the conversion tool failed: not found");
    assert_eq!(describe(&failed), "the conversion tool failed: bad input");
    assert_eq!(describe(&interrupted), "the conversion tool failed: partial");
    assert_eq!(kind(&api), ErrorKind::ModelUnreachable);
    assert_eq!(kind(&empty), ErrorKind::ModelSilent);
    assert_eq!(kind(&write), ErrorKind::WriteFailed);
    assert_eq!(kind(&missing), ErrorKind::ConversionFailed);
    assert_eq!(kind(&failed), ErrorKind::ConversionFailed);
    assert_eq!(kind(&interrupted), ErrorKind::ConversionFailed);
}

#[test]
fn sentences_of_different_kinds_differ() {
    let errors = [
        CommandError::Generation(GenerationError::ApiFailure(String::new())),
        CommandError::Generation(GenerationError::EmptyResponse),
        CommandError::Materialize(MaterializeError::WriteFailed(String::new())),
        CommandError::Materialize(MaterializeError::ConversionFailed(
            ConversionFailure::NotStarted { cause: String::new() },
        )),
    ];
    for first in &errors {
        for second in &errors {
            assert_eq!(describe(first) == describe(second), kind(first) == kind(second));
        }
    }
}
