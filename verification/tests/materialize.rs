use notebook_gen::materialize::{
    ConversionFailure, Effect, MaterializeError, Materializer, Report, CONVERTER, OUTPUT_FLAG,
};

fn begin() -> Materializer {
    Materializer::begin("# Title\n".to_string(), "out/notebook.ipynb".to_string(), 0x2a)
}

fn write_effect() -> Effect {
    Effect::WriteTransient {
        path: "_temp_000000000000002a.md".to_string(),
        content: "# Title\n".to_string(),
    }
}

fn convert_effect() -> Effect {
    Effect::RunConverter {
        program: "pandoc".to_string(),
        args: vec![
            "_temp_000000000000002a.md".to_string(),
            "-o".to_string(),
            "out/notebook.ipynb".to_string(),
        ],
    }
}

fn remove_effect() -> Effect {
    Effect::RemoveTransient { path: "_temp_000000000000002a.md".to_string() }
}

#[test]
fn converter_is_pandoc_with_output_flag() {
    assert_eq!(CONVERTER, "pandoc");
    assert_eq!(OUTPUT_FLAG, "-o");
}

#[test]
fn successful_run_writes_converts_removes_and_finishes() {
    let m = begin();
    assert!(!m.is_finished());
    assert_eq!(m.effect(), write_effect());
    let m = m.advance(Report::Written);
    assert_eq!(m.effect(), convert_effect());
    let m = m.advance(Report::ConverterExited { code: 0, stderr: String::new() });
    assert!(!m.is_finished());
    assert_eq!(m.effect(), remove_effect());
    let m = m.advance(Report::CleanupAttempted { removed: true });
    assert!(m.is_finished());
    assert_eq!(m.effect(), Effect::Finish(Ok(())));
}

#[test]
fn missing_converter_fails_after_cleanup() {
    let m = begin().advance(Report::Written);
    let m = m.advance(Report::ConverterNotStarted { cause: "No such file or directory".to_string() });
    assert_eq!(m.effect(), remove_effect());
    assert!(!m.is_finished());
    let m = m.advance(Report::CleanupAttempted { removed: true });
    assert!(m.is_finished());
    assert_eq!(
        m.effect(),
        Effect::Finish(Err(MaterializeError::ConversionFailed(ConversionFailure::NotStarted {
            cause: "No such file or directory".to_string(),
        })))
    );
}

#[test]
fn failed_write_without_file_finishes_at_once() {
    let m = begin().advance(Report::WriteFailed {
        created: false,
        cause: "Permission denied".to_string(),
    });
    assert!(m.is_finished());
    assert_eq!(
        m.effect(),
        Effect::Finish(Err(MaterializeError::WriteFailed("Permission denied".to_string())))
    );
}

#[test]
fn failed_write_with_file_removes_it_first() {
    let m = begin().advance(Report::WriteFailed {
        created: true,
        cause: "No space left on device".to_string(),
    });
    assert_eq!(m.effect(), remove_effect());
    let m = m.advance(Report::CleanupAttempted { removed: true });
    assert_eq!(
        m.effect(),
        Effect::Finish(Err(MaterializeError::WriteFailed("No space left on device".to_string())))
    );
}

#[test]
fn failed_write_never_asks_for_the_converter() {
    let later = || [
        Report::Written,
        Report::ConverterExited { code: 0, stderr: String::new() },
        Report::ConverterNotStarted { cause: "x".to_string() },
        Report::ConverterInterrupted { stderr: String::new() },
        Report::CleanupAttempted { removed: false },
        Report::Written,
        Report::ConverterExited { code: 0, stderr: String::new() },
    ];
    for created in [false, true] {
        let mut m = begin().advance(Report::WriteFailed { created, cause: "disk".to_string() });
        for report in later() {
            assert!(!matches!(m.effect(), Effect::RunConverter { .. }));
            m = m.advance(report);
        }
        assert_eq!(
            m.effect(),
            Effect::Finish(Err(MaterializeError::WriteFailed("disk".to_string())))
        );
    }
}

#[test]
fn failing_exit_status_is_a_conversion_failure() {
    let m = begin().advance(Report::Written);
    let m = m.advance(Report::ConverterExited { code: 64, stderr: "unknown format".to_string() });
    assert_eq!(m.effect(), remove_effect());
    let m = m.advance(Report::CleanupAttempted { removed: true });
    assert_eq!(
        m.effect(),
        Effect::Finish(Err(MaterializeError::ConversionFailed(ConversionFailure::Failed {
            code: 64,
            stderr: "unknown format".to_string(),
        })))
    );
}

#[test]
fn negative_exit_status_is_a_conversion_failure() {
    let m = begin().advance(Report::Written);
    let m = m.advance(Report::ConverterExited { code: -1, stderr: String::new() });
    let m = m.advance(Report::CleanupAttempted { removed: true });
    assert_eq!(
        m.effect(),
        Effect::Finish(Err(MaterializeError::ConversionFailed(ConversionFailure::Failed {
            code: -1,
            stderr: String::new(),
        })))
    );
}

#[test]
fn interrupted_converter_is_a_conversion_failure() {
    let m = begin().advance(Report::Written);
    let m = m.advance(Report::ConverterInterrupted { stderr: "half done".to_string() });
    assert_eq!(m.effect(), remove_effect());
    let m = m.advance(Report::CleanupAttempted { removed: true });
    assert_eq!(
        m.effect(),
        Effect::Finish(Err(MaterializeError::ConversionFailed(ConversionFailure::Interrupted {
            stderr: "half done".to_string(),
        })))
    );
}

#[test]
fn failed_removal_does_not_change_the_result() {
    let m = begin().advance(Report::Written);
    let m = m.advance(Report::ConverterExited { code: 0, stderr: String::new() });
    let m = m.advance(Report::CleanupAttempted { removed: false });
    assert_eq!(m.effect(), Effect::Finish(Ok(())));

    let m = begin().advance(Report::Written);
    let m = m.advance(Report::ConverterExited { code: 2, stderr: "bad".to_string() });
    let m = m.advance(Report::CleanupAttempted { removed: false });
    assert_eq!(
        m.effect(),
        Effect::Finish(Err(MaterializeError::ConversionFailed(ConversionFailure::Failed {
            code: 2,
            stderr: "bad".to_string(),
        })))
    );
}

#[test]
fn reports_that_answer_nothing_are_ignored() {
    let m = begin();
    let m = m.advance(Report::CleanupAttempted { removed: true });
    let m = m.advance(Report::ConverterExited { code: 0, stderr: String::new() });
    assert_eq!(m.effect(), write_effect());
    let m = m.advance(Report::Written);
    let m = m.advance(Report::Written);
    let m = m.advance(Report::WriteFailed { created: true, cause: "late".to_string() });
    let m = m.advance(Report::CleanupAttempted { removed: true });
    assert_eq!(m.effect(), convert_effect());
    let m = m.advance(Report::ConverterExited { code: 0, stderr: String::new() });
    let m = m.advance(Report::ConverterNotStarted { cause: "late".to_string() });
    let m = m.advance(Report::Written);
    assert_eq!(m.effect(), remove_effect());
    let m = m.advance(Report::CleanupAttempted { removed: true });
    let m = m.advance(Report::CleanupAttempted { removed: true });
    let m = m.advance(Report::Written);
    assert_eq!(m.effect(), Effect::Finish(Ok(())));
}

#[test]
fn same_inputs_give_the_same_effects() {
    let first = begin().advance(Report::Written);
    let second = begin().advance(Report::Written);
    assert_eq!(first, second);
    assert_eq!(first.effect(), second.effect());
}

#[test]
fn runs_with_different_tokens_name_different_files() {
    let first = Materializer::begin("a".to_string(), "a.ipynb".to_string(), 1);
    let second = Materializer::begin("b".to_string(), "b.ipynb".to_string(), 2);
    assert_eq!(
        first.effect(),
        Effect::WriteTransient { path: "_temp_0000000000000001.md".to_string(), content: "a".to_string() }
    );
    assert_eq!(
        second.effect(),
        Effect::WriteTransient { path: "_temp_0000000000000002.md".to_string(), content: "b".to_string() }
    );
}
