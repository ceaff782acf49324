use mycli::request::{Destination, UsageError};
use mycli::run::{Event, Failure, Stage};

fn some(text: &str) -> Option<String> {
    Some(text.to_string())
}

/// Takes a fresh run through the reading of the flags and the building of
/// the payload.
fn run_up_to_write(output: Option<String>, format: Option<String>) -> Stage {
    let stage = Stage::Start.step(Event::Resume);
    assert_eq!(stage, Stage::ParseArgs);
    let stage = stage.step(Event::Arguments { output, format });
    stage.step(Event::Resume)
}

#[test]
fn text_goes_to_standard_output() {
    let stage = run_up_to_write(None, some("text"));
    assert_eq!(
        stage,
        Stage::Write {
            destination: Destination::Stdout,
            payload: "hello world\n".to_string()
        }
    );
    let stage = stage.step(Event::Written);
    assert_eq!(stage, Stage::Done);
    assert_eq!(stage.exit_code(), Some(0));
}

#[test]
fn json_goes_to_the_named_file() {
    let stage = run_up_to_write(some("out.json"), some("json"));
    assert_eq!(
        stage,
        Stage::Write {
            destination: Destination::File("out.json".to_string()),
            payload: "{\"msg\":\"hello world\"}\n".to_string()
        }
    );
    let stage = stage.step(Event::Written);
    assert_eq!(stage, Stage::Done);
    assert_eq!(stage.exit_code(), Some(0));
}

#[test]
fn csv_goes_to_standard_output() {
    let stage = run_up_to_write(None, some("csv"));
    assert_eq!(
        stage,
        Stage::Write {
            destination: Destination::Stdout,
            payload: "msg\nhello world\n".to_string()
        }
    );
    let stage = stage.step(Event::Written);
    assert_eq!(stage.exit_code(), Some(0));
}

#[test]
fn a_run_without_flags_writes_text_to_standard_output() {
    assert_eq!(
        run_up_to_write(None, None),
        Stage::Write {
            destination: Destination::Stdout,
            payload: "hello world\n".to_string()
        }
    );
}

#[test]
fn an_unknown_format_fails_before_any_write() {
    let stage = Stage::Start.step(Event::Resume);
    let stage = stage.step(Event::Arguments {
        output: some("out.xml"),
        format: some("xml"),
    });
    assert_eq!(
        stage,
        Stage::Failed(Failure::Usage(UsageError::MalformedValue))
    );
    assert!(stage.is_terminal());
    assert_eq!(stage.exit_code(), Some(2));
    assert_ne!(stage.exit_code(), Some(0));
    match &stage {
        Stage::Failed(failure) => assert!(!failure.message().is_empty()),
        _ => unreachable!(),
    }
    // Nothing that is reported later brings a write about.
    for event in [
        Event::Resume,
        Event::Written,
        Event::Arguments {
            output: None,
            format: some("text"),
        },
    ] {
        assert_eq!(stage.clone().step(event), stage);
    }
}

#[test]
fn a_failed_write_names_the_path() {
    let stage = run_up_to_write(some("/nonexistent-dir/out.txt"), None);
    assert_eq!(
        stage,
        Stage::Write {
            destination: Destination::File("/nonexistent-dir/out.txt".to_string()),
            payload: "hello world\n".to_string()
        }
    );
    let stage = stage.step(Event::WriteFailed {
        cause: "No such file or directory (os error 2)".to_string(),
    });
    assert_eq!(
        stage,
        Stage::Failed(Failure::Io {
            path: some("/nonexistent-dir/out.txt"),
            cause: "No such file or directory (os error 2)".to_string()
        })
    );
    assert_eq!(stage.exit_code(), Some(1));
    match &stage {
        Stage::Failed(failure) => {
            assert_eq!(
                failure.message(),
                "/nonexistent-dir/out.txt: No such file or directory (os error 2)"
            );
            assert!(failure.message().contains("/nonexistent-dir/out.txt"));
        }
        _ => unreachable!(),
    }
}

#[test]
fn a_failed_write_to_standard_output_has_no_path() {
    let stage = run_up_to_write(None, some("csv"));
    let stage = stage.step(Event::WriteFailed {
        cause: "Broken pipe (os error 32)".to_string(),
    });
    assert_eq!(
        stage,
        Stage::Failed(Failure::Io {
            path: None,
            cause: "Broken pipe (os error 32)".to_string()
        })
    );
    assert_eq!(stage.exit_code(), Some(1));
    match &stage {
        Stage::Failed(failure) => assert_eq!(
            failure.message(),
            "standard output: Broken pipe (os error 32)"
        ),
        _ => unreachable!(),
    }
}

#[test]
fn refused_flags_fail_the_run() {
    for error in [
        UsageError::UnrecognizedFlag,
        UsageError::MissingValue,
        UsageError::MalformedValue,
    ] {
        let stage = Stage::ParseArgs.step(Event::Rejected(error));
        assert_eq!(stage, Stage::Failed(Failure::Usage(error)));
        assert_eq!(stage.exit_code(), Some(2));
    }
}

#[test]
fn each_usage_error_has_its_guidance() {
    assert_eq!(
        UsageError::UnrecognizedFlag.guidance(),
        "unrecognized flag: the flags are --output and --format"
    );
    assert_eq!(
        UsageError::MissingValue.guidance(),
        "missing value: --output takes a path, --format a format"
    );
    assert_eq!(
        UsageError::MalformedValue.guidance(),
        "malformed value: --format takes text, json or csv"
    );
    assert_eq!(
        Failure::Usage(UsageError::MalformedValue).message(),
        "malformed value: --format takes text, json or csv"
    );
}

#[test]
fn a_stage_stays_on_an_event_it_does_not_wait_for() {
    let request = mycli::request::InvocationRequest {
        output: None,
        format: mycli::format::Format::Text,
    };
    let write = Stage::Write {
        destination: Destination::Stdout,
        payload: "hello world\n".to_string(),
    };
    let cases = [
        (Stage::Start, Event::Written),
        (
            Stage::Start,
            Event::Arguments {
                output: None,
                format: None,
            },
        ),
        (Stage::ParseArgs, Event::Resume),
        (Stage::ParseArgs, Event::Written),
        (Stage::BuildPayload(request.clone()), Event::Written),
        (
            Stage::BuildPayload(request),
            Event::Rejected(UsageError::MissingValue),
        ),
        (write.clone(), Event::Resume),
        (
            write,
            Event::Arguments {
                output: some("other.txt"),
                format: None,
            },
        ),
    ];
    for (stage, event) in cases {
        assert_eq!(stage.clone().step(event), stage);
    }
}

#[test]
fn a_run_that_is_over_stays_over() {
    let failed = Stage::Failed(Failure::Io {
        path: None,
        cause: "disk full".to_string(),
    });
    for stage in [Stage::Done, failed] {
        for event in [
            Event::Resume,
            Event::Written,
            Event::Rejected(UsageError::UnrecognizedFlag),
            Event::WriteFailed {
                cause: "again".to_string(),
            },
        ] {
            assert_eq!(stage.clone().step(event), stage);
        }
    }
}

#[test]
fn only_a_finished_run_has_an_exit_code() {
    let request = mycli::request::InvocationRequest {
        output: None,
        format: mycli::format::Format::Csv,
    };
    let unfinished = [
        Stage::Start,
        Stage::ParseArgs,
        Stage::BuildPayload(request),
        Stage::Write {
            destination: Destination::Stdout,
            payload: String::new(),
        },
    ];
    for stage in unfinished {
        assert!(!stage.is_terminal());
        assert_eq!(stage.exit_code(), None);
    }
    assert!(Stage::Done.is_terminal());
    assert_eq!(Stage::Done.exit_code(), Some(0));
}

#[test]
fn the_same_flags_give_the_same_write() {
    let first = run_up_to_write(some("out.csv"), some("csv"));
    let second = run_up_to_write(some("out.csv"), some("csv"));
    assert_eq!(first, second);
}
