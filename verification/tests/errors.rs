use label_pdf::error::{duplicate_log, prefixed, Attempt, ErrorKind, FailureReason, LabelError};

fn not_installed(renderer: &str) -> Attempt {
    Attempt {
        renderer: renderer.to_string(),
        reason: FailureReason::NotInstalled {
            detail: "No such file or directory (os error 2)".to_string(),
            remedy: "Please install it".to_string(),
        },
    }
}

fn rejected(renderer: &str, stderr: &str) -> Attempt {
    Attempt {
        renderer: renderer.to_string(),
        reason: FailureReason::Rejected { stderr: stderr.to_string() },
    }
}

fn missing(renderer: &str) -> Attempt {
    Attempt { renderer: renderer.to_string(), reason: FailureReason::OutputMissing }
}

#[test]
fn every_error_has_its_kind() {
    assert_eq!(LabelError::InvalidDimensions.kind(), ErrorKind::Validation);
    assert_eq!(
        LabelError::InvalidEncoding { detail: String::new() }.kind(),
        ErrorKind::Validation
    );
    assert_eq!(
        LabelError::InputFailed { detail: String::new() }.kind(),
        ErrorKind::InputUnavailable
    );
    assert_eq!(
        LabelError::ArtifactMissing { path: String::new() }.kind(),
        ErrorKind::ArtifactMissing
    );
    assert_eq!(
        LabelError::SpoolerUnavailable { detail: String::new() }.kind(),
        ErrorKind::DispatchFailed
    );
    assert_eq!(
        LabelError::SpoolerRejected { stderr: String::new() }.kind(),
        ErrorKind::DispatchFailed
    );
    assert_eq!(LabelError::ViewerFailed { detail: String::new() }.kind(), ErrorKind::DispatchFailed);
    assert_eq!(
        LabelError::QueryUnavailable { detail: String::new() }.kind(),
        ErrorKind::QueryFailed
    );
    assert_eq!(LabelError::QueryRejected.kind(), ErrorKind::QueryFailed);
}

#[test]
fn exhausted_chain_is_unavailable_only_if_every_engine_is_missing() {
    let all_missing =
        LabelError::ChainExhausted { attempts: vec![not_installed("a"), not_installed("b")] };
    assert_eq!(all_missing.kind(), ErrorKind::EngineUnavailable);
    let mixed =
        LabelError::ChainExhausted { attempts: vec![not_installed("a"), rejected("b", "x")] };
    assert_eq!(mixed.kind(), ErrorKind::EngineRejected);
    let no_file = LabelError::ChainExhausted { attempts: vec![missing("a")] };
    assert_eq!(no_file.kind(), ErrorKind::EngineRejected);
    let empty = LabelError::ChainExhausted { attempts: Vec::new() };
    assert_eq!(empty.kind(), ErrorKind::EngineUnavailable);
}

#[test]
fn simple_messages() {
    assert_eq!(
        LabelError::InvalidDimensions.message(),
        "Label width and height must be greater than zero"
    );
    assert_eq!(
        LabelError::InputFailed { detail: "disk full".to_string() }.message(),
        "Failed to create input file: disk full"
    );
    assert_eq!(
        LabelError::ArtifactMissing { path: "/tmp/label_1.pdf".to_string() }.message(),
        "PDF file does not exist at: /tmp/label_1.pdf"
    );
    assert_eq!(prefixed("a: ", "b"), "a: b");
}

#[test]
fn exhausted_chain_message_lists_every_attempt_in_order() {
    let error = LabelError::ChainExhausted {
        attempts: vec![
            not_installed("first"),
            rejected("second", "convert: improper image header\n"),
            missing("third"),
        ],
    };
    assert_eq!(
        error.message(),
        "No renderer produced a PDF:\n\
         first not found: No such file or directory (os error 2). Please install it\n\
         second failed: convert: improper image header\n\n\
         third reported success but wrote no output file"
    );
    assert_eq!(LabelError::ChainExhausted { attempts: Vec::new() }.message(), "No renderer produced a PDF:");
}

#[test]
fn attempt_lines() {
    assert_eq!(rejected("convert", "boom").line(), "convert failed: boom");
    assert_eq!(missing("convert").line(), "convert reported success but wrote no output file");
    assert_eq!(
        not_installed("convert").line(),
        "convert not found: No such file or directory (os error 2). Please install it"
    );
}

#[test]
fn copies_are_equal() {
    let log = vec![not_installed("a"), rejected("b", "x"), missing("c")];
    assert_eq!(duplicate_log(&log), log);
    assert_eq!(log[0].duplicate(), log[0]);
    assert_eq!(log[1].reason.duplicate(), log[1].reason);
    assert_eq!(duplicate_log(&Vec::new()), Vec::<Attempt>::new());
}
