use label_pdf::command::{Command, ProcessOutcome};
use label_pdf::error::{ErrorKind, LabelError};
use label_pdf::printers::{is_space, parse_printer_names, printers_from_outcome, query_command};

fn exited(success: bool, stdout: &str, stderr: &str) -> ProcessOutcome {
    ProcessOutcome::Exited { success, stdout: stdout.to_string(), stderr: stderr.to_string() }
}

#[test]
fn query_lists_all_destinations() {
    assert_eq!(
        query_command(),
        Command { program: "lpstat".to_string(), args: vec!["-e".to_string()] }
    );
}

#[test]
fn names_are_trimmed_and_blank_lines_dropped() {
    let names = parse_printer_names("Brother_QL\n  HP LaserJet  \n\n\t\nZebra\r\n");
    assert_eq!(names, vec!["Brother_QL", "HP LaserJet", "Zebra"]);
}

#[test]
fn names_keep_the_listing_order() {
    let names = parse_printer_names("zeta\nalpha\nmid");
    assert_eq!(names, vec!["zeta", "alpha", "mid"]);
}

#[test]
fn empty_output_is_an_empty_list() {
    assert_eq!(parse_printer_names(""), Vec::<String>::new());
    assert_eq!(parse_printer_names("\n\n  \n"), Vec::<String>::new());
}

#[test]
fn names_agree_with_lines_and_trim() {
    let outputs = [
        "a\nb\n",
        "\u{a0}padded\u{3000}\n\u{2003}x y\u{85}\n",
        "one\r\ntwo\r\n\r\n",
        "no newline",
        "\n leading",
        "tab\there\n",
    ];
    for output in outputs {
        let expected: Vec<String> = output
            .lines()
            .map(|line| line.trim().to_string())
            .filter(|line| !line.is_empty())
            .collect();
        assert_eq!(parse_printer_names(output), expected);
    }
}

#[test]
fn white_space_is_what_trim_removes() {
    for code in 0..0x3100_u32 {
        if let Some(c) = char::from_u32(code) {
            assert_eq!(is_space(c), c.is_whitespace());
        }
    }
    assert!(!is_space('a'));
    assert!(is_space(' '));
}

#[test]
fn successful_query_yields_names() {
    assert_eq!(
        printers_from_outcome(&exited(true, "BrotherQL\nOffice\n", "")),
        Ok(vec!["BrotherQL".to_string(), "Office".to_string()])
    );
}

#[test]
fn no_printers_is_not_an_error() {
    assert_eq!(printers_from_outcome(&exited(true, "", "")), Ok(Vec::new()));
}

#[test]
fn failed_query_is_an_error() {
    let error = printers_from_outcome(&exited(false, "BrotherQL\n", "scheduler not running"))
        .expect_err("non-zero status");
    assert_eq!(error, LabelError::QueryRejected);
    assert_eq!(error.kind(), ErrorKind::QueryFailed);
    assert_eq!(error.message(), "Failed to get printer list");
}

#[test]
fn unavailable_query_is_an_error() {
    let outcome = ProcessOutcome::NotStarted { reason: "No such file or directory".to_string() };
    let error = printers_from_outcome(&outcome).expect_err("could not launch");
    assert_eq!(
        error,
        LabelError::QueryUnavailable { detail: "No such file or directory".to_string() }
    );
    assert_eq!(error.kind(), ErrorKind::QueryFailed);
    assert_eq!(error.message(), "Failed to execute lpstat: No such file or directory");
}
