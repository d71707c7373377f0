//! Where the PDF goes: the path it is written to, the spool command that
//! prints it at true scale, and the reading of what spooler and viewer report.

use crate::adapter::UnitConvention;
use crate::command::{Command, CommandView, ProcessOutcome, ProcessOutcomeView};
use crate::error::{outcome_view, prefixed, LabelError, LabelErrorView};
use crate::text::{decimal, decimal_string, lemma_decimal_injective, push_string, push_text};
use crate::units::{spec_points, spec_tenths, spec_tenths_text, Millimeters};
use vstd::prelude::*;
use vstd::string::*;

verus! {

/// The file name of the PDF for a request made at `millis` milliseconds
/// since the epoch.
pub open spec fn spec_output_name(millis: nat) -> Seq<char> {
    "label_"@ + decimal(millis) + ".pdf"@
}

/// The directory part of an output path, up to and including the
/// separator; the empty directory has none.
pub open spec fn spec_output_dir(temp_dir: Seq<char>) -> Seq<char> {
    if temp_dir.len() == 0 || temp_dir.last() == '/' {
        temp_dir
    } else {
        temp_dir + "/"@
    }
}

/// The path of the PDF: the file name inside the shared temporary
/// directory.
pub open spec fn spec_output_path(temp_dir: Seq<char>, millis: nat) -> Seq<char> {
    spec_output_dir(temp_dir) + spec_output_name(millis)
}

/// The spooler's media option for a page, in the unit of the renderer's
/// convention: whole points, or millimetres to the tenth.
pub open spec fn spec_media_option(convention: UnitConvention, width: nat, height: nat) -> Seq<
    char,
> {
    match convention {
        UnitConvention::Points => "media=Custom."@ + decimal(spec_points(width)) + "x"@ + decimal(
            spec_points(height),
        ) + "pt"@,
        UnitConvention::Tenths => "media=Custom."@ + spec_tenths_text(spec_tenths(width)) + "x"@
            + spec_tenths_text(spec_tenths(height)) + "mm"@,
    }
}

/// The spool command: the destination, the media size, and the options
/// that keep the spooler from rescaling the page.
pub open spec fn spec_print_command(
    path: Seq<char>,
    printer: Seq<char>,
    convention: UnitConvention,
    width: nat,
    height: nat,
) -> CommandView {
    CommandView {
        program: "lpr"@,
        args: seq![
            "-P"@,
            printer,
            "-o"@,
            spec_media_option(convention, width, height),
            "-o"@,
            "fit-to-page=false"@,
            "-o"@,
            "scaling=100"@,
            "-o"@,
            "number-up=1"@,
            path,
        ],
    }
}

/// The result of printing: a confirmation that names the destination when
/// the spooler ended with status zero, its error output verbatim otherwise.
pub open spec fn spec_print_result(printer: Seq<char>, outcome: ProcessOutcomeView) -> Result<
    Seq<char>,
    LabelErrorView,
> {
    match outcome {
        ProcessOutcomeView::NotStarted { reason } => Err(
            LabelErrorView::SpoolerUnavailable { detail: reason },
        ),
        ProcessOutcomeView::Exited { success, stdout, stderr } => if success {
            Ok("Printed to "@ + printer)
        } else {
            Err(LabelErrorView::SpoolerRejected { stderr })
        },
    }
}

/// The result of handing the PDF to the default viewer: its path when the
/// viewer opened, the viewer's error otherwise.
pub open spec fn spec_view_result(path: Seq<char>, failure: Option<Seq<char>>) -> Result<
    Seq<char>,
    LabelErrorView,
> {
    match failure {
        None => Ok(path),
        Some(detail) => Err(LabelErrorView::ViewerFailed { detail }),
    }
}

/// Allocates the path of the PDF in `temp_dir` for a request made at
/// `now_millis`. Requests at different milliseconds get different paths.
pub fn allocate_output_path(temp_dir: &str, now_millis: u64) -> (path: String)
    ensures
        path@ == spec_output_path(temp_dir@, now_millis as nat),
{
    let mut path: String = String::from_str(temp_dir);
    let len: usize = temp_dir.unicode_len();
    if len > 0 && temp_dir.get_char(len - 1) != '/' {
        path.append("/");
    }
    path.append("label_");
    let stamp: String = decimal_string(now_millis);
    path.append(stamp.as_str());
    path.append(".pdf");
    assert(path@ =~= spec_output_path(temp_dir@, now_millis as nat));
    path
}

/// Builds the spooler's media option.
pub fn media_option(convention: UnitConvention, width: Millimeters, height: Millimeters) -> (text:
    String)
    ensures
        text@ == spec_media_option(convention, width.um(), height.um()),
{
    let mut text: String = String::from_str("media=Custom.");
    match convention {
        UnitConvention::Points => {
            let w: String = decimal_string(width.to_points());
            let h: String = decimal_string(height.to_points());
            text.append(w.as_str());
            text.append("x");
            text.append(h.as_str());
            text.append("pt");
        },
        UnitConvention::Tenths => {
            let w: String = width.tenths_text();
            let h: String = height.tenths_text();
            text.append(w.as_str());
            text.append("x");
            text.append(h.as_str());
            text.append("mm");
        },
    }
    text
}

/// Builds the command that sends the PDF at `path` to `printer`.
pub fn print_command(
    path: &str,
    printer: &str,
    convention: UnitConvention,
    width: Millimeters,
    height: Millimeters,
) -> (command: Command)
    ensures
        command@ == spec_print_command(path@, printer@, convention, width.um(), height.um()),
{
    let mut args: Vec<String> = Vec::new();
    assert(args.deep_view() =~= Seq::<Seq<char>>::empty());
    push_text(&mut args, "-P");
    push_text(&mut args, printer);
    push_text(&mut args, "-o");
    push_string(&mut args, media_option(convention, width, height));
    push_text(&mut args, "-o");
    push_text(&mut args, "fit-to-page=false");
    push_text(&mut args, "-o");
    push_text(&mut args, "scaling=100");
    push_text(&mut args, "-o");
    push_text(&mut args, "number-up=1");
    push_text(&mut args, path);
    assert(args.deep_view() =~= spec_print_command(
        path@,
        printer@,
        convention,
        width.um(),
        height.um(),
    ).args);
    Command { program: String::from_str("lpr"), args }
}

/// Reads what the spooler reported.
pub fn print_result(printer: &str, outcome: &ProcessOutcome) -> (result: Result<
    String,
    LabelError,
>)
    ensures
        outcome_view(result) == spec_print_result(printer@, outcome@),
{
    match outcome {
        ProcessOutcome::NotStarted { reason } => Err(
            LabelError::SpoolerUnavailable { detail: reason.clone() },
        ),
        ProcessOutcome::Exited { success, stdout: _, stderr } => {
            if *success {
                Ok(prefixed("Printed to ", printer))
            } else {
                Err(LabelError::SpoolerRejected { stderr: stderr.clone() })
            }
        },
    }
}

/// Reads what the viewer reported: `failure` is `None` when it opened.
pub fn view_result(path: &str, failure: Option<String>) -> (result: Result<String, LabelError>)
    ensures
        outcome_view(result) == spec_view_result(path@, failure.deep_view()),
{
    match failure {
        None => Ok(String::from_str(path)),
        Some(detail) => Err(LabelError::ViewerFailed { detail }),
    }
}

/// Output paths do not collide: in one directory, requests made at
/// different milliseconds get different paths. Every path ends in `.pdf`.
pub proof fn law_output_paths_are_distinct(temp_dir: Seq<char>, a: nat, b: nat)
    ensures
        a != b ==> spec_output_path(temp_dir, a) != spec_output_path(temp_dir, b),
        spec_output_path(temp_dir, a).len() >= 4,
        spec_output_path(temp_dir, a).skip(spec_output_path(temp_dir, a).len() - 4) == ".pdf"@,
{
    reveal_strlit(".pdf");
    reveal_strlit("label_");
    let head = spec_output_dir(temp_dir) + "label_"@;
    let path_a = spec_output_path(temp_dir, a);
    let path_b = spec_output_path(temp_dir, b);
    assert(path_a =~= head + decimal(a) + ".pdf"@);
    assert(path_b =~= head + decimal(b) + ".pdf"@);
    assert(path_a.skip(path_a.len() - 4) =~= ".pdf"@);
    if path_a == path_b {
        assert(decimal(a).len() == decimal(b).len());
        assert forall|i: int| 0 <= i < decimal(a).len() implies decimal(a)[i] == decimal(b)[i] by {
            assert(path_a[head.len() + i] == decimal(a)[i]);
            assert(path_b[head.len() + i] == decimal(b)[i]);
        }
        assert(decimal(a) =~= decimal(b));
        lemma_decimal_injective(a, b);
    }
}

} // verus!
