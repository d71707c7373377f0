//! The failures of the pipeline, and the text that describes each to the
//! caller.

use vstd::prelude::*;
use vstd::string::*;

verus! {

/// Why one renderer attempt did not yield a PDF.
#[derive(Debug, PartialEq, Eq)]
pub enum FailureReason {
    /// The engine is not installed. `detail` is the launch error, `remedy`
    /// the adapter's installation hint.
    NotInstalled { detail: String, remedy: String },
    /// The engine ran and ended with a non-zero status; `stderr` is its
    /// error output, verbatim.
    Rejected { stderr: String },
    /// The engine ended with status zero but wrote no output file.
    OutputMissing,
}

/// The mathematical content of a `FailureReason`.
pub enum FailureReasonView {
    NotInstalled { detail: Seq<char>, remedy: Seq<char> },
    Rejected { stderr: Seq<char> },
    OutputMissing,
}

impl View for FailureReason {
    type V = FailureReasonView;

    open spec fn view(&self) -> FailureReasonView {
        match *self {
            FailureReason::NotInstalled { detail, remedy } => FailureReasonView::NotInstalled {
                detail: detail@,
                remedy: remedy@,
            },
            FailureReason::Rejected { stderr } => FailureReasonView::Rejected { stderr: stderr@ },
            FailureReason::OutputMissing => FailureReasonView::OutputMissing,
        }
    }
}

/// One entry of the attempt log: which renderer failed, and why.
#[derive(Debug, PartialEq, Eq)]
pub struct Attempt {
    pub renderer: String,
    pub reason: FailureReason,
}

/// The mathematical content of an `Attempt`.
pub struct AttemptView {
    pub renderer: Seq<char>,
    pub reason: FailureReasonView,
}

impl View for Attempt {
    type V = AttemptView;

    open spec fn view(&self) -> AttemptView {
        AttemptView { renderer: self.renderer@, reason: self.reason@ }
    }
}

impl DeepView for Attempt {
    type V = AttemptView;

    open spec fn deep_view(&self) -> AttemptView {
        self@
    }
}

/// The classes into which failures fall.
#[derive(Clone, Copy, Debug, PartialEq, Eq, Structural)]
pub enum ErrorKind {
    /// The request itself is malformed; nothing was run.
    Validation,
    /// The input file could not be written.
    InputUnavailable,
    /// No renderer engine is installed.
    EngineUnavailable,
    /// At least one engine ran, and none produced a PDF.
    EngineRejected,
    /// The PDF was gone when it was to be printed.
    ArtifactMissing,
    /// The spooler or the viewer failed.
    DispatchFailed,
    /// The printer list could not be queried.
    QueryFailed,
}

/// Everything that can go wrong between a request and its result.
#[derive(Debug, PartialEq, Eq)]
pub enum LabelError {
    /// A page dimension is zero or negative.
    InvalidDimensions,
    /// The raster payload is not valid base64; `detail` says why.
    InvalidEncoding { detail: String },
    /// The temporary input file could not be created or written.
    InputFailed { detail: String },
    /// Every adapter of the chain failed; `attempts` holds one entry per
    /// adapter, in the order in which they were tried.
    ChainExhausted { attempts: Vec<Attempt> },
    /// The rendered PDF did not exist when it was to be sent to the printer.
    ArtifactMissing { path: String },
    /// The spool command could not be launched.
    SpoolerUnavailable { detail: String },
    /// The spool command ended with a non-zero status.
    SpoolerRejected { stderr: String },
    /// The default viewer could not be opened.
    ViewerFailed { detail: String },
    /// The printer query could not be launched.
    QueryUnavailable { detail: String },
    /// The printer query ended with a non-zero status.
    QueryRejected,
}

/// The mathematical content of a `LabelError`.
pub enum LabelErrorView {
    InvalidDimensions,
    InvalidEncoding { detail: Seq<char> },
    InputFailed { detail: Seq<char> },
    ChainExhausted { attempts: Seq<AttemptView> },
    ArtifactMissing { path: Seq<char> },
    SpoolerUnavailable { detail: Seq<char> },
    SpoolerRejected { stderr: Seq<char> },
    ViewerFailed { detail: Seq<char> },
    QueryUnavailable { detail: Seq<char> },
    QueryRejected,
}

impl View for LabelError {
    type V = LabelErrorView;

    open spec fn view(&self) -> LabelErrorView {
        match *self {
            LabelError::InvalidDimensions => LabelErrorView::InvalidDimensions,
            LabelError::InvalidEncoding { detail } => LabelErrorView::InvalidEncoding {
                detail: detail@,
            },
            LabelError::InputFailed { detail } => LabelErrorView::InputFailed { detail: detail@ },
            LabelError::ChainExhausted { attempts } => LabelErrorView::ChainExhausted {
                attempts: attempts.deep_view(),
            },
            LabelError::ArtifactMissing { path } => LabelErrorView::ArtifactMissing { path: path@ },
            LabelError::SpoolerUnavailable { detail } => LabelErrorView::SpoolerUnavailable {
                detail: detail@,
            },
            LabelError::SpoolerRejected { stderr } => LabelErrorView::SpoolerRejected {
                stderr: stderr@,
            },
            LabelError::ViewerFailed { detail } => LabelErrorView::ViewerFailed { detail: detail@ },
            LabelError::QueryUnavailable { detail } => LabelErrorView::QueryUnavailable {
                detail: detail@,
            },
            LabelError::QueryRejected => LabelErrorView::QueryRejected,
        }
    }
}

/// The mathematical content of a result that is a text or an error.
pub open spec fn outcome_view(result: Result<String, LabelError>) -> Result<
    Seq<char>,
    LabelErrorView,
> {
    match result {
        Ok(text) => Ok(text@),
        Err(error) => Err(error@),
    }
}

/// Whether every attempt of a log failed because its engine is missing.
pub open spec fn all_not_installed(attempts: Seq<AttemptView>) -> bool {
    forall|i: int| 0 <= i < attempts.len() ==> (#[trigger] attempts[i]).reason is NotInstalled
}

/// The class of an error. An exhausted chain counts as "engine unavailable"
/// only if every adapter reported a missing engine.
pub open spec fn spec_kind(error: LabelErrorView) -> ErrorKind {
    match error {
        LabelErrorView::InvalidDimensions => ErrorKind::Validation,
        LabelErrorView::InvalidEncoding { .. } => ErrorKind::Validation,
        LabelErrorView::InputFailed { .. } => ErrorKind::InputUnavailable,
        LabelErrorView::ChainExhausted { attempts } => if all_not_installed(attempts) {
            ErrorKind::EngineUnavailable
        } else {
            ErrorKind::EngineRejected
        },
        LabelErrorView::ArtifactMissing { .. } => ErrorKind::ArtifactMissing,
        LabelErrorView::SpoolerUnavailable { .. } => ErrorKind::DispatchFailed,
        LabelErrorView::SpoolerRejected { .. } => ErrorKind::DispatchFailed,
        LabelErrorView::ViewerFailed { .. } => ErrorKind::DispatchFailed,
        LabelErrorView::QueryUnavailable { .. } => ErrorKind::QueryFailed,
        LabelErrorView::QueryRejected => ErrorKind::QueryFailed,
    }
}

/// The line that describes one failed attempt.
pub open spec fn spec_attempt_line(attempt: AttemptView) -> Seq<char> {
    match attempt.reason {
        FailureReasonView::NotInstalled { detail, remedy } => attempt.renderer + " not found: "@
            + detail + ". "@ + remedy,
        FailureReasonView::Rejected { stderr } => attempt.renderer + " failed: "@ + stderr,
        FailureReasonView::OutputMissing => attempt.renderer
            + " reported success but wrote no output file"@,
    }
}

/// The lines of an attempt log, each preceded by a line break, in log order.
pub open spec fn spec_attempt_lines(attempts: Seq<AttemptView>) -> Seq<char>
    decreases attempts.len(),
{
    if attempts.len() == 0 {
        Seq::<char>::empty()
    } else {
        spec_attempt_lines(attempts.drop_last()) + "\n"@ + spec_attempt_line(attempts.last())
    }
}

/// The text that describes an error to the caller. Text that came from an
/// engine, the spooler or the system is carried verbatim.
pub open spec fn spec_message(error: LabelErrorView) -> Seq<char> {
    match error {
        LabelErrorView::InvalidDimensions => "Label width and height must be greater than zero"@,
        LabelErrorView::InvalidEncoding { detail } => "Failed to decode base64 image: "@ + detail,
        LabelErrorView::InputFailed { detail } => "Failed to create input file: "@ + detail,
        LabelErrorView::ChainExhausted { attempts } => "No renderer produced a PDF:"@
            + spec_attempt_lines(attempts),
        LabelErrorView::ArtifactMissing { path } => "PDF file does not exist at: "@ + path,
        LabelErrorView::SpoolerUnavailable { detail } => "Failed to execute lpr command: "@
            + detail,
        LabelErrorView::SpoolerRejected { stderr } => "Failed to print: "@ + stderr,
        LabelErrorView::ViewerFailed { detail } => "Failed to open PDF: "@ + detail,
        LabelErrorView::QueryUnavailable { detail } => "Failed to execute lpstat: "@ + detail,
        LabelErrorView::QueryRejected => "Failed to get printer list"@,
    }
}

/// `prefix` followed by `rest`.
pub fn prefixed(prefix: &str, rest: &str) -> (text: String)
    ensures
        text@ == prefix@ + rest@,
{
    String::from_str(prefix).concat(rest)
}

impl FailureReason {
    /// A reason with the same content.
    pub fn duplicate(&self) -> (copy: FailureReason)
        ensures
            copy@ == self@,
    {
        match self {
            FailureReason::NotInstalled { detail, remedy } => FailureReason::NotInstalled {
                detail: detail.clone(),
                remedy: remedy.clone(),
            },
            FailureReason::Rejected { stderr } => FailureReason::Rejected {
                stderr: stderr.clone(),
            },
            FailureReason::OutputMissing => FailureReason::OutputMissing,
        }
    }
}

/// A log with the same entries in the same order.
pub fn duplicate_log(log: &Vec<Attempt>) -> (copy: Vec<Attempt>)
    ensures
        copy.deep_view() == log.deep_view(),
{
    let mut copy: Vec<Attempt> = Vec::new();
    let mut i: usize = 0;
    while i < log.len()
        invariant
            i <= log.len(),
            copy.len() == i,
            forall|j: int| 0 <= j < i ==> copy[j]@ == log[j]@,
        decreases log.len() - i,
    {
        copy.push(log[i].duplicate());
        i = i + 1;
    }
    assert(copy.deep_view() =~= log.deep_view());
    copy
}

impl Attempt {
    /// An attempt with the same content.
    pub fn duplicate(&self) -> (copy: Attempt)
        ensures
            copy@ == self@,
    {
        Attempt { renderer: self.renderer.clone(), reason: self.reason.duplicate() }
    }

    /// The line that describes this attempt.
    pub fn line(&self) -> (text: String)
        ensures
            text@ == spec_attempt_line(self@),
    {
        let mut text: String = self.renderer.clone();
        match &self.reason {
            FailureReason::NotInstalled { detail, remedy } => {
                text.append(" not found: ");
                text.append(detail.as_str());
                text.append(". ");
                text.append(remedy.as_str());
            },
            FailureReason::Rejected { stderr } => {
                text.append(" failed: ");
                text.append(stderr.as_str());
            },
            FailureReason::OutputMissing => {
                text.append(" reported success but wrote no output file");
            },
        }
        text
    }
}

impl LabelError {
    /// The class of this error.
    pub fn kind(&self) -> (kind: ErrorKind)
        ensures
            kind == spec_kind(self@),
    {
        match self {
            LabelError::InvalidDimensions => ErrorKind::Validation,
            LabelError::InvalidEncoding { .. } => ErrorKind::Validation,
            LabelError::InputFailed { .. } => ErrorKind::InputUnavailable,
            LabelError::ChainExhausted { attempts } => {
                let mut i: usize = 0;
                while i < attempts.len()
                    invariant
                        i <= attempts.len(),
                        self@ == (LabelErrorView::ChainExhausted {
                            attempts: attempts.deep_view(),
                        }),
                        forall|j: int|
                            0 <= j < i ==> (#[trigger] attempts.deep_view()[j]).reason
                                is NotInstalled,
                    decreases attempts.len() - i,
                {
                    match &attempts[i].reason {
                        FailureReason::NotInstalled { .. } => {},
                        _ => {
                            assert(!(attempts.deep_view()[i as int].reason is NotInstalled));
                            assert(!all_not_installed(attempts.deep_view()));
                            return ErrorKind::EngineRejected;
                        },
                    }
                    i = i + 1;
                }
                ErrorKind::EngineUnavailable
            },
            LabelError::ArtifactMissing { .. } => ErrorKind::ArtifactMissing,
            LabelError::SpoolerUnavailable { .. } => ErrorKind::DispatchFailed,
            LabelError::SpoolerRejected { .. } => ErrorKind::DispatchFailed,
            LabelError::ViewerFailed { .. } => ErrorKind::DispatchFailed,
            LabelError::QueryUnavailable { .. } => ErrorKind::QueryFailed,
            LabelError::QueryRejected => ErrorKind::QueryFailed,
        }
    }

    /// The text that describes this error to the caller.
    pub fn message(&self) -> (text: String)
        ensures
            text@ == spec_message(self@),
    {
        match self {
            LabelError::InvalidDimensions => String::from_str(
                "Label width and height must be greater than zero",
            ),
            LabelError::InvalidEncoding { detail } => prefixed(
                "Failed to decode base64 image: ",
                detail.as_str(),
            ),
            LabelError::InputFailed { detail } => prefixed(
                "Failed to create input file: ",
                detail.as_str(),
            ),
            LabelError::ChainExhausted { attempts } => {
                let mut text: String = String::from_str("No renderer produced a PDF:");
                let mut i: usize = 0;
                assert(attempts.deep_view().take(0) =~= Seq::<AttemptView>::empty());
                while i < attempts.len()
                    invariant
                        i <= attempts.len(),
                        text@ == "No renderer produced a PDF:"@ + spec_attempt_lines(
                            attempts.deep_view().take(i as int),
                        ),
                    decreases attempts.len() - i,
                {
                    let line: String = attempts[i].line();
                    let ghost before = text@;
                    text.append("\n");
                    text.append(line.as_str());
                    proof {
                        let next = attempts.deep_view().take(i + 1);
                        assert(next.drop_last() =~= attempts.deep_view().take(i as int));
                        assert(next.last() == attempts[i as int]@);
                        assert(text@ =~= "No renderer produced a PDF:"@ + spec_attempt_lines(
                            next,
                        ));
                    }
                    i = i + 1;
                }
                assert(attempts.deep_view().take(i as int) =~= attempts.deep_view());
                text
            },
            LabelError::ArtifactMissing { path } => prefixed(
                "PDF file does not exist at: ",
                path.as_str(),
            ),
            LabelError::SpoolerUnavailable { detail } => prefixed(
                "Failed to execute lpr command: ",
                detail.as_str(),
            ),
            LabelError::SpoolerRejected { stderr } => prefixed(
                "Failed to print: ",
                stderr.as_str(),
            ),
            LabelError::ViewerFailed { detail } => prefixed("Failed to open PDF: ", detail.as_str()),
            LabelError::QueryUnavailable { detail } => prefixed(
                "Failed to execute lpstat: ",
                detail.as_str(),
            ),
            LabelError::QueryRejected => String::from_str("Failed to get printer list"),
        }
    }
}

} // verus!
