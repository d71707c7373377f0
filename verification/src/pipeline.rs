//! The pipeline as a state machine. The library decides, the driver acts:
//! `begin` and `step` each hand back the next `Action`, the driver performs
//! it and reports the `Event` that followed.
//!
//! A job passes through these stages:
//!
//! - `Materializing`: the input file is being written. Then the first
//!   adapter is tried.
//! - `Rendering`: an adapter's engine runs. A missing engine is logged and
//!   the next adapter is tried; a failed engine is logged and the job goes
//!   to `Clearing`; status zero leads to `Verifying`.
//! - `Verifying`: does the output file exist? If not, the attempt is logged
//!   as a failure and the next adapter is tried. If so, the PDF is routed:
//!   to `Viewing`, or to `Confirming` for a printer.
//! - `Clearing`: what a failed engine left behind is removed, so that it is
//!   not taken for a later adapter's output. Then the next adapter is tried.
//! - `Confirming`: is the PDF still there? Then `Printing`, else the job
//!   fails.
//! - `Printing`, `Viewing`: the spooler or the viewer is at work; its report
//!   ends the job.
//! - `Done`, `Failed`: the job is over. It fails, with the whole log, when
//!   an adapter is to be tried and none is left.

use crate::adapter::{
    matching, spec_matching, spec_render_command, spec_standard_chain, standard_chain,
    RendererAdapter, RendererAdapterView,
};
use crate::command::{
    classify, spec_classify, Command, CommandView, ProcessOutcome, ProcessOutcomeView, Verdict,
    VerdictView,
};
use crate::content::{spec_materialize, MaterializedInput, MaterializedInputView};
use crate::dispatch::{
    allocate_output_path, print_command, print_result, spec_output_path, spec_print_command,
    spec_print_result, spec_view_result, view_result,
};
use crate::error::{
    duplicate_log, outcome_view, Attempt, AttemptView, FailureReason, FailureReasonView,
    LabelError, LabelErrorView,
};
use crate::label::{Destination, DestinationView, LabelSpec, LabelSpecView};
use crate::laws::{law_rejected_request_runs_nothing, law_step_preserves_invariant};
use crate::units::Millimeters;
use vstd::prelude::*;
use vstd::string::*;

verus! {

/// Where a job stands, which is also what it waits for.
#[derive(Clone, Copy, Debug, PartialEq, Eq, Structural)]
pub enum Stage {
    /// Waits for the input file to be written.
    Materializing,
    /// Waits for the engine of adapter `index` to end.
    Rendering { index: usize },
    /// Adapter `index` ended with status zero; waits to hear whether the
    /// output file exists.
    Verifying { index: usize },
    /// Adapter `index` failed after it ran; waits for what it may have left
    /// at the output path to be removed.
    Clearing { index: usize },
    /// Adapter `index` rendered the PDF, which is to be printed; waits to
    /// hear whether it is still there.
    Confirming { index: usize },
    /// Waits for the spooler to end.
    Printing,
    /// Waits for the viewer to open.
    Viewing,
    /// The PDF was delivered.
    Done,
    /// The job failed.
    Failed,
}

/// What the driver reports.
#[derive(Debug, PartialEq, Eq)]
pub enum Event {
    /// The input file was written at `path`.
    InputWritten { path: String },
    /// The input file could not be created or written.
    InputFailed { reason: String },
    /// A command ended, or could not be launched.
    Process(ProcessOutcome),
    /// Whether a file exists at the output path.
    OutputExists(bool),
    /// Nothing is left at the output path.
    OutputCleared,
    /// The viewer opened the PDF.
    Opened,
    /// The viewer could not be opened.
    OpenFailed { reason: String },
}

/// The mathematical content of an `Event`.
pub enum EventView {
    InputWritten { path: Seq<char> },
    InputFailed { reason: Seq<char> },
    Process(ProcessOutcomeView),
    OutputExists(bool),
    OutputCleared,
    Opened,
    OpenFailed { reason: Seq<char> },
}

impl View for Event {
    type V = EventView;

    open spec fn view(&self) -> EventView {
        match *self {
            Event::InputWritten { path } => EventView::InputWritten { path: path@ },
            Event::InputFailed { reason } => EventView::InputFailed { reason: reason@ },
            Event::Process(outcome) => EventView::Process(outcome@),
            Event::OutputExists(exists) => EventView::OutputExists(exists),
            Event::OutputCleared => EventView::OutputCleared,
            Event::Opened => EventView::Opened,
            Event::OpenFailed { reason } => EventView::OpenFailed { reason: reason@ },
        }
    }
}

/// What the driver is to do next.
#[derive(Debug, PartialEq, Eq)]
pub enum Action {
    /// Create a fresh temporary file with the given suffix, write the bytes
    /// to it, and report `InputWritten` or `InputFailed`.
    WriteInput(MaterializedInput),
    /// Run the command, capture its status and both output streams, and
    /// report `Process`.
    Run(Command),
    /// Report with `OutputExists` whether a file exists at `path`.
    CheckOutput { path: String },
    /// Remove the file at `path` if there is one, and report `OutputCleared`.
    RemoveOutput { path: String },
    /// Open the file at `path` in the default viewer, and report `Opened` or
    /// `OpenFailed`.
    Open { path: String },
    /// The job is over; this is its result.
    Finish(Result<String, LabelError>),
    /// The event was not one that the job waits for; it changed nothing.
    Nothing,
}

/// The mathematical content of an `Action`.
pub enum ActionView {
    WriteInput(MaterializedInputView),
    Run(CommandView),
    CheckOutput { path: Seq<char> },
    RemoveOutput { path: Seq<char> },
    Open { path: Seq<char> },
    Finish(Result<Seq<char>, LabelErrorView>),
    Nothing,
}

impl View for Action {
    type V = ActionView;

    open spec fn view(&self) -> ActionView {
        match *self {
            Action::WriteInput(input) => ActionView::WriteInput(input@),
            Action::Run(command) => ActionView::Run(command@),
            Action::CheckOutput { path } => ActionView::CheckOutput { path: path@ },
            Action::RemoveOutput { path } => ActionView::RemoveOutput { path: path@ },
            Action::Open { path } => ActionView::Open { path: path@ },
            Action::Finish(result) => ActionView::Finish(outcome_view(result)),
            Action::Nothing => ActionView::Nothing,
        }
    }
}

/// One invocation of the pipeline, from the written input to the delivered
/// PDF.
#[derive(Debug, PartialEq, Eq)]
pub struct RenderJob {
    pub stage: Stage,
    pub width: Millimeters,
    pub height: Millimeters,
    pub destination: Destination,
    /// The chain: the adapters to try, in priority order.
    pub adapters: Vec<RendererAdapter>,
    /// The temporary input file; empty until it is written.
    pub input_path: String,
    /// The PDF's path, fixed for the whole job.
    pub output_path: String,
    /// One entry per failed attempt, in the order of the attempts.
    pub attempt_log: Vec<Attempt>,
}

/// The mathematical content of a `RenderJob`; lengths are in micrometres.
pub struct RenderJobView {
    pub stage: Stage,
    pub width: nat,
    pub height: nat,
    pub destination: DestinationView,
    pub adapters: Seq<RendererAdapterView>,
    pub input_path: Seq<char>,
    pub output_path: Seq<char>,
    pub attempt_log: Seq<AttemptView>,
}

impl View for RenderJob {
    type V = RenderJobView;

    open spec fn view(&self) -> RenderJobView {
        RenderJobView {
            stage: self.stage,
            width: self.width.um(),
            height: self.height.um(),
            destination: self.destination@,
            adapters: self.adapters.deep_view(),
            input_path: self.input_path@,
            output_path: self.output_path@,
            attempt_log: self.attempt_log.deep_view(),
        }
    }
}

impl RenderJobView {
    /// A job is over when it is `Done` or `Failed`.
    pub open spec fn finished(self) -> bool {
        self.stage is Done || self.stage is Failed
    }

    /// The log holds one entry for each of the first adapters of the chain,
    /// under that adapter's name and in the chain's order.
    pub open spec fn log_follows_chain(self) -> bool {
        &&& self.attempt_log.len() <= self.adapters.len()
        &&& forall|i: int|
            0 <= i < self.attempt_log.len() ==> (#[trigger] self.attempt_log[i]).renderer
                == self.adapters[i].name
    }

    /// The invariant of a running job: positive page dimensions, a log that
    /// follows the chain, and a stage that agrees with both. While adapter
    /// `index` is being tried, exactly the `index` adapters before it have
    /// failed and are logged.
    pub open spec fn wf(self) -> bool {
        &&& self.width > 0
        &&& self.height > 0
        &&& self.adapters.len() <= usize::MAX
        &&& self.log_follows_chain()
        &&& match self.stage {
            Stage::Materializing => self.attempt_log.len() == 0,
            Stage::Rendering { index } => index < self.adapters.len() && self.attempt_log.len()
                == index,
            Stage::Verifying { index } => index < self.adapters.len() && self.attempt_log.len()
                == index,
            Stage::Clearing { index } => index < self.adapters.len() && self.attempt_log.len()
                == index + 1,
            Stage::Confirming { index } => index < self.adapters.len() && self.attempt_log.len()
                == index && self.destination is Printer,
            Stage::Printing => self.destination is Printer,
            Stage::Viewing => self.destination is ViewDefault,
            Stage::Done => true,
            Stage::Failed => true,
        }
    }
}

/// The job ends with `result`: `Done` on success, `Failed` otherwise.
pub open spec fn spec_finish(job: RenderJobView, result: Result<Seq<char>, LabelErrorView>) -> (
    RenderJobView,
    ActionView,
) {
    (
        RenderJobView {
            stage: if result is Ok {
                Stage::Done
            } else {
                Stage::Failed
            },
            ..job
        },
        ActionView::Finish(result),
    )
}

/// The job tries adapter `index`, or fails with the whole attempt log when
/// the chain has no such adapter.
pub open spec fn spec_attempt(job: RenderJobView, index: int) -> (RenderJobView, ActionView) {
    if 0 <= index < job.adapters.len() {
        (
            RenderJobView { stage: Stage::Rendering { index: index as usize }, ..job },
            ActionView::Run(
                spec_render_command(
                    job.adapters[index],
                    job.input_path,
                    job.output_path,
                    job.width,
                    job.height,
                ),
            ),
        )
    } else {
        spec_finish(job, Err(LabelErrorView::ChainExhausted { attempts: job.attempt_log }))
    }
}

/// The job with one more entry in its attempt log: adapter `index` failed
/// for `reason`.
pub open spec fn spec_record(
    job: RenderJobView,
    index: int,
    reason: FailureReasonView,
) -> RenderJobView {
    RenderJobView {
        attempt_log: job.attempt_log.push(
            AttemptView { renderer: job.adapters[index].name, reason },
        ),
        ..job
    }
}

/// The rendered PDF is routed to its destination: the viewer is asked to
/// open it, or, for a printer, the driver is first asked whether the PDF is
/// still there.
pub open spec fn spec_dispatch(job: RenderJobView, index: int) -> (RenderJobView, ActionView) {
    match job.destination {
        DestinationView::ViewDefault => (
            RenderJobView { stage: Stage::Viewing, ..job },
            ActionView::Open { path: job.output_path },
        ),
        DestinationView::Printer(_) => (
            RenderJobView { stage: Stage::Confirming { index: index as usize }, ..job },
            ActionView::CheckOutput { path: job.output_path },
        ),
    }
}

/// The printer's name, or the empty text for the default viewer.
pub open spec fn spec_printer(destination: DestinationView) -> Seq<char> {
    match destination {
        DestinationView::Printer(name) => name,
        DestinationView::ViewDefault => Seq::<char>::empty(),
    }
}

/// The whole transition function: the job and the action that follow from
/// a job and an event. An event that the stage does not wait for changes
/// nothing. A stage whose index lies past the end of the chain counts as an
/// exhausted chain.
pub open spec fn spec_step(job: RenderJobView, event: EventView) -> (RenderJobView, ActionView) {
    match (job.stage, event) {
        (Stage::Materializing, EventView::InputWritten { path }) => spec_attempt(
            RenderJobView { input_path: path, ..job },
            0,
        ),
        (Stage::Materializing, EventView::InputFailed { reason }) => spec_finish(
            job,
            Err(LabelErrorView::InputFailed { detail: reason }),
        ),
        (Stage::Rendering { index }, EventView::Process(outcome)) => if index
            >= job.adapters.len() {
            spec_attempt(job, index as int)
        } else {
            match spec_classify(outcome) {
                VerdictView::ProgramNotFound(detail) => spec_attempt(
                    spec_record(
                        job,
                        index as int,
                        FailureReasonView::NotInstalled {
                            detail,
                            remedy: job.adapters[index as int].remedy,
                        },
                    ),
                    index + 1,
                ),
                VerdictView::ProgramFailed(stderr) => (
                    RenderJobView {
                        stage: Stage::Clearing { index },
                        ..spec_record(job, index as int, FailureReasonView::Rejected { stderr })
                    },
                    ActionView::RemoveOutput { path: job.output_path },
                ),
                VerdictView::Success => (
                    RenderJobView { stage: Stage::Verifying { index }, ..job },
                    ActionView::CheckOutput { path: job.output_path },
                ),
            }
        },
        (Stage::Verifying { index }, EventView::OutputExists(exists)) => if index
            >= job.adapters.len() {
            spec_attempt(job, index as int)
        } else if exists {
            spec_dispatch(job, index as int)
        } else {
            spec_attempt(
                spec_record(job, index as int, FailureReasonView::OutputMissing),
                index + 1,
            )
        },
        (Stage::Clearing { index }, EventView::OutputCleared) => if index >= job.adapters.len() {
            spec_attempt(job, index as int)
        } else {
            spec_attempt(job, index + 1)
        },
        (Stage::Confirming { index }, EventView::OutputExists(exists)) => if index
            >= job.adapters.len() {
            spec_attempt(job, index as int)
        } else if exists {
            (
                RenderJobView { stage: Stage::Printing, ..job },
                ActionView::Run(
                    spec_print_command(
                        job.output_path,
                        spec_printer(job.destination),
                        job.adapters[index as int].sizing.spec_convention(),
                        job.width,
                        job.height,
                    ),
                ),
            )
        } else {
            spec_finish(job, Err(LabelErrorView::ArtifactMissing { path: job.output_path }))
        },
        (Stage::Printing, EventView::Process(outcome)) => spec_finish(
            job,
            spec_print_result(spec_printer(job.destination), outcome),
        ),
        (Stage::Viewing, EventView::Opened) => spec_finish(
            job,
            spec_view_result(job.output_path, None),
        ),
        (Stage::Viewing, EventView::OpenFailed { reason }) => spec_finish(
            job,
            spec_view_result(job.output_path, Some(reason)),
        ),
        _ => (job, ActionView::Nothing),
    }
}

/// How a request begins: it is rejected for a dimension that is not
/// positive or for a payload that does not decode; otherwise a job is set
/// up over the adapters of `chain` that render this kind of content, and the
/// input is to be written.
pub open spec fn spec_begin(
    spec: LabelSpecView,
    chain: Seq<RendererAdapterView>,
    temp_dir: Seq<char>,
    now_millis: nat,
) -> Result<(RenderJobView, ActionView), LabelErrorView> {
    if !spec.valid_dimensions() {
        Err(LabelErrorView::InvalidDimensions)
    } else {
        match spec_materialize(spec.content) {
            Err(error) => Err(error),
            Ok(input) => Ok(
                (
                    RenderJobView {
                        stage: Stage::Materializing,
                        width: spec.width_um as nat,
                        height: spec.height_um as nat,
                        destination: spec.destination,
                        adapters: spec_matching(chain, spec.content.kind()),
                        input_path: Seq::<char>::empty(),
                        output_path: spec_output_path(temp_dir, now_millis),
                        attempt_log: Seq::<AttemptView>::empty(),
                    },
                    ActionView::WriteInput(input),
                ),
            ),
        }
    }
}

/// The mathematical content of what `begin` returns.
pub open spec fn begin_view(started: Result<(RenderJob, Action), LabelError>) -> Result<
    (RenderJobView, ActionView),
    LabelErrorView,
> {
    match started {
        Ok((job, action)) => Ok((job@, action@)),
        Err(error) => Err(error@),
    }
}

impl RenderJob {
    /// Ends the job with `result`.
    fn finish(self, result: Result<String, LabelError>) -> (next: (RenderJob, Action))
        ensures
            (next.0@, next.1@) == spec_finish(self@, outcome_view(result)),
    {
        let mut job = self;
        job.stage = match &result {
            Ok(_) => Stage::Done,
            Err(_) => Stage::Failed,
        };
        (job, Action::Finish(result))
    }

    /// Tries adapter `index`, or gives up when the chain has none left.
    fn attempt(self, index: usize) -> (next: (RenderJob, Action))
        ensures
            (next.0@, next.1@) == spec_attempt(self@, index as int),
    {
        let mut job = self;
        if index < job.adapters.len() {
            let command: Command = job.adapters[index].build_command(
                job.input_path.as_str(),
                job.output_path.as_str(),
                job.width,
                job.height,
            );
            job.stage = Stage::Rendering { index };
            (job, Action::Run(command))
        } else {
            let attempts: Vec<Attempt> = duplicate_log(&job.attempt_log);
            job.finish(Err(LabelError::ChainExhausted { attempts }))
        }
    }

    /// Logs that adapter `index` failed for `reason`.
    fn record(&mut self, index: usize, reason: FailureReason)
        requires
            index < old(self).adapters.len(),
        ensures
            final(self)@ == spec_record(old(self)@, index as int, reason@),
    {
        let renderer: String = self.adapters[index].name.clone();
        self.attempt_log.push(Attempt { renderer, reason });
        assert(self.attempt_log.deep_view() =~= old(self).attempt_log.deep_view().push(
            AttemptView { renderer: old(self).adapters[index as int].name@, reason: reason@ },
        ));
    }

    /// Routes the PDF that adapter `index` rendered to its destination.
    fn dispatch(self, index: usize) -> (next: (RenderJob, Action))
        ensures
            (next.0@, next.1@) == spec_dispatch(self@, index as int),
    {
        let mut job = self;
        let path: String = job.output_path.clone();
        match &job.destination {
            Destination::ViewDefault => {
                job.stage = Stage::Viewing;
                (job, Action::Open { path })
            },
            Destination::Printer(_) => {
                job.stage = Stage::Confirming { index };
                (job, Action::CheckOutput { path })
            },
        }
    }

    /// Builds the spool command for the PDF that adapter `index` rendered,
    /// in that adapter's unit convention.
    fn spool(&self, index: usize) -> (command: Command)
        requires
            index < self.adapters.len(),
        ensures
            command@ == spec_print_command(
                self@.output_path,
                spec_printer(self@.destination),
                self@.adapters[index as int].sizing.spec_convention(),
                self@.width,
                self@.height,
            ),
    {
        let convention = self.adapters[index].sizing.convention();
        proof {
            reveal_strlit("");
            assert(""@ =~= Seq::<char>::empty());
        }
        match &self.destination {
            Destination::Printer(name) => print_command(
                self.output_path.as_str(),
                name.as_str(),
                convention,
                self.width,
                self.height,
            ),
            Destination::ViewDefault => print_command(
                self.output_path.as_str(),
                "",
                convention,
                self.width,
                self.height,
            ),
        }
    }

    /// Reads what the spooler reported about this job's PDF.
    fn printed(&self, outcome: &ProcessOutcome) -> (result: Result<String, LabelError>)
        ensures
            outcome_view(result) == spec_print_result(spec_printer(self@.destination), outcome@),
    {
        proof {
            reveal_strlit("");
            assert(""@ =~= Seq::<char>::empty());
        }
        match &self.destination {
            Destination::Printer(name) => print_result(name.as_str(), outcome),
            Destination::ViewDefault => print_result("", outcome),
        }
    }

    /// Whether the job is over: delivered or failed.
    pub fn is_finished(&self) -> (finished: bool)
        ensures
            finished == (self.stage is Done || self.stage is Failed),
    {
        match self.stage {
            Stage::Done => true,
            Stage::Failed => true,
            _ => false,
        }
    }

    /// Advances the job by one event and says what to do next.
    pub fn step(self, event: Event) -> (next: (RenderJob, Action))
        ensures
            (next.0@, next.1@) == spec_step(self@, event@),
            self@.wf() ==> next.0@.wf(),
    {
        proof {
            if self@.wf() {
                law_step_preserves_invariant(self@, event@);
            }
        }
        let mut job = self;
        match (job.stage, event) {
            (Stage::Materializing, Event::InputWritten { path }) => {
                job.input_path = path;
                job.attempt(0)
            },
            (Stage::Materializing, Event::InputFailed { reason }) => job.finish(
                Err(LabelError::InputFailed { detail: reason }),
            ),
            (Stage::Rendering { index }, Event::Process(outcome)) => {
                if index >= job.adapters.len() {
                    job.attempt(index)
                } else {
                    match classify(&outcome) {
                        Verdict::ProgramNotFound(detail) => {
                            let remedy: String = job.adapters[index].remedy.clone();
                            job.record(index, FailureReason::NotInstalled { detail, remedy });
                            job.attempt(index + 1)
                        },
                        Verdict::ProgramFailed(stderr) => {
                            job.record(index, FailureReason::Rejected { stderr });
                            job.stage = Stage::Clearing { index };
                            let path: String = job.output_path.clone();
                            (job, Action::RemoveOutput { path })
                        },
                        Verdict::Success => {
                            job.stage = Stage::Verifying { index };
                            let path: String = job.output_path.clone();
                            (job, Action::CheckOutput { path })
                        },
                    }
                }
            },
            (Stage::Verifying { index }, Event::OutputExists(exists)) => {
                if index >= job.adapters.len() {
                    job.attempt(index)
                } else if exists {
                    job.dispatch(index)
                } else {
                    job.record(index, FailureReason::OutputMissing);
                    job.attempt(index + 1)
                }
            },
            (Stage::Clearing { index }, Event::OutputCleared) => {
                if index >= job.adapters.len() {
                    job.attempt(index)
                } else {
                    job.attempt(index + 1)
                }
            },
            (Stage::Confirming { index }, Event::OutputExists(exists)) => {
                if index >= job.adapters.len() {
                    job.attempt(index)
                } else if exists {
                    let command: Command = job.spool(index);
                    job.stage = Stage::Printing;
                    (job, Action::Run(command))
                } else {
                    let path: String = job.output_path.clone();
                    job.finish(Err(LabelError::ArtifactMissing { path }))
                }
            },
            (Stage::Printing, Event::Process(outcome)) => {
                let result: Result<String, LabelError> = job.printed(&outcome);
                job.finish(result)
            },
            (Stage::Viewing, Event::Opened) => {
                let result: Result<String, LabelError> = view_result(
                    job.output_path.as_str(),
                    None,
                );
                job.finish(result)
            },
            (Stage::Viewing, Event::OpenFailed { reason }) => {
                let result: Result<String, LabelError> = view_result(
                    job.output_path.as_str(),
                    Some(reason),
                );
                job.finish(result)
            },
            (_, _) => (job, Action::Nothing),
        }
    }
}

/// Begins a request over a chain of the caller's choosing. Adapters of the
/// chain that do not render this kind of content are left out.
pub fn begin_with(
    spec: LabelSpec,
    chain: &Vec<RendererAdapter>,
    temp_dir: &str,
    now_millis: u64,
) -> (started: Result<(RenderJob, Action), LabelError>)
    ensures
        begin_view(started) == spec_begin(spec@, chain.deep_view(), temp_dir@, now_millis as nat),
        started matches Ok((job, _)) ==> job@.wf(),
{
    proof {
        assert(chain.deep_view().len() == chain.len());
        law_rejected_request_runs_nothing(
            spec@,
            chain.deep_view(),
            temp_dir@,
            now_millis as nat,
        );
    }
    let (width, height) = match spec.dimensions() {
        Ok(size) => size,
        Err(error) => {
            return Err(error);
        },
    };
    let input: MaterializedInput = match spec.content.materialize() {
        Ok(input) => input,
        Err(error) => {
            return Err(error);
        },
    };
    let adapters: Vec<RendererAdapter> = matching(chain, spec.content.kind());
    let attempt_log: Vec<Attempt> = Vec::new();
    assert(attempt_log.deep_view() =~= Seq::<AttemptView>::empty());
    let job = RenderJob {
        stage: Stage::Materializing,
        width,
        height,
        destination: spec.destination,
        adapters,
        input_path: String::new(),
        output_path: allocate_output_path(temp_dir, now_millis),
        attempt_log,
    };
    Ok((job, Action::WriteInput(input)))
}

/// Begins a request over the standard chain for its kind of content.
pub fn begin(spec: LabelSpec, temp_dir: &str, now_millis: u64) -> (started: Result<
    (RenderJob, Action),
    LabelError,
>)
    ensures
        begin_view(started) == spec_begin(
            spec@,
            spec_standard_chain(spec@.content.kind()),
            temp_dir@,
            now_millis as nat,
        ),
        started matches Ok((job, _)) ==> job@.wf(),
{
    let chain: Vec<RendererAdapter> = standard_chain(spec.content.kind());
    begin_with(spec, &chain, temp_dir, now_millis)
}

} // verus!
