//! What holds of every run of the pipeline, stated over its transition
//! function and proved.

use crate::adapter::{lemma_matching, spec_render_command, RendererAdapterView};
use crate::command::ProcessOutcomeView;
use crate::content::spec_materialize;
use crate::dispatch::spec_print_command;
use crate::error::{AttemptView, FailureReasonView, LabelErrorView};
use crate::label::{DestinationView, LabelSpecView};
use crate::pipeline::{
    spec_attempt, spec_begin, spec_step, ActionView, EventView, RenderJobView, Stage,
};
use vstd::prelude::*;

verus! {

/// Whether an action starts an external process.
pub open spec fn runs_process(action: ActionView) -> bool {
    action is Run
}

/// A request with a dimension that is not positive, or with a payload that
/// does not decode, is rejected at once with that validation error: no job
/// comes to be, so nothing is written and no process is run. Every other
/// request yields a well-formed job whose first action writes the input.
/// The chain is any that a vector can hold.
pub proof fn law_rejected_request_runs_nothing(
    spec: LabelSpecView,
    chain: Seq<RendererAdapterView>,
    temp_dir: Seq<char>,
    now_millis: nat,
)
    requires
        chain.len() <= usize::MAX,
    ensures
        !spec.valid_dimensions() ==> spec_begin(spec, chain, temp_dir, now_millis) == Err::<
            (RenderJobView, ActionView),
            LabelErrorView,
        >(LabelErrorView::InvalidDimensions),
        spec.valid_dimensions() && spec_materialize(spec.content) is Err ==> spec_begin(
            spec,
            chain,
            temp_dir,
            now_millis,
        ) == Err::<(RenderJobView, ActionView), LabelErrorView>(
            spec_materialize(spec.content)->Err_0,
        ),
        spec.valid_dimensions() && spec_materialize(spec.content) is Ok ==> {
            &&& spec_begin(spec, chain, temp_dir, now_millis) matches Ok((job, action))
            &&& job.wf()
            &&& job.stage is Materializing
            &&& action == ActionView::WriteInput(spec_materialize(spec.content)->Ok_0)
            &&& !runs_process(action)
        },
{
    lemma_matching(chain, spec.content.kind());
}

/// A step keeps a well-formed job well-formed, and never touches what was
/// fixed when the job began: the page dimensions, the destination, the
/// chain and the output path. The dimensions that sized the rendering are
/// therefore the ones that size the print. The log only grows.
pub proof fn law_step_preserves_invariant(job: RenderJobView, event: EventView)
    requires
        job.wf(),
    ensures
        spec_step(job, event).0.wf(),
        spec_step(job, event).0.width == job.width,
        spec_step(job, event).0.height == job.height,
        spec_step(job, event).0.destination == job.destination,
        spec_step(job, event).0.adapters == job.adapters,
        spec_step(job, event).0.output_path == job.output_path,
        job.attempt_log.is_prefix_of(spec_step(job, event).0.attempt_log),
{
    let next = spec_step(job, event).0;
    assert(next.attempt_log == job.attempt_log || next.attempt_log.drop_last()
        =~= job.attempt_log);
    assert(job.attempt_log =~= next.attempt_log.subrange(0, job.attempt_log.len() as int));
}

/// A job that is over stays as it is: whatever is reported to it, it asks
/// for nothing more.
pub proof fn law_finished_job_is_inert(job: RenderJobView, event: EventView)
    requires
        job.finished(),
    ensures
        spec_step(job, event) == (job, ActionView::Nothing),
{
}

/// When the chain is exhausted, the error carries the job's whole log, with
/// exactly one entry per adapter of the chain, each under its adapter's name
/// and in the order in which the adapters were tried.
pub proof fn law_exhaustion_reports_every_adapter(job: RenderJobView, event: EventView)
    requires
        job.wf(),
        spec_step(job, event).1 matches ActionView::Finish(
            Err(LabelErrorView::ChainExhausted { .. }),
        ),
    ensures
        spec_step(job, event).1 == ActionView::Finish(
            Err(LabelErrorView::ChainExhausted { attempts: spec_step(job, event).0.attempt_log }),
        ),
        spec_step(job, event).0.stage is Failed,
        spec_step(job, event).0.attempt_log.len() == job.adapters.len(),
        forall|i: int|
            0 <= i < job.adapters.len() ==> (#[trigger] spec_step(
                job,
                event,
            ).0.attempt_log[i]).renderer == job.adapters[i].name,
{
    law_step_preserves_invariant(job, event);
}

/// Fallback past a missing engine: when the engine of adapter `index` is not
/// installed and the next adapter's engine ends with status zero and has
/// written the output, then the next adapter was run on the same input and
/// output, the log gained exactly one entry, which says that adapter
/// `index` is not installed, and the PDF of the next adapter is what is
/// routed to the destination, under that adapter's unit convention.
pub proof fn law_fallback_after_missing_engine(
    job: RenderJobView,
    index: usize,
    detail: Seq<char>,
    stdout: Seq<char>,
    stderr: Seq<char>,
)
    requires
        job.wf(),
        job.stage == (Stage::Rendering { index }),
        index + 1 < job.adapters.len(),
    ensures
        ({
            let (missing, retry) = spec_step(
                job,
                EventView::Process(ProcessOutcomeView::NotStarted { reason: detail }),
            );
            let (ran, check) = spec_step(
                missing,
                EventView::Process(ProcessOutcomeView::Exited { success: true, stdout, stderr }),
            );
            let (routed, deliver) = spec_step(ran, EventView::OutputExists(true));
            &&& retry == ActionView::Run(
                spec_render_command(
                    job.adapters[index + 1],
                    job.input_path,
                    job.output_path,
                    job.width,
                    job.height,
                ),
            )
            &&& check == ActionView::CheckOutput { path: job.output_path }
            &&& routed.attempt_log == job.attempt_log.push(
                AttemptView {
                    renderer: job.adapters[index as int].name,
                    reason: FailureReasonView::NotInstalled {
                        detail,
                        remedy: job.adapters[index as int].remedy,
                    },
                },
            )
            &&& match job.destination {
                DestinationView::ViewDefault => routed.stage is Viewing && deliver
                    == ActionView::Open { path: job.output_path },
                DestinationView::Printer(_) => routed.stage == (Stage::Confirming {
                    index: (index + 1) as usize,
                }) && deliver == ActionView::CheckOutput { path: job.output_path },
            }
        }),
{
}

/// Once a PDF is being delivered there is no way back into the chain: from
/// the stages of dispatch a job only moves on within dispatch or ends, so a
/// failed print is never retried with another renderer.
pub proof fn law_no_retry_after_dispatch(job: RenderJobView, event: EventView)
    requires
        job.wf(),
        job.stage is Confirming || job.stage is Printing || job.stage is Viewing,
    ensures
        ({
            let next = spec_step(job, event).0.stage;
            next is Confirming || next is Printing || next is Viewing || next is Done || next
                is Failed
        }),
        spec_step(job, event).0.attempt_log == job.attempt_log,
{
}

/// A process that ran and ended with a non-zero status.
pub open spec fn is_rejection(outcome: ProcessOutcomeView) -> bool {
    outcome matches ProcessOutcomeView::Exited { success, .. } && !success
}

/// The run in which the adapter that is being tried and every adapter after
/// it end as `outcomes` say, one outcome per adapter, and what each left at
/// the output path is cleared away: the job and the action at its end.
pub open spec fn spec_reject_all(job: RenderJobView, outcomes: Seq<ProcessOutcomeView>) -> (
    RenderJobView,
    ActionView,
)
    decreases outcomes.len(),
{
    if outcomes.len() == 0 {
        (job, ActionView::Nothing)
    } else {
        let failed = spec_step(job, EventView::Process(outcomes[0])).0;
        let cleared = spec_step(failed, EventView::OutputCleared);
        if outcomes.len() == 1 {
            cleared
        } else {
            spec_reject_all(cleared.0, outcomes.drop_first())
        }
    }
}

/// When every adapter from `index` on is rejected by its engine, the job
/// fails with an exhausted chain. The error's log has as many entries as
/// the chain has adapters; what was logged before stays in front, and each
/// rejection follows in the order of the attempts, under its adapter's name
/// and with that engine's error output.
pub proof fn law_all_rejected_exhausts_chain(
    job: RenderJobView,
    index: usize,
    outcomes: Seq<ProcessOutcomeView>,
)
    requires
        job.wf(),
        job.stage == (Stage::Rendering { index }),
        outcomes.len() == job.adapters.len() - index,
        forall|k: int| 0 <= k < outcomes.len() ==> is_rejection(#[trigger] outcomes[k]),
    ensures
        ({
            let (end, action) = spec_reject_all(job, outcomes);
            &&& action == ActionView::Finish(
                Err(LabelErrorView::ChainExhausted { attempts: end.attempt_log }),
            )
            &&& end.stage is Failed
            &&& end.attempt_log.len() == job.adapters.len()
            &&& end.attempt_log.take(index as int) == job.attempt_log
            &&& forall|k: int|
                0 <= k < outcomes.len() ==> #[trigger] end.attempt_log[index + k] == (AttemptView {
                    renderer: job.adapters[index + k].name,
                    reason: FailureReasonView::Rejected { stderr: outcomes[k]->stderr },
                })
        }),
    decreases outcomes.len(),
{
    let first = EventView::Process(outcomes[0]);
    let failed = spec_step(job, first).0;
    let cleared = spec_step(failed, EventView::OutputCleared);
    let entry = AttemptView {
        renderer: job.adapters[index as int].name,
        reason: FailureReasonView::Rejected { stderr: outcomes[0]->stderr },
    };
    assert(is_rejection(outcomes[0]));
    assert(failed.attempt_log == job.attempt_log.push(entry));
    law_step_preserves_invariant(job, first);
    law_step_preserves_invariant(failed, EventView::OutputCleared);
    let (end, action) = spec_reject_all(job, outcomes);
    if outcomes.len() == 1 {
        assert(end.attempt_log.take(index as int) =~= job.attempt_log);
    } else {
        let rest = outcomes.drop_first();
        assert forall|k: int| 0 <= k < rest.len() implies is_rejection(#[trigger] rest[k]) by {
            assert(rest[k] == outcomes[k + 1]);
        }
        law_all_rejected_exhausts_chain(cleared.0, (index + 1) as usize, rest);
        assert(end.attempt_log.take(index as int) =~= end.attempt_log.take(index + 1).take(
            index as int,
        ));
        assert(end.attempt_log.take(index as int) =~= job.attempt_log);
        assert forall|k: int| 0 <= k < outcomes.len() implies #[trigger] end.attempt_log[index
            + k] == (AttemptView {
            renderer: job.adapters[index + k].name,
            reason: FailureReasonView::Rejected { stderr: outcomes[k]->stderr },
        }) by {
            if k == 0 {
                assert(end.attempt_log.take(index + 1)[index as int] == entry);
            } else {
                assert(rest[k - 1] == outcomes[k]);
                assert(end.attempt_log[(index + 1) + (k - 1)] == end.attempt_log[index + k]);
            }
        }
    }
}

/// The two destinations exclude each other: the viewer is opened only for a
/// job whose destination is the default viewer, and only a job whose
/// destination is a printer ever checks on its PDF for printing or waits for
/// the spooler.
pub proof fn law_destinations_are_exclusive(job: RenderJobView, event: EventView)
    requires
        job.wf(),
    ensures
        spec_step(job, event).1 is Open ==> job.destination is ViewDefault,
        spec_step(job, event).0.stage is Viewing ==> job.destination is ViewDefault,
        spec_step(job, event).0.stage is Confirming ==> job.destination is Printer,
        spec_step(job, event).0.stage is Printing ==> job.destination is Printer,
{
}

/// The print agrees with the rendering. When adapter `index` has rendered
/// the PDF and it is still there, the spool command names the job's
/// printer, gives the media size in that adapter's unit convention, and is
/// built from the very width and height from which the adapter's render
/// command was built.
pub proof fn law_print_agrees_with_rendering(job: RenderJobView, index: usize, printer: Seq<char>)
    requires
        job.wf(),
        job.stage == (Stage::Verifying { index }),
        job.destination == DestinationView::Printer(printer),
    ensures
        ({
            let (confirming, check) = spec_step(job, EventView::OutputExists(true));
            let (printing, spool) = spec_step(confirming, EventView::OutputExists(true));
            &&& confirming.stage == (Stage::Confirming { index })
            &&& check == ActionView::CheckOutput { path: job.output_path }
            &&& printing.stage is Printing
            &&& spool == ActionView::Run(
                spec_print_command(
                    job.output_path,
                    printer,
                    job.adapters[index as int].sizing.spec_convention(),
                    job.width,
                    job.height,
                ),
            )
            &&& spec_attempt(job, index as int).1 == ActionView::Run(
                spec_render_command(
                    job.adapters[index as int],
                    job.input_path,
                    job.output_path,
                    job.width,
                    job.height,
                ),
            )
        }),
{
}

} // verus!
