//! Laws of whole pipeline runs.

use vstd::prelude::*;

use crate::capture::{self, CaptureResultView, FoundFiles};
use crate::duration;
use crate::error::SmoketestErrorView;
use crate::json::JsonView;
use crate::package;
use crate::pipeline::{self, ActionView, ConfigView, EventView, PhaseView, PipelineView};
use crate::ps_runner::{self, Outcome, PsRunnerErrorView};
use crate::report::{self, ReportView, StepView};
use crate::steps::{self, COLLECT_STEP, START_STEP, VERIFY_STEP};

verus! {

// ---------------------------------------------------------------------------
// What every event keeps
// ---------------------------------------------------------------------------

/// How many results there are in a phase.
pub open spec fn results_in(phase: PhaseView) -> nat {
    match phase {
        PhaseView::Idle => 0,
        PhaseView::Starting(_) => 0,
        PhaseView::Installing => 1,
        PhaseView::Verifying => 2,
        _ => 3,
    }
}

/// What holds between any two events: the results are those of the first steps, in order,
/// and none of them is a failure; the steps to skip were skipped and the others passed;
/// and while a capture runs its session is at hand.
pub open spec fn well_formed(p: PipelineView) -> bool {
    &&& p.steps.len() == results_in(p.phase)
    &&& forall|i: int|
        0 <= i < p.steps.len() ==> (#[trigger] p.steps[i]).name == steps::step_names()[i]
    &&& p.steps.len() > 0 ==> if p.config.skip_capture {
        p.steps[0] == steps::skipped(START_STEP@)
    } else {
        p.steps[0].status is Pass && (p.phase is Installing || p.phase is Verifying
            || p.phase is Waiting ==> p.session is Some)
    }
    &&& p.steps.len() > 1 ==> p.steps[1].status is Pass
    &&& p.steps.len() > 2 ==> if p.config.skip_verify {
        p.steps[2] == steps::skipped(VERIFY_STEP@)
    } else {
        p.steps[2].status is Pass
    }
    &&& p.phase is Verifying ==> !p.config.skip_verify
    &&& !(p.phase is Idle || p.phase is Installing || p.phase is Verifying)
        ==> !p.config.skip_capture
}

/// A new pipeline is well-formed.
pub proof fn law_fresh_pipeline_is_well_formed(
    config: ConfigView,
    scripts_dir: Seq<char>,
    driver: Seq<char>,
)
    ensures
        well_formed(pipeline::fresh(config, scripts_dir, driver)),
{
}

/// Every event, expected or not, leaves the pipeline well-formed, and leaves alone what it
/// was made with.
#[verifier::rlimit(30)]
pub proof fn law_events_keep_the_pipeline_well_formed(
    p: PipelineView,
    event: EventView,
    now: nat,
    timestamp: Seq<char>,
)
    requires
        well_formed(p),
    ensures
        ({
            let next = pipeline::run_step(p, event, now, timestamp).0;
            &&& well_formed(next)
            &&& next.config == p.config
            &&& next.scripts_dir == p.scripts_dir
            &&& next.driver_name == p.driver_name
        }),
{
}

/// An event that answers nothing changes nothing.
pub proof fn law_unexpected_events_change_nothing(
    p: PipelineView,
    event: EventView,
    now: nat,
    timestamp: Seq<char>,
)
    requires
        pipeline::run_step(p, event, now, timestamp).1 is Unexpected,
    ensures
        pipeline::run_step(p, event, now, timestamp).0 == p,
{
}

/// The event that answers `action`, where `o` and `found` are what scripts and files give.
pub open spec fn reply(action: ActionView, o: Outcome, found: FoundFiles) -> EventView {
    match action {
        ActionView::Run(_) => EventView::Script(o),
        ActionView::Wait(_) => EventView::Waited,
        ActionView::Find(_) => EventView::Found(found),
        _ => EventView::Begin,
    }
}

/// Whoever does what the pipeline asks for and reports back is always understood: no reply
/// to an action is unexpected, and after a report another run can begin.
pub proof fn law_replies_are_expected(
    p: PipelineView,
    event: EventView,
    now: nat,
    timestamp: Seq<char>,
    o: Outcome,
    found: FoundFiles,
    later: nat,
)
    requires
        !(pipeline::run_step(p, event, now, timestamp).1 is Unexpected),
    ensures
        ({
            let (next, action) = pipeline::run_step(p, event, now, timestamp);
            !(pipeline::run_step(next, reply(action, o, found), later, timestamp).1 is Unexpected)
        }),
{
}

// ---------------------------------------------------------------------------
// What every report holds
// ---------------------------------------------------------------------------

/// The steps of a report are the four steps in order; a failure comes after steps that did
/// not fail, and the steps after it are given up for that failure.
pub open spec fn stops_at_first_failure(all: Seq<StepView>) -> bool {
    &&& all.len() == 4
    &&& forall|i: int| 0 <= i < 4 ==> (#[trigger] all[i]).name == steps::step_names()[i]
    &&& forall|i: int, j: int|
        0 <= i < j < 4 && (#[trigger] all[i]).status is Fail ==> (#[trigger] all[j])
            == steps::given_up(
            steps::step_names()[j],
            "skipped due to prior failure: "@ + all[i].status->Fail_0,
        )
}

/// The results of a run that ended: only the last may be a failure, and without one there
/// are four.
pub open spec fn is_ending(steps: Seq<StepView>) -> bool {
    &&& 0 < steps.len() <= 4
    &&& forall|i: int| 0 <= i < steps.len() ==> (#[trigger] steps[i]).name == steps::step_names()[i]
    &&& forall|i: int| 0 <= i < steps.len() - 1 ==> !((#[trigger] steps[i]).status is Fail)
    &&& steps.len() < 4 ==> steps.last().status is Fail
}

proof fn lemma_ending(steps: Seq<StepView>)
    requires
        is_ending(steps),
    ensures
        stops_at_first_failure(pipeline::completed_steps(steps)),
{
    let all = pipeline::completed_steps(steps);
    assert forall|i: int| 0 <= i < steps.len() implies #[trigger] all[i] == steps[i] by {}
    assert forall|i: int| 0 <= i < 4 implies (#[trigger] all[i]).name == steps::step_names()[i] by {
        if i < steps.len() {
            assert(all[i] == steps[i]);
        }
    }
}

/// The run of a well-formed pipeline ends with the report of results of which only the
/// last may be a failure.
#[verifier::rlimit(30)]
proof fn lemma_report_of_ending(
    p: PipelineView,
    event: EventView,
    now: nat,
    timestamp: Seq<char>,
) -> (steps: Seq<StepView>)
    requires
        well_formed(p),
        pipeline::run_step(p, event, now, timestamp).1 is Done,
    ensures
        is_ending(steps),
        pipeline::run_step(p, event, now, timestamp).1->Done_0 == pipeline::report_of(
            p.config,
            p.driver_name,
            steps,
            duration::since(now, p.started),
        ),
        p.config.skip_capture ==> steps[0].status is Skipped && (steps.len() == 4
            ==> steps[3].status is Skipped),
        p.config.skip_verify && steps.len() > 2 ==> steps[2].status is Skipped,
        steps.len() > 1 ==> !(steps[1].status is Skipped),
{
    let elapsed = duration::since(now, p.step_started);
    match (p.phase, event) {
        (PhaseView::Starting(_), EventView::Script(o)) => p.steps.push(
            steps::start_result(capture::completed(o), elapsed),
        ),
        (PhaseView::Installing, EventView::Script(o)) => {
            let installed = p.steps.push(steps::install_result(o, elapsed));
            if ps_runner::succeeded(o) {
                installed.push(steps::skipped(VERIFY_STEP@)).push(steps::skipped(COLLECT_STEP@))
            } else {
                installed
            }
        },
        (PhaseView::Verifying, EventView::Script(o)) => {
            let verified = p.steps.push(steps::verify_result(o, elapsed));
            if ps_runner::succeeded(o) {
                verified.push(steps::skipped(COLLECT_STEP@))
            } else {
                verified
            }
        },
        (PhaseView::Stopping(_), EventView::Script(o)) => p.steps.push(
            steps::collect_result(Some(Err(capture::completed(o)->0)), elapsed),
        ),
        (PhaseView::Extracting(_), EventView::Script(o)) => p.steps.push(
            steps::collect_result(Some(Err(capture::completed(o)->0)), elapsed),
        ),
        (PhaseView::Finding(s), EventView::Found(found)) => p.steps.push(
            steps::collect_result(Some(Ok(capture::found_files(s, found))), elapsed),
        ),
        _ => p.steps,
    }
}

/// Every report tells of the four steps in order; a run stops at its first failure, and
/// the steps after it are skipped with that failure as the reason.
pub proof fn law_report_stops_at_first_failure(
    p: PipelineView,
    event: EventView,
    now: nat,
    timestamp: Seq<char>,
)
    requires
        well_formed(p),
        pipeline::run_step(p, event, now, timestamp).1 is Done,
    ensures
        stops_at_first_failure(pipeline::run_step(p, event, now, timestamp).1->Done_0.steps),
{
    let steps = lemma_report_of_ending(p, event, now, timestamp);
    lemma_ending(steps);
}

/// The success flag of a report is set exactly when no step failed; VM and driver are those
/// of the pipeline.
pub proof fn law_report_tells_of_its_pipeline(
    p: PipelineView,
    event: EventView,
    now: nat,
    timestamp: Seq<char>,
)
    requires
        well_formed(p),
        pipeline::run_step(p, event, now, timestamp).1 is Done,
    ensures
        ({
            let r = pipeline::run_step(p, event, now, timestamp).1->Done_0;
            &&& r.success <==> report::all_passed(r.steps)
            &&& r.success <==> report::exit_code_of(r.steps) == 0
            &&& r.vm_name == p.config.vm_name
            &&& r.driver == steps::driver_of(p.driver_name, r.steps)
            &&& r.duration == duration::since(now, p.started)
        }),
{
    let steps = lemma_report_of_ending(p, event, now, timestamp);
}

/// The JSON document of a report tells in its first member whether no step failed, and lists
/// the four steps.
#[verifier::rlimit(30)]
pub proof fn law_document_tells_the_verdict(
    p: PipelineView,
    event: EventView,
    now: nat,
    timestamp: Seq<char>,
)
    requires
        well_formed(p),
        pipeline::run_step(p, event, now, timestamp).1 is Done,
    ensures
        ({
            let r = pipeline::run_step(p, event, now, timestamp).1->Done_0;
            let members = report::report_document(r)->Object_0;
            &&& members[0] == ("success"@, JsonView::Bool(report::all_passed(r.steps)))
            &&& members[3].0 == "steps"@
            &&& members[3].1 matches JsonView::List(documents) && documents.len() == 4
        }),
{
    law_report_stops_at_first_failure(p, event, now, timestamp);
    law_report_tells_of_its_pipeline(p, event, now, timestamp);
}

/// Skipping the capture skips both the step that starts it and the step that stops it;
/// skipping the verification skips that step; and the install step is skipped only when
/// starting the capture failed.
pub proof fn law_skip_flags_skip_their_steps(
    p: PipelineView,
    event: EventView,
    now: nat,
    timestamp: Seq<char>,
)
    requires
        well_formed(p),
        pipeline::run_step(p, event, now, timestamp).1 is Done,
    ensures
        ({
            let all = pipeline::run_step(p, event, now, timestamp).1->Done_0.steps;
            &&& p.config.skip_capture ==> all[0].status is Skipped && all[3].status is Skipped
            &&& p.config.skip_verify ==> all[2].status is Skipped
            &&& all[1].status is Skipped ==> all[0].status is Fail
        }),
{
    let steps = lemma_report_of_ending(p, event, now, timestamp);
    let all = pipeline::completed_steps(steps);
    assert forall|i: int| 0 <= i < steps.len() implies #[trigger] all[i] == steps[i] by {}
    assert(all[0] == steps[0]);
}

/// The first failure decides the exit code: 2 where it lies in the environment, else 1.
pub proof fn law_first_failure_decides_the_exit_code(all: Seq<StepView>, i: int)
    requires
        stops_at_first_failure(all),
        0 <= i < 4,
        all[i].status is Fail,
    ensures
        report::exit_code_of(all) == (if all[i].is_infra_failure {
            2i32
        } else {
            1i32
        }),
{
    assert(!report::all_passed(all));
    assert forall|j: int| 0 <= j < 4 && (#[trigger] all[j]).status is Fail implies j == i by {
        if j < i {
            assert(all[i] == steps::given_up(
                steps::step_names()[i],
                "skipped due to prior failure: "@ + all[j].status->Fail_0,
            ));
        } else if i < j {
            assert(all[j] == steps::given_up(
                steps::step_names()[j],
                "skipped due to prior failure: "@ + all[i].status->Fail_0,
            ));
        }
    }
}

/// A script that cannot be run to its end is a failure of the environment in every step;
/// so is every failure of a capture.
pub proof fn law_runner_errors_lie_in_the_environment(e: PsRunnerErrorView, duration: nat)
    ensures
        ({
            let install = steps::install_result(Err(e), duration);
            let verify = steps::verify_result(Err(e), duration);
            let start = steps::start_result(Some(e), duration);
            let collect = steps::collect_result(Some(Err(e)), duration);
            &&& install.status is Fail && install.is_infra_failure
            &&& verify.status is Fail && verify.is_infra_failure
            &&& start.status is Fail && start.is_infra_failure
            &&& collect.status is Fail && collect.is_infra_failure
        }),
{
}

/// A session is at hand from the moment its start script succeeds until it is stopped, and
/// it is the one that is stopped: no other event touches it.
pub proof fn law_session_lives_from_start_to_stop(
    p: PipelineView,
    event: EventView,
    now: nat,
    timestamp: Seq<char>,
)
    ensures
        ({
            let (next, action) = pipeline::run_step(p, event, now, timestamp);
            match (p.phase, event) {
                (PhaseView::Starting(s), EventView::Script(o)) => next.session == (
                if capture::completed(o) is None {
                    Some(s)
                } else {
                    p.session
                }),
                (PhaseView::Waiting, EventView::Waited) => next.session is None && (p.session
                    matches Some(s) ==> action == ActionView::Run(capture::stop_job(s))),
                _ => next.session == p.session,
            }
        }),
{
}

// ---------------------------------------------------------------------------
// Whole runs
// ---------------------------------------------------------------------------

/// What the world answers in a run: what comes of each script, and which copies are there
/// at the end.
pub struct Answers {
    pub start: Outcome,
    pub install: Outcome,
    pub verify: Outcome,
    pub stop: Outcome,
    pub extract: Outcome,
    pub found: FoundFiles,
}

/// The answer to what the pipeline waits for.
pub open spec fn answer(phase: PhaseView, a: Answers) -> EventView {
    match phase {
        PhaseView::Idle => EventView::Begin,
        PhaseView::Starting(_) => EventView::Script(a.start),
        PhaseView::Installing => EventView::Script(a.install),
        PhaseView::Verifying => EventView::Script(a.verify),
        PhaseView::Waiting => EventView::Waited,
        PhaseView::Stopping(_) => EventView::Script(a.stop),
        PhaseView::Extracting(_) => EventView::Script(a.extract),
        PhaseView::Finding(_) => EventView::Found(a.found),
    }
}

/// The report of the run that goes on from `p` with the answers `a`, `None` when `events`
/// events do not bring it to its end. The event number `n` comes at `clock(n)`.
pub open spec fn play(
    p: PipelineView,
    a: Answers,
    clock: spec_fn(nat) -> nat,
    timestamp: Seq<char>,
    n: nat,
    events: nat,
) -> Option<ReportView>
    decreases events,
{
    if events == 0 {
        None
    } else {
        let (next, action) = pipeline::run_step(p, answer(p.phase, a), clock(n), timestamp);
        match action {
            ActionView::Done(r) => Some(r),
            _ => play(next, a, clock, timestamp, n + 1, (events - 1) as nat),
        }
    }
}

/// A result without the time that its step took.
pub open spec fn timeless(step: StepView) -> StepView {
    StepView { duration: 0, ..step }
}

/// The results without the times that their steps took.
pub open spec fn timeless_steps(steps: Seq<StepView>) -> Seq<StepView> {
    steps.map_values(|s: StepView| timeless(s))
}

/// The result of the first step.
pub open spec fn first_result(config: ConfigView, a: Answers) -> StepView {
    if config.skip_capture {
        steps::skipped(START_STEP@)
    } else {
        steps::start_result(capture::completed(a.start), 0)
    }
}

/// The result of the third step.
pub open spec fn third_result(config: ConfigView, a: Answers) -> StepView {
    if config.skip_verify {
        steps::skipped(VERIFY_STEP@)
    } else {
        steps::verify_result(a.verify, 0)
    }
}

/// The result of the fourth step.
pub open spec fn fourth_result(config: ConfigView, a: Answers, timestamp: Seq<char>) -> StepView {
    if config.skip_capture {
        steps::skipped(COLLECT_STEP@)
    } else {
        let session = capture::session_of(config.vm_name, config.output_dir, timestamp);
        steps::collect_result(Some(capture::captured(session, a.stop, a.extract, a.found)), 0)
    }
}

/// The results of the steps one after the other, up to the first failure.
pub open spec fn results_of(config: ConfigView, a: Answers, timestamp: Seq<char>) -> Seq<StepView> {
    let one = seq![first_result(config, a)];
    let two = one.push(steps::install_result(a.install, 0));
    let three = two.push(third_result(config, a));
    if one.last().status is Fail {
        one
    } else if two.last().status is Fail {
        two
    } else if three.last().status is Fail {
        three
    } else {
        three.push(fourth_result(config, a, timestamp))
    }
}

/// Whether the run that goes on from `p` ends with a report of `results`, but for the times
/// that the steps took.
spec fn reports(
    p: PipelineView,
    a: Answers,
    clock: spec_fn(nat) -> nat,
    timestamp: Seq<char>,
    n: nat,
    events: nat,
    results: Seq<StepView>,
) -> bool {
    play(p, a, clock, timestamp, n, events) matches Some(r) && timeless_steps(r.steps)
        == pipeline::completed_steps(results)
}

/// Giving up the other steps takes no time.
proof fn lemma_completed_timeless(steps: Seq<StepView>)
    requires
        0 < steps.len() <= 4,
    ensures
        timeless_steps(pipeline::completed_steps(steps)) == pipeline::completed_steps(
            timeless_steps(steps),
        ),
{
    assert(timeless_steps(steps).last().status == steps.last().status);
    assert(timeless_steps(pipeline::completed_steps(steps)) =~= pipeline::completed_steps(
        timeless_steps(steps),
    ));
}

proof fn lemma_push_timeless(steps: Seq<StepView>, step: StepView)
    ensures
        timeless_steps(steps.push(step)) == timeless_steps(steps).push(timeless(step)),
{
    assert(timeless_steps(steps.push(step)) =~= timeless_steps(steps).push(timeless(step)));
}

/// The time that the last step took is all that its result has from the clock.
proof fn lemma_collect_timeless(r: Result<CaptureResultView, PsRunnerErrorView>, duration: nat)
    ensures
        timeless(steps::collect_result(Some(r), duration)) == steps::collect_result(Some(r), 0),
{
}

/// The end of a run whose first three steps are over.
#[verifier::rlimit(30)]
proof fn lemma_run_from_waiting(
    p: PipelineView,
    a: Answers,
    clock: spec_fn(nat) -> nat,
    timestamp: Seq<char>,
    n: nat,
    events: nat,
)
    requires
        p.phase is Waiting,
        !p.config.skip_capture,
        p.session == Some(
            capture::session_of(p.config.vm_name, p.config.output_dir, timestamp),
        ),
        p.steps.len() == 3,
        events >= 4,
    ensures
        reports(
            p,
            a,
            clock,
            timestamp,
            n,
            events,
            timeless_steps(p.steps).push(fourth_result(p.config, a, timestamp)),
        ),
{
    reveal_with_fuel(play, 5);
    let session = capture::session_of(p.config.vm_name, p.config.output_dir, timestamp);
    let captured = capture::captured(session, a.stop, a.extract, a.found);
    let end = if capture::completed(a.stop) is Some {
        n + 1
    } else if capture::completed(a.extract) is Some {
        n + 2
    } else {
        n + 3
    };
    let duration = duration::since(clock(end), clock(n));
    let last = steps::collect_result(Some(captured), duration);
    lemma_collect_timeless(captured, duration);
    lemma_push_timeless(p.steps, last);
}

/// The end of a run that waits for its verification.
proof fn lemma_run_from_verifying(
    p: PipelineView,
    a: Answers,
    clock: spec_fn(nat) -> nat,
    timestamp: Seq<char>,
    n: nat,
    events: nat,
)
    requires
        p.phase is Verifying,
        !p.config.skip_verify,
        p.config.skip_capture || p.session == Some(
            capture::session_of(p.config.vm_name, p.config.output_dir, timestamp),
        ),
        p.steps.len() == 2,
        events >= 5,
    ensures
        reports(
            p,
            a,
            clock,
            timestamp,
            n,
            events,
            ({
                let three = timeless_steps(p.steps).push(third_result(p.config, a));
                if three.last().status is Fail {
                    three
                } else {
                    three.push(fourth_result(p.config, a, timestamp))
                }
            }),
        ),
{
    let step = steps::verify_result(a.verify, duration::since(clock(n), p.step_started));
    let (next, action) = pipeline::run_step(p, EventView::Script(a.verify), clock(n), timestamp);
    assert(timeless(step) == third_result(p.config, a));
    let three = p.steps.push(step);
    lemma_push_timeless(p.steps, step);
    lemma_completed_timeless(three);
    if ps_runner::succeeded(a.verify) {
        if p.config.skip_capture {
            lemma_push_timeless(three, steps::skipped(COLLECT_STEP@));
        } else {
            lemma_run_from_waiting(next, a, clock, timestamp, n + 1, (events - 1) as nat);
        }
    }
}

/// The end of a run that waits for its installation.
proof fn lemma_run_from_installing(
    p: PipelineView,
    a: Answers,
    clock: spec_fn(nat) -> nat,
    timestamp: Seq<char>,
    n: nat,
    events: nat,
)
    requires
        p.phase is Installing,
        p.config.skip_capture || p.session == Some(
            capture::session_of(p.config.vm_name, p.config.output_dir, timestamp),
        ),
        p.steps.len() == 1,
        !(p.steps[0].status is Fail),
        timeless(p.steps[0]) == first_result(p.config, a),
        events >= 6,
    ensures
        reports(p, a, clock, timestamp, n, events, results_of(p.config, a, timestamp)),
{
    let step = steps::install_result(a.install, duration::since(clock(n), p.step_started));
    let (next, action) = pipeline::run_step(p, EventView::Script(a.install), clock(n), timestamp);
    assert(timeless(step) == steps::install_result(a.install, 0));
    assert(timeless_steps(p.steps) =~= seq![first_result(p.config, a)]);
    let two = p.steps.push(step);
    lemma_push_timeless(p.steps, step);
    lemma_completed_timeless(two);
    if ps_runner::succeeded(a.install) {
        if p.config.skip_verify {
            let skipped = steps::skipped(VERIFY_STEP@);
            lemma_push_timeless(two, skipped);
            if p.config.skip_capture {
                lemma_push_timeless(two.push(skipped), steps::skipped(COLLECT_STEP@));
            } else {
                lemma_run_from_waiting(next, a, clock, timestamp, n + 1, (events - 1) as nat);
            }
        } else {
            lemma_run_from_verifying(next, a, clock, timestamp, n + 1, (events - 1) as nat);
        }
    }
}

/// A run comes to its end after at most eight events, and its report holds the results of
/// the steps one after the other up to the first failure, with the others given up: what
/// the scripts answer decides, however long they take.
pub proof fn law_run_reports_its_answers(
    p: PipelineView,
    a: Answers,
    clock: spec_fn(nat) -> nat,
    timestamp: Seq<char>,
)
    requires
        well_formed(p),
        p.phase is Idle,
    ensures
        play(p, a, clock, timestamp, 0, 8) matches Some(r) && timeless_steps(r.steps)
            == pipeline::completed_steps(results_of(p.config, a, timestamp)),
{
    let (begun, _) = pipeline::run_step(p, EventView::Begin, clock(0), timestamp);
    if p.config.skip_capture {
        lemma_run_from_installing(begun, a, clock, timestamp, 1, 7);
    } else {
        let step = steps::start_result(
            capture::completed(a.start),
            duration::since(clock(1), begun.step_started),
        );
        let (next, _) = pipeline::run_step(begun, EventView::Script(a.start), clock(1), timestamp);
        assert(timeless(step) == first_result(p.config, a));
        lemma_push_timeless(begun.steps, step);
        lemma_completed_timeless(begun.steps.push(step));
        if capture::completed(a.start) is None {
            lemma_run_from_installing(next, a, clock, timestamp, 2, 6);
        } else {
            assert(timeless_steps(begun.steps.push(step)) =~= seq![first_result(p.config, a)]);
        }
        assert(play(begun, a, clock, timestamp, 1, 7) is Some);
    }
}

// ---------------------------------------------------------------------------
// What the pipeline asks for
// ---------------------------------------------------------------------------

/// Whenever the pipeline asks for a wait, it is for the capture duration that was configured.
pub proof fn law_capture_runs_for_the_configured_duration(
    p: PipelineView,
    event: EventView,
    now: nat,
    timestamp: Seq<char>,
)
    ensures
        pipeline::run_step(p, event, now, timestamp).1 matches ActionView::Wait(secs) ==> secs
            == p.config.capture_duration,
{
}

/// The install and the verify script are pointed at the VM and the package of the run, get its
/// credential, and have two minutes and one minute.
pub proof fn law_package_scripts_get_the_configuration(
    p: PipelineView,
    event: EventView,
    now: nat,
    timestamp: Seq<char>,
)
    ensures
        ({
            let (next, action) = pipeline::run_step(p, event, now, timestamp);
            next.phase is Installing || next.phase is Verifying ==> (action matches ActionView::Run(
                job,
            ) ==> {
                &&& job.name == (if next.phase is Installing {
                    "Install-DriverOnVM.ps1"@
                } else {
                    "Verify-DriverOnVM.ps1"@
                })
                &&& job.timeout == (if next.phase is Installing {
                    120_000_000_000nat
                } else {
                    60_000_000_000nat
                })
                &&& job.args == seq![
                    "-VMName"@,
                    p.config.vm_name,
                    "-DriverPath"@,
                    p.config.driver_package,
                ]
                &&& job.credential == p.config.credential
                &&& job.content is None
                &&& !job.elevated
            })
        }),
{
}

/// A run begins with its own capture session on the configured VM, unless the capture is
/// skipped; then it begins with the installation.
pub proof fn law_run_begins_with_the_capture(p: PipelineView, now: nat, timestamp: Seq<char>)
    requires
        p.phase is Idle,
    ensures
        ({
            let (next, action) = pipeline::run_step(p, EventView::Begin, now, timestamp);
            &&& next.started == now
            &&& next.step_started == now
            &&& p.config.skip_capture ==> next.phase is Installing && next.steps.len() == 1
                && next.steps[0].status is Skipped
            &&& !p.config.skip_capture ==> {
                &&& next.steps.len() == 0
                &&& next.phase matches PhaseView::Starting(s) && s.vm_name == p.config.vm_name
                    && s.output_dir == p.config.output_dir
                &&& action matches ActionView::Run(job) && job.name == "_start_capture.ps1"@
            }
        }),
{
}

/// A script of a run that ends with exit code zero takes the run one step further: from the
/// start of the capture to the installation, from there to the verification, and from there to
/// the capture period, with what is to be skipped left out. Anything else ends the run.
pub proof fn law_success_takes_the_run_further(
    p: PipelineView,
    o: Outcome,
    now: nat,
    timestamp: Seq<char>,
)
    ensures
        ({
            let (next, action) = pipeline::run_step(p, EventView::Script(o), now, timestamp);
            let success = o matches Ok(r) && r.exit_code == 0;
            let ends = action is Done;
            &&& p.phase is Starting ==> if success {
                next.phase is Installing
            } else {
                ends
            }
            &&& p.phase is Installing ==> if !success {
                ends
            } else if !p.config.skip_verify {
                next.phase is Verifying
            } else if !p.config.skip_capture {
                next.phase is Waiting
            } else {
                ends
            }
            &&& p.phase is Verifying ==> if success && !p.config.skip_capture {
                next.phase is Waiting && action is Wait
            } else {
                ends
            }
            &&& p.phase is Stopping ==> if success {
                next.phase is Extracting
            } else {
                ends
            }
            &&& p.phase is Extracting ==> if success {
                next.phase is Finding && action is Find
            } else {
                ends
            }
            &&& ends ==> next.phase is Idle && next.steps.len() == 0
        }),
{
}

/// After the capture period the session at hand is stopped; then its files are copied and looked
/// for. All three are about the same session.
pub proof fn law_session_is_stopped_after_the_period(
    p: PipelineView,
    session: capture::SessionView,
    o: Outcome,
    found: FoundFiles,
    now: nat,
    timestamp: Seq<char>,
)
    requires
        o matches Ok(r) && r.exit_code == 0,
    ensures
        p.phase is Waiting && p.session == Some(session) ==> {
            let (next, action) = pipeline::run_step(p, EventView::Waited, now, timestamp);
            &&& next.phase == PhaseView::Stopping(session)
            &&& next.session is None
            &&& next.step_started == now
            &&& action matches ActionView::Run(job) && job.name == "_stop_capture.ps1"@
        },
        p.phase == PhaseView::Stopping(session) ==> {
            let (next, action) = pipeline::run_step(p, EventView::Script(o), now, timestamp);
            &&& next.phase == PhaseView::Extracting(session)
            &&& next.step_started == p.step_started
            &&& action matches ActionView::Run(job) && job.name == "_extract_capture.ps1"@
        },
        p.phase == PhaseView::Extracting(session) ==> {
            let (next, action) = pipeline::run_step(p, EventView::Script(o), now, timestamp);
            &&& next.phase == PhaseView::Finding(session)
            &&& next.step_started == p.step_started
            &&& action == ActionView::Find(capture::host_files(session))
        },
        p.phase == PhaseView::Finding(session) ==> pipeline::run_step(
            p,
            EventView::Found(found),
            now,
            timestamp,
        ).1 is Done,
{
}

/// The result of a step tells the time from the moment at which the pipeline asked for its first
/// script to the moment at which its last answer came.
pub proof fn law_steps_are_timed(
    p: PipelineView,
    o: Outcome,
    now: nat,
    timestamp: Seq<char>,
)
    requires
        well_formed(p),
        p.step_started <= now,
        p.phase is Starting || p.phase is Installing || p.phase is Verifying,
    ensures
        ({
            let (next, action) = pipeline::run_step(p, EventView::Script(o), now, timestamp);
            let steps = if action is Done {
                action->Done_0.steps
            } else {
                next.steps
            };
            let k = p.steps.len() as int;
            &&& steps.len() > k
            &&& steps[k].duration == now - p.step_started
            &&& steps.take(k) == p.steps
            &&& next.started == p.started
            &&& next.phase is Installing || next.phase is Verifying ==> next.step_started == now
        }),
{
    let (next, action) = pipeline::run_step(p, EventView::Script(o), now, timestamp);
    let steps = if action is Done {
        action->Done_0.steps
    } else {
        next.steps
    };
    assert(steps.take(p.steps.len() as int) =~= p.steps);
}

/// A report tells the time from the beginning of its run to its end.
pub proof fn law_report_tells_the_time_of_the_run(
    p: PipelineView,
    event: EventView,
    now: nat,
    timestamp: Seq<char>,
)
    requires
        p.started <= now,
        !(p.phase is Idle),
    ensures
        pipeline::run_step(p, event, now, timestamp).0.started == p.started,
        pipeline::run_step(p, event, now, timestamp).1 matches ActionView::Done(r) ==> r.duration
            == now - p.started && r.vm_name == p.config.vm_name,
{
}

// ---------------------------------------------------------------------------
// Exit codes of runs
// ---------------------------------------------------------------------------

/// A verification that ends with any exit code other than zero ends the run with exit code 1,
/// and the report tells the exit code and the output of the script.
pub proof fn law_failed_verification_exits_with_one(
    p: PipelineView,
    r: ps_runner::ScriptResultView,
    now: nat,
    timestamp: Seq<char>,
)
    requires
        well_formed(p),
        p.phase is Verifying,
        r.exit_code != 0,
    ensures
        pipeline::run_step(p, EventView::Script(Ok(r)), now, timestamp).1 matches ActionView::Done(
            report,
        ) && {
            &&& report::exit_code_of(report.steps) == 1
            &&& !report.success
            &&& report.steps[2].status is Fail
            &&& !report.steps[2].is_infra_failure
            &&& report.steps[2].exit_code == Some(r.exit_code)
        },
{
    let report = pipeline::run_step(p, EventView::Script(Ok(r)), now, timestamp).1->Done_0;
    let step = steps::verify_result(Ok(r), duration::since(now, p.step_started));
    steps::law_verification_judges_the_driver(r, duration::since(now, p.step_started));
    let steps = p.steps.push(step);
    assert(steps[2] == step);
    lemma_completed_exit_code(steps);
    report::law_exit_code_follows_the_steps(p.steps);
    report::law_next_step_moves_the_exit_code(p.steps, step);
    report::law_exit_code_follows_the_steps(report.steps);
    assert(report.steps[2] == step);
}

/// Giving up steps does not change the exit code.
proof fn lemma_completed_exit_code(steps: Seq<StepView>)
    ensures
        report::exit_code_of(pipeline::completed_steps(steps)) == report::exit_code_of(steps),
{
    let all = pipeline::completed_steps(steps);
    report::law_exit_code_follows_the_steps(steps);
    report::law_exit_code_follows_the_steps(all);
    assert forall|i: int| 0 <= i < steps.len() implies all[i] == #[trigger] steps[i] by {}
    assert forall|i: int| steps.len() <= i < all.len() implies !((#[trigger] all[i]).status is Fail) by {}
    assert forall|i: int| 0 <= i < all.len() && (#[trigger] all[i]).status is Fail implies i
        < steps.len() && steps[i] == all[i] by {}
}

/// The times of the steps do not change the exit code.
proof fn lemma_timeless_exit_code(steps: Seq<StepView>)
    ensures
        report::exit_code_of(timeless_steps(steps)) == report::exit_code_of(steps),
{
    let all = timeless_steps(steps);
    report::law_exit_code_follows_the_steps(steps);
    report::law_exit_code_follows_the_steps(all);
    assert forall|i: int| 0 <= i < steps.len() implies all[i].status == (
    #[trigger] steps[i]).status && all[i].is_infra_failure == steps[i].is_infra_failure by {}
    assert forall|i: int| 0 <= i < steps.len() implies (#[trigger] all[i]).status
        == steps[i].status && all[i].is_infra_failure == steps[i].is_infra_failure by {}
}

/// The exit code of a run is decided by the first of its scripts that did not end with exit code
/// zero, and is zero when there is none. A capture that cannot be started, stopped or copied
/// lies in the environment, and so does a script that did not run to its end; of the exit codes
/// of the installation 2, 3 and 6 do, and of those of the verification none.
pub proof fn law_first_bad_script_decides_the_exit_code(
    p: PipelineView,
    a: Answers,
    clock: spec_fn(nat) -> nat,
    timestamp: Seq<char>,
)
    requires
        well_formed(p),
        p.phase is Idle,
    ensures
        play(p, a, clock, timestamp, 0, 8) matches Some(r) && {
            let good = |o: Outcome| o matches Ok(result) && result.exit_code == 0;
            let code = report::exit_code_of(r.steps);
            let capture = !p.config.skip_capture;
            &&& if capture && !good(a.start) {
                code == 2
            } else if !good(a.install) {
                &&& a.install is Err ==> code == 2
                &&& a.install matches Ok(result) ==> code == (if result.exit_code == 2
                    || result.exit_code == 3 || result.exit_code == 6 {
                    2i32
                } else {
                    1i32
                })
            } else if !p.config.skip_verify && !good(a.verify) {
                &&& a.verify is Err ==> code == 2
                &&& a.verify is Ok ==> code == 1
            } else if capture && !(good(a.stop) && good(a.extract)) {
                code == 2
            } else {
                code == 0
            }
        },
{
    law_run_reports_its_answers(p, a, clock, timestamp);
    let r = play(p, a, clock, timestamp, 0, 8)->0;
    lemma_timeless_exit_code(r.steps);
    let results = results_of(p.config, a, timestamp);
    lemma_completed_exit_code(results);
    let none = Seq::<StepView>::empty();
    report::law_exit_code_follows_the_steps(none);
    let first = first_result(p.config, a);
    let one = seq![first];
    assert(one =~= none.push(first));
    report::law_next_step_moves_the_exit_code(none, first);
    let second = steps::install_result(a.install, 0);
    let two = one.push(second);
    report::law_next_step_moves_the_exit_code(one, second);
    let third = third_result(p.config, a);
    let three = two.push(third);
    report::law_next_step_moves_the_exit_code(two, third);
    let fourth = fourth_result(p.config, a, timestamp);
    report::law_next_step_moves_the_exit_code(three, fourth);
}

// ---------------------------------------------------------------------------
// The actions of a run
// ---------------------------------------------------------------------------

/// What the run that goes on from `p` asks for, one after the other, up to its report or to the
/// end of `events` events.
pub open spec fn actions(
    p: PipelineView,
    a: Answers,
    clock: spec_fn(nat) -> nat,
    timestamp: Seq<char>,
    n: nat,
    events: nat,
) -> Seq<ActionView>
    decreases events,
{
    if events == 0 {
        Seq::empty()
    } else {
        let (next, action) = pipeline::run_step(p, answer(p.phase, a), clock(n), timestamp);
        if action is Done {
            seq![action]
        } else {
            seq![action] + actions(next, a, clock, timestamp, n + 1, (events - 1) as nat)
        }
    }
}

/// Once the capture period is over there is no other.
proof fn lemma_no_wait_after_the_period(
    p: PipelineView,
    a: Answers,
    clock: spec_fn(nat) -> nat,
    timestamp: Seq<char>,
    n: nat,
    events: nat,
)
    requires
        p.phase is Stopping || p.phase is Extracting || p.phase is Finding,
    ensures
        forall|i: int|
            0 <= i < actions(p, a, clock, timestamp, n, events).len() ==> !((
            #[trigger] actions(p, a, clock, timestamp, n, events)[i]) is Wait),
    decreases events,
{
    if events > 0 {
        let (next, action) = pipeline::run_step(p, answer(p.phase, a), clock(n), timestamp);
        if !(action is Done) {
            let rest = actions(next, a, clock, timestamp, n + 1, (events - 1) as nat);
            lemma_no_wait_after_the_period(
                next,
                a,
                clock,
                timestamp,
                n + 1,
                (events - 1) as nat,
            );
            assert forall|i: int|
                0 <= i < actions(p, a, clock, timestamp, n, events).len() implies !((
            #[trigger] actions(p, a, clock, timestamp, n, events)[i]) is Wait) by {
                if i > 0 {
                    assert(actions(p, a, clock, timestamp, n, events)[i] == rest[i - 1]);
                }
            }
        }
    }
}

/// In a run that does not skip the capture and whose scripts succeed up to the capture period,
/// the pipeline asks for exactly one wait, for the configured duration; before it for the start
/// of the capture, the installation and, unless it is skipped, the verification, and right after
/// it for the end of the capture.
pub proof fn law_one_wait_before_the_stop(
    p: PipelineView,
    a: Answers,
    clock: spec_fn(nat) -> nat,
    timestamp: Seq<char>,
)
    requires
        well_formed(p),
        p.phase is Idle,
        !p.config.skip_capture,
        a.start matches Ok(r) && r.exit_code == 0,
        a.install matches Ok(r) && r.exit_code == 0,
        p.config.skip_verify || (a.verify matches Ok(r) && r.exit_code == 0),
    ensures
        ({
            let all = actions(p, a, clock, timestamp, 0, 8);
            let k: int = if p.config.skip_verify {
                2
            } else {
                3
            };
            &&& all.len() > k + 1
            &&& all[0] matches ActionView::Run(job) && job.name == "_start_capture.ps1"@
            &&& all[1] matches ActionView::Run(job) && job.name == "Install-DriverOnVM.ps1"@
            &&& k == 3 ==> (all[2] matches ActionView::Run(job) && job.name
                == "Verify-DriverOnVM.ps1"@)
            &&& all[k] == ActionView::Wait(p.config.capture_duration)
            &&& all[k + 1] matches ActionView::Run(job) && job.name == "_stop_capture.ps1"@
            &&& forall|i: int| 0 <= i < all.len() && (#[trigger] all[i]) is Wait ==> i == k
        }),
{
    let (p1, a0) = pipeline::run_step(p, EventView::Begin, clock(0), timestamp);
    let (p2, a1) = pipeline::run_step(p1, EventView::Script(a.start), clock(1), timestamp);
    let (p3, a2) = pipeline::run_step(p2, EventView::Script(a.install), clock(2), timestamp);
    let t1 = actions(p1, a, clock, timestamp, 1, 7);
    let t2 = actions(p2, a, clock, timestamp, 2, 6);
    let t3 = actions(p3, a, clock, timestamp, 3, 5);
    assert(actions(p, a, clock, timestamp, 0, 8) == seq![a0] + t1);
    assert(t1 == seq![a1] + t2);
    assert(t2 == seq![a2] + t3);
    if p.config.skip_verify {
        let (p4, a3) = pipeline::run_step(p3, EventView::Waited, clock(3), timestamp);
        let t4 = actions(p4, a, clock, timestamp, 4, 4);
        assert(t3 == seq![a3] + t4);
        lemma_no_wait_after_the_period(p4, a, clock, timestamp, 4, 4);
        let all = actions(p, a, clock, timestamp, 0, 8);
        assert forall|i: int| 0 <= i < all.len() && (#[trigger] all[i]) is Wait implies i == 2 by {
            if i >= 4 {
                assert(all[i] == t4[i - 4]);
            }
        }
    } else {
        let (p4, a3) = pipeline::run_step(p3, EventView::Script(a.verify), clock(3), timestamp);
        let (p5, a4) = pipeline::run_step(p4, EventView::Waited, clock(4), timestamp);
        let t4 = actions(p4, a, clock, timestamp, 4, 4);
        let t5 = actions(p5, a, clock, timestamp, 5, 3);
        assert(t3 == seq![a3] + t4);
        assert(t4 == seq![a4] + t5);
        lemma_no_wait_after_the_period(p5, a, clock, timestamp, 5, 3);
        let all = actions(p, a, clock, timestamp, 0, 8);
        assert forall|i: int| 0 <= i < all.len() && (#[trigger] all[i]) is Wait implies i == 3 by {
            if i >= 5 {
                assert(all[i] == t5[i - 5]);
            }
        }
    }
}

/// A run that skips the capture waits for nothing and touches no capture: it asks for the
/// installation, for the verification unless that is skipped, and gives its report.
pub proof fn law_run_without_capture(
    p: PipelineView,
    a: Answers,
    clock: spec_fn(nat) -> nat,
    timestamp: Seq<char>,
)
    requires
        well_formed(p),
        p.phase is Idle,
        p.config.skip_capture,
    ensures
        ({
            let all = actions(p, a, clock, timestamp, 0, 8);
            let verifies = !p.config.skip_verify && (a.install matches Ok(r) && r.exit_code == 0);
            &&& all.len() == (if verifies {
                3int
            } else {
                2
            })
            &&& all[0] matches ActionView::Run(job) && job.name == "Install-DriverOnVM.ps1"@
            &&& verifies ==> (all[1] matches ActionView::Run(job) && job.name
                == "Verify-DriverOnVM.ps1"@)
            &&& all.last() is Done
        }),
{
    reveal_with_fuel(actions, 4);
}

// ---------------------------------------------------------------------------
// New pipelines
// ---------------------------------------------------------------------------

/// A pipeline is made exactly when the package has a driver and there is a runner. It has the
/// configuration as it was given, the directory of the runner and the driver of the package,
/// and waits for its first run. What is wrong with the package is told first.
pub proof fn law_new_pipeline_takes_what_it_is_given(
    config: ConfigView,
    package: package::PackageView,
    runner: Result<Seq<char>, PsRunnerErrorView>,
)
    ensures
        ({
            let driver = package::driver_in(config.driver_package, package);
            let r = pipeline::pipeline_of(config, package, runner);
            &&& r is Ok <==> driver is Ok && runner is Ok
            &&& r matches Ok(p) ==> {
                &&& p.config == config
                &&& p.scripts_dir == runner->Ok_0
                &&& p.driver_name == driver->Ok_0
                &&& p.session is None
                &&& p.steps.len() == 0
                &&& p.phase is Idle
            }
            &&& driver matches Err(e) ==> r == Err::<PipelineView, SmoketestErrorView>(e)
            &&& driver is Ok ==> (runner matches Err(e) ==> r == Err::<
                PipelineView,
                SmoketestErrorView,
            >(
                SmoketestErrorView::Io(
                    if e is Io {
                        e->Io_0
                    } else {
                        ps_runner::message_of(e)
                    },
                ),
            ))
        }),
{
}

/// The time of the last step runs from the moment at which the pipeline asked for the end of the
/// capture to the moment at which the step ended.
pub proof fn law_last_step_is_timed(
    p: PipelineView,
    event: EventView,
    now: nat,
    timestamp: Seq<char>,
)
    requires
        well_formed(p),
        p.step_started <= now,
        p.phase is Stopping || p.phase is Extracting || p.phase is Finding,
    ensures
        pipeline::run_step(p, event, now, timestamp).1 matches ActionView::Done(r) ==> r.steps.len()
            == 4 && r.steps[3].duration == now - p.step_started && r.steps.take(3) == p.steps,
{
    if let ActionView::Done(r) = pipeline::run_step(p, event, now, timestamp).1 {
        assert(r.steps.take(3) =~= p.steps);
    }
}

} // verus!
