//! What each phase of the update does: the decisions of the update state
//! machine, as plans of filesystem and launch steps that the caller performs.
use vstd::prelude::*;
use crate::error::{UpdateError, UpdateErrorView};
use crate::release::{Release, ReleaseView};
use crate::state::{
    UpdatePhase, UpdateState, UpdateStateView, carrier_view, names_distinct, opt_carrier_view,
};

verus! {

/// One piece of outside work of a phase.
#[derive(Debug)]
pub enum Step {
    /// Delete the file at `path` (a missing file counts as deleted).
    DeleteFile { path: String },
    /// Copy the file at `from` over the file at `to`.
    CopyFile { from: String, to: String },
    /// Relaunch the binary at `app` to continue the update from `state`.
    Launch { app: String, state: UpdateState },
}

pub enum StepView {
    DeleteFile(Seq<char>),
    CopyFile(Seq<char>, Seq<char>),
    Launch(Seq<char>, UpdateStateView),
}

impl View for Step {
    type V = StepView;

    open spec fn view(&self) -> StepView {
        match self {
            Step::DeleteFile { path } => StepView::DeleteFile(path@),
            Step::CopyFile { from, to } => StepView::CopyFile(from@, to@),
            Step::Launch { app, state } => StepView::Launch(app@, state@),
        }
    }
}

/// The steps of a phase, in order, and whether a phase was processed (in which
/// case the calling process should exit once the steps are done).
#[derive(Debug)]
pub struct PhasePlan {
    pub steps: Vec<Step>,
    pub processed: bool,
}

pub struct PhasePlanView {
    pub steps: Seq<StepView>,
    pub processed: bool,
}

impl View for PhasePlan {
    type V = PhasePlanView;

    open spec fn view(&self) -> PhasePlanView {
        PhasePlanView { steps: self.steps@.map_values(|s: Step| s@), processed: self.processed }
    }
}

pub open spec fn plan_result_view(r: Result<PhasePlan, UpdateError>) -> Result<
    PhasePlanView,
    UpdateErrorView,
> {
    match r {
        Ok(p) => Ok(p@),
        Err(e) => Err(e@),
    }
}

pub open spec fn start_result_view(r: Result<UpdateState, UpdateError>) -> Result<
    UpdateStateView,
    UpdateErrorView,
> {
    match r {
        Ok(s) => Ok(s@),
        Err(e) => Err(e@),
    }
}

/// What resuming from `s` does, where the active trace context is `carrier`:
/// - no update: nothing, and no phase was processed;
/// - prepare: launch the downloaded binary to perform the replace phase;
/// - replace: delete the original application, copy the downloaded binary
///   over it, and launch it to perform the cleanup phase;
/// - cleanup: delete the downloaded binary.
///
/// A launched state keeps the paths, and carries the trace context where one
/// is active.
pub open spec fn phase_plan(s: UpdateStateView, carrier: Seq<(Seq<char>, Seq<char>)>) -> Result<
    PhasePlanView,
    UpdateErrorView,
> {
    match s.phase {
        UpdatePhase::NoUpdate => Ok(PhasePlanView { steps: seq![], processed: false }),
        UpdatePhase::Prepare => match s.temporary_application {
            None => Err(UpdateErrorView::MissingTemporaryApplication { phase: UpdatePhase::Prepare }),
            Some(temp) => Ok(
                PhasePlanView {
                    steps: seq![
                        StepView::Launch(temp, s.in_phase(UpdatePhase::Replace).carrying(carrier)),
                    ],
                    processed: true,
                },
            ),
        },
        UpdatePhase::Replace => match (s.temporary_application, s.target_application) {
            (None, _) => Err(
                UpdateErrorView::MissingTemporaryApplication { phase: UpdatePhase::Replace },
            ),
            (Some(_), None) => Err(
                UpdateErrorView::MissingTargetApplication { phase: UpdatePhase::Replace },
            ),
            (Some(temp), Some(target)) => Ok(
                PhasePlanView {
                    steps: seq![
                        StepView::DeleteFile(target),
                        StepView::CopyFile(temp, target),
                        StepView::Launch(target, s.in_phase(UpdatePhase::Cleanup).carrying(carrier)),
                    ],
                    processed: true,
                },
            ),
        },
        UpdatePhase::Cleanup => match s.temporary_application {
            None => Err(UpdateErrorView::MissingTemporaryApplication { phase: UpdatePhase::Cleanup }),
            Some(temp) => Ok(
                PhasePlanView { steps: seq![StepView::DeleteFile(temp)], processed: true },
            ),
        },
    }
}

/// The state an update to `release` starts from: the prepare phase, for the
/// application at `target` and the download at `temp`; refused when the
/// release has no asset for this platform.
pub open spec fn update_start(target: Seq<char>, temp: Seq<char>, release: ReleaseView) -> Result<
    UpdateStateView,
    UpdateErrorView,
> {
    if release.variant is None {
        Err(UpdateErrorView::NoMatchingAsset { release: release.id })
    } else {
        Ok(
            UpdateStateView {
                target_application: Some(target),
                temporary_application: Some(temp),
                trace_context: None,
                phase: UpdatePhase::Prepare,
            },
        )
    }
}

fn copy_path(s: &String) -> (r: String)
    ensures
        r@ == s@,
{
    s.clone()
}

/// Begin an update of the application at `target_application` to `release`,
/// downloading to `temporary_application`: the state the prepare phase starts
/// from, or the refusal when the release has no matching asset.
pub fn begin_update(target_application: &str, temporary_application: &str, release: &Release) -> (r:
    Result<UpdateState, UpdateError>)
    ensures
        start_result_view(r) == update_start(target_application@, temporary_application@, release@),
{
    match release.get_variant() {
        None => Err(UpdateError::NoMatchingAsset { release: release.id.clone() }),
        Some(_) => {
            let target = crate::text::string_of(crate::text::chars_of(target_application).as_slice());
            let temp = crate::text::string_of(
                crate::text::chars_of(temporary_application).as_slice(),
            );
            Ok(
                UpdateState {
                    target_application: Some(target),
                    temporary_application: Some(temp),
                    trace_context: None,
                    phase: UpdatePhase::Prepare,
                },
            )
        },
    }
}

/// An update replaces the application binary, so it is refused before the
/// download when the binary is read-only.
pub fn check_target_writable(read_only: bool) -> (r: Result<(), UpdateError>)
    ensures
        r is Ok <==> !read_only,
        r matches Err(e) ==> e@ == UpdateErrorView::ReadOnlyTarget,
{
    if read_only {
        Err(UpdateError::ReadOnlyTarget)
    } else {
        Ok(())
    }
}

/// Decide what resuming an update from `state` does (see [`phase_plan`]);
/// `carrier` is the trace context that the active propagator produced (empty
/// when there is none).
pub fn plan_phase(state: &UpdateState, carrier: Vec<(String, String)>) -> (r: Result<
    PhasePlan,
    UpdateError,
>)
    requires
        names_distinct(carrier_view(carrier@)),
    ensures
        plan_result_view(r) == phase_plan(state@, carrier_view(carrier@)),
{
    match state.phase {
        UpdatePhase::NoUpdate => {
            let plan = PhasePlan { steps: Vec::new(), processed: false };
            assert(plan@.steps =~= Seq::<StepView>::empty());
            Ok(plan)
        },
        UpdatePhase::Prepare => {
            let mut next = state.for_phase(UpdatePhase::Replace);
            next.capture_trace_context(carrier);
            match &state.temporary_application {
                None => Err(UpdateError::MissingTemporaryApplication { phase: UpdatePhase::Prepare }),
                Some(temp) => {
                    let mut steps: Vec<Step> = Vec::new();
                    steps.push(Step::Launch { app: copy_path(temp), state: next });
                    let plan = PhasePlan { steps, processed: true };
                    assert(plan@.steps =~= phase_plan(state@, carrier_view(carrier@))->Ok_0.steps);
                    Ok(plan)
                },
            }
        },
        UpdatePhase::Replace => {
            match (&state.temporary_application, &state.target_application) {
                (None, _) => Err(
                    UpdateError::MissingTemporaryApplication { phase: UpdatePhase::Replace },
                ),
                (Some(_), None) => Err(
                    UpdateError::MissingTargetApplication { phase: UpdatePhase::Replace },
                ),
                (Some(temp), Some(target)) => {
                    let mut next = state.for_phase(UpdatePhase::Cleanup);
                    next.capture_trace_context(carrier);
                    let mut steps: Vec<Step> = Vec::new();
                    steps.push(Step::DeleteFile { path: copy_path(target) });
                    steps.push(Step::CopyFile { from: copy_path(temp), to: copy_path(target) });
                    steps.push(Step::Launch { app: copy_path(target), state: next });
                    let plan = PhasePlan { steps, processed: true };
                    assert(plan@.steps =~= phase_plan(state@, carrier_view(carrier@))->Ok_0.steps);
                    Ok(plan)
                },
            }
        },
        UpdatePhase::Cleanup => {
            match &state.temporary_application {
                None => Err(UpdateError::MissingTemporaryApplication { phase: UpdatePhase::Cleanup }),
                Some(temp) => {
                    let mut steps: Vec<Step> = Vec::new();
                    steps.push(Step::DeleteFile { path: copy_path(temp) });
                    let plan = PhasePlan { steps, processed: true };
                    assert(plan@.steps =~= phase_plan(state@, carrier_view(carrier@))->Ok_0.steps);
                    Ok(plan)
                },
            }
        },
    }
}

/// The phase that follows `phase` in an update.
pub open spec fn next_phase(phase: UpdatePhase) -> UpdatePhase {
    match phase {
        UpdatePhase::Prepare => UpdatePhase::Replace,
        UpdatePhase::Replace => UpdatePhase::Cleanup,
        _ => UpdatePhase::NoUpdate,
    }
}

/// Every phase hands over to the next one: whatever a phase launches is a state
/// in the following phase with the same application paths, and a well-formed
/// state only ever launches well-formed states. Only the prepare and replace
/// phases launch anything, and only the replace phase touches the original
/// application (deleting it, then copying the download over it).
pub proof fn law_each_phase_launches_the_next(
    s: UpdateStateView,
    carrier: Seq<(Seq<char>, Seq<char>)>,
    k: int,
)
    requires
        names_distinct(carrier),
        phase_plan(s, carrier) is Ok,
        0 <= k < phase_plan(s, carrier)->Ok_0.steps.len(),
    ensures
        ({
            let plan = phase_plan(s, carrier)->Ok_0;
            &&& plan.processed == (s.phase != UpdatePhase::NoUpdate)
            &&& plan.steps[k] matches StepView::Launch(app, next) ==> {
                &&& s.phase == UpdatePhase::Prepare || s.phase == UpdatePhase::Replace
                &&& next.phase == next_phase(s.phase)
                &&& next.target_application == s.target_application
                &&& next.temporary_application == s.temporary_application
                &&& (s.well_formed() ==> next.well_formed())
                &&& k == plan.steps.len() - 1
            }
            &&& (plan.steps[k] matches StepView::DeleteFile(path) && s.target_application == Some(
                path,
            ) && s.temporary_application != Some(path)) ==> s.phase == UpdatePhase::Replace
        }),
{
}

/// An update to a release with an asset for this platform walks through all
/// three phases: prepare launches the download to replace, replace swaps the
/// download in for the application and launches it to clean up, and cleanup
/// removes the download and launches nothing.
pub proof fn law_update_walks_prepare_replace_cleanup(
    target: Seq<char>,
    temp: Seq<char>,
    release: ReleaseView,
    first: Seq<(Seq<char>, Seq<char>)>,
    second: Seq<(Seq<char>, Seq<char>)>,
    third: Seq<(Seq<char>, Seq<char>)>,
)
    requires
        release.variant is Some,
    ensures
        ({
            let s0 = update_start(target, temp, release)->Ok_0;
            let s1 = s0.in_phase(UpdatePhase::Replace).carrying(first);
            let s2 = s1.in_phase(UpdatePhase::Cleanup).carrying(second);
            &&& update_start(target, temp, release) is Ok
            &&& s0.phase == UpdatePhase::Prepare
            &&& phase_plan(s0, first) == Ok::<PhasePlanView, UpdateErrorView>(
                PhasePlanView { steps: seq![StepView::Launch(temp, s1)], processed: true },
            )
            &&& s1.phase == UpdatePhase::Replace
            &&& phase_plan(s1, second) == Ok::<PhasePlanView, UpdateErrorView>(
                PhasePlanView {
                    steps: seq![
                        StepView::DeleteFile(target),
                        StepView::CopyFile(temp, target),
                        StepView::Launch(target, s2),
                    ],
                    processed: true,
                },
            )
            &&& s2.phase == UpdatePhase::Cleanup
            &&& phase_plan(s2, third) == Ok::<PhasePlanView, UpdateErrorView>(
                PhasePlanView { steps: seq![StepView::DeleteFile(temp)], processed: true },
            )
        }),
{
}

} // verus!
