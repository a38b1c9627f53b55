//! The write side of autoscaling: a step machine that brings the workload and the
//! autoscaler object into the requested mode, one control-plane call at a time.
//!
//! The caller performs each [`Action`] against the control plane and hands the outcome back
//! as an [`Event`]. The workload is handled first, the autoscaler object second.
use vstd::prelude::*;

use crate::autoscale::{
    config_of, validate, validated, AutoscaleConfig, AutoscalerLookup, AutoscalerSpec,
    MetricTarget, Operation, UpdateCommand, UpdateRequest, UpstreamError, ValidationError,
};

verus! {

/// What the caller is to do next.
#[derive(Debug, Clone, Copy, PartialEq, Eq, Structural)]
pub enum Action {
    /// Fetch the workload.
    FetchWorkload,
    /// Set the workload's replica count and write the workload back.
    WriteWorkloadReplicas(i32),
    /// Fetch the autoscaler object.
    FetchAutoscaler,
    /// Create the autoscaler object, targeting the workload, with these fields.
    CreateAutoscaler(AutoscalerSpec),
    /// Put these fields on the fetched autoscaler object and write it back.
    ReplaceAutoscaler(AutoscalerSpec),
    /// Delete the autoscaler object.
    DeleteAutoscaler,
    /// The update is complete.
    Complete,
    /// The update stopped: this operation failed upstream.
    Abort(Operation),
}

/// The outcome of the last action.
#[derive(Debug, Clone, Copy, PartialEq, Eq, Structural)]
pub enum Event {
    /// The workload was fetched; its declared replica count, if it declares one.
    WorkloadFound(Option<i32>),
    /// The autoscaler object was fetched.
    AutoscalerFound(AutoscalerSpec),
    /// A write went through.
    Written,
    /// The object that the action concerned does not exist.
    NotFound,
    /// The call failed for another reason.
    Failed,
}

/// How far an update has come.
#[derive(Debug, Clone, Copy, PartialEq, Eq, Structural)]
pub enum UpdatePhase {
    AwaitWorkload,
    AwaitWorkloadWrite,
    AwaitAutoscaler,
    AwaitAutoscalerWrite(Operation),
    Finished,
}

/// An update in progress: the validated command and how far it has come.
#[derive(Debug, Clone, Copy, PartialEq, Eq, Structural)]
pub struct AutoscaleUpdate {
    pub command: UpdateCommand,
    pub phase: UpdatePhase,
}

/// What the control plane holds of the managed workload and its autoscaler: the workload,
/// if it exists, with its declared replica count; the autoscaler object, if it exists.
#[derive(Debug, Clone, Copy, PartialEq, Eq, Structural)]
pub struct ClusterState {
    pub workload: Option<Option<i32>>,
    pub autoscaler: Option<AutoscalerSpec>,
}

/// The autoscaler fields that an enabling command asks for: its bounds, and a CPU target
/// only where the command supplies one that is enabled. Nothing of an earlier object stays.
pub open spec fn desired_spec(
    min_replicas: i64,
    max_replicas: i64,
    cpu: Option<MetricTarget>,
) -> AutoscalerSpec {
    AutoscalerSpec {
        min_replicas: Some(min_replicas as i32),
        max_replicas: max_replicas as i32,
        target_cpu_utilization: match cpu {
            Some(t) => if t.enabled {
                Some(t.target as i32)
            } else {
                None
            },
            None => None,
        },
    }
}

/// The replica count to write on a workload that declares `declared`, if any: the manual
/// count when disabling, and when enabling only as a seed for a workload that declares none.
pub open spec fn workload_target(cmd: UpdateCommand, declared: Option<i32>) -> Option<i32> {
    match cmd {
        UpdateCommand::Disable { manual_replicas } => Some(manual_replicas as i32),
        UpdateCommand::Enable { manual_replicas, .. } => match declared {
            Some(_) => None,
            None => Some(manual_replicas as i32),
        },
    }
}

/// The next phase and action of an update of `cmd` that is in `phase` and has seen `event`.
pub open spec fn next(cmd: UpdateCommand, phase: UpdatePhase, event: Event) -> (UpdatePhase, Action) {
    match phase {
        UpdatePhase::AwaitWorkload => match event {
            Event::WorkloadFound(declared) => match workload_target(cmd, declared) {
                Some(n) => (UpdatePhase::AwaitWorkloadWrite, Action::WriteWorkloadReplicas(n)),
                None => (UpdatePhase::AwaitAutoscaler, Action::FetchAutoscaler),
            },
            Event::NotFound => (UpdatePhase::AwaitAutoscaler, Action::FetchAutoscaler),
            _ => (UpdatePhase::Finished, Action::Abort(Operation::FetchWorkload)),
        },
        UpdatePhase::AwaitWorkloadWrite => match event {
            Event::Written => (UpdatePhase::AwaitAutoscaler, Action::FetchAutoscaler),
            _ => (UpdatePhase::Finished, Action::Abort(Operation::ReplaceWorkload)),
        },
        UpdatePhase::AwaitAutoscaler => match (event, cmd) {
            (Event::AutoscalerFound(_), UpdateCommand::Enable { min_replicas, max_replicas, cpu, .. }) => (
                UpdatePhase::AwaitAutoscalerWrite(Operation::ReplaceAutoscaler),
                Action::ReplaceAutoscaler(desired_spec(min_replicas, max_replicas, cpu)),
            ),
            (Event::AutoscalerFound(_), UpdateCommand::Disable { .. }) => (
                UpdatePhase::AwaitAutoscalerWrite(Operation::DeleteAutoscaler),
                Action::DeleteAutoscaler,
            ),
            (Event::NotFound, UpdateCommand::Enable { min_replicas, max_replicas, cpu, .. }) => (
                UpdatePhase::AwaitAutoscalerWrite(Operation::CreateAutoscaler),
                Action::CreateAutoscaler(desired_spec(min_replicas, max_replicas, cpu)),
            ),
            (Event::NotFound, UpdateCommand::Disable { .. }) => (
                UpdatePhase::Finished,
                Action::Complete,
            ),
            _ => (UpdatePhase::Finished, Action::Abort(Operation::FetchAutoscaler)),
        },
        UpdatePhase::AwaitAutoscalerWrite(op) => match event {
            Event::Written => (UpdatePhase::Finished, Action::Complete),
            Event::NotFound => if op == Operation::DeleteAutoscaler {
                (UpdatePhase::Finished, Action::Complete)
            } else {
                (UpdatePhase::Finished, Action::Abort(op))
            },
            _ => (UpdatePhase::Finished, Action::Abort(op)),
        },
        UpdatePhase::Finished => (UpdatePhase::Finished, Action::Complete),
    }
}

/// How a control plane in state `c` answers `a` when no call fails for another reason than
/// a missing object (creating an object that exists fails).
pub open spec fn answer(c: ClusterState, a: Action) -> Event {
    match a {
        Action::FetchWorkload => match c.workload {
            Some(declared) => Event::WorkloadFound(declared),
            None => Event::NotFound,
        },
        Action::WriteWorkloadReplicas(_) => if c.workload is Some {
            Event::Written
        } else {
            Event::NotFound
        },
        Action::FetchAutoscaler => match c.autoscaler {
            Some(s) => Event::AutoscalerFound(s),
            None => Event::NotFound,
        },
        Action::CreateAutoscaler(_) => if c.autoscaler is None {
            Event::Written
        } else {
            Event::Failed
        },
        Action::ReplaceAutoscaler(_) | Action::DeleteAutoscaler => if c.autoscaler is Some {
            Event::Written
        } else {
            Event::NotFound
        },
        _ => Event::Failed,
    }
}

/// The state of such a control plane after it performed `a` in state `c`.
pub open spec fn perform(c: ClusterState, a: Action) -> ClusterState {
    match a {
        Action::WriteWorkloadReplicas(n) => if c.workload is Some {
            ClusterState { workload: Some(Some(n)), ..c }
        } else {
            c
        },
        Action::CreateAutoscaler(s) => if c.autoscaler is None {
            ClusterState { autoscaler: Some(s), ..c }
        } else {
            c
        },
        Action::ReplaceAutoscaler(s) => if c.autoscaler is Some {
            ClusterState { autoscaler: Some(s), ..c }
        } else {
            c
        },
        Action::DeleteAutoscaler => ClusterState { autoscaler: None, ..c },
        _ => c,
    }
}

/// Runs an update of `cmd` against such a control plane for at most `fuel` calls, from
/// `phase` with `action` pending; gives the final state and the last action.
pub open spec fn run(cmd: UpdateCommand, phase: UpdatePhase, action: Action, c: ClusterState, fuel: nat) -> (
    ClusterState,
    Action,
)
    decreases fuel,
{
    if fuel == 0 || phase == UpdatePhase::Finished {
        (c, action)
    } else {
        let step = next(cmd, phase, answer(c, action));
        run(cmd, step.0, step.1, perform(c, action), (fuel - 1) as nat)
    }
}

/// The final state and the last action of a whole update of `cmd` from state `c`; an update
/// makes at most four calls.
pub open spec fn update_outcome(cmd: UpdateCommand, c: ClusterState) -> (ClusterState, Action) {
    run(cmd, UpdatePhase::AwaitWorkload, Action::FetchWorkload, c, 4)
}

/// What reading the configuration from state `c` reports.
pub open spec fn observed_config(c: ClusterState) -> Result<AutoscaleConfig, UpstreamError> {
    config_of(
        match c.workload {
            Some(Some(n)) => Some(n),
            _ => None,
        },
        match c.autoscaler {
            Some(s) => AutoscalerLookup::Found(s),
            None => AutoscalerLookup::Absent,
        },
    )
}

fn desired_autoscaler(min_replicas: i64, max_replicas: i64, cpu: Option<MetricTarget>) -> (r:
    AutoscalerSpec)
    ensures
        r == desired_spec(min_replicas, max_replicas, cpu),
{
    let target_cpu_utilization = match cpu {
        Some(t) => if t.enabled {
            Some(#[verifier::truncate] (t.target as i32))
        } else {
            None
        },
        None => None,
    };
    AutoscalerSpec {
        min_replicas: Some(#[verifier::truncate] (min_replicas as i32)),
        max_replicas: #[verifier::truncate] (max_replicas as i32),
        target_cpu_utilization,
    }
}

impl AutoscaleUpdate {
    /// Validates `req` and, where it is accepted, starts the update by fetching the workload.
    /// A rejected request yields no action at all.
    pub fn start(req: &UpdateRequest) -> (r: Result<(AutoscaleUpdate, Action), ValidationError>)
        ensures
            match validated(*req) {
                Ok(cmd) => r == Ok::<(AutoscaleUpdate, Action), ValidationError>(
                    (
                        AutoscaleUpdate { command: cmd, phase: UpdatePhase::AwaitWorkload },
                        Action::FetchWorkload,
                    ),
                ),
                Err(e) => r == Err::<(AutoscaleUpdate, Action), ValidationError>(e),
            },
    {
        match validate(req) {
            Ok(command) => Ok(
                (AutoscaleUpdate { command, phase: UpdatePhase::AwaitWorkload }, Action::FetchWorkload),
            ),
            Err(e) => Err(e),
        }
    }

    /// Takes the outcome of the last action and gives the next one.
    pub fn step(&mut self, event: Event) -> (a: Action)
        requires
            old(self).phase != UpdatePhase::Finished,
        ensures
            final(self).command == old(self).command,
            (final(self).phase, a) == next(old(self).command, old(self).phase, event),
    {
        let cmd = self.command;
        let (phase, action) = match self.phase {
            UpdatePhase::AwaitWorkload => match event {
                Event::WorkloadFound(declared) => {
                    let target = match cmd {
                        UpdateCommand::Disable { manual_replicas } => Some(
                            #[verifier::truncate] (manual_replicas as i32),
                        ),
                        UpdateCommand::Enable { manual_replicas, .. } => match declared {
                            Some(_) => None,
                            None => Some(#[verifier::truncate] (manual_replicas as i32)),
                        },
                    };
                    match target {
                        Some(n) => (UpdatePhase::AwaitWorkloadWrite, Action::WriteWorkloadReplicas(n)),
                        None => (UpdatePhase::AwaitAutoscaler, Action::FetchAutoscaler),
                    }
                },
                Event::NotFound => (UpdatePhase::AwaitAutoscaler, Action::FetchAutoscaler),
                _ => (UpdatePhase::Finished, Action::Abort(Operation::FetchWorkload)),
            },
            UpdatePhase::AwaitWorkloadWrite => match event {
                Event::Written => (UpdatePhase::AwaitAutoscaler, Action::FetchAutoscaler),
                _ => (UpdatePhase::Finished, Action::Abort(Operation::ReplaceWorkload)),
            },
            UpdatePhase::AwaitAutoscaler => match (event, cmd) {
                (
                    Event::AutoscalerFound(_),
                    UpdateCommand::Enable { min_replicas, max_replicas, cpu, .. },
                ) => (
                    UpdatePhase::AwaitAutoscalerWrite(Operation::ReplaceAutoscaler),
                    Action::ReplaceAutoscaler(desired_autoscaler(min_replicas, max_replicas, cpu)),
                ),
                (Event::AutoscalerFound(_), UpdateCommand::Disable { .. }) => (
                    UpdatePhase::AwaitAutoscalerWrite(Operation::DeleteAutoscaler),
                    Action::DeleteAutoscaler,
                ),
                (Event::NotFound, UpdateCommand::Enable { min_replicas, max_replicas, cpu, .. }) => (
                    UpdatePhase::AwaitAutoscalerWrite(Operation::CreateAutoscaler),
                    Action::CreateAutoscaler(desired_autoscaler(min_replicas, max_replicas, cpu)),
                ),
                (Event::NotFound, UpdateCommand::Disable { .. }) => (
                    UpdatePhase::Finished,
                    Action::Complete,
                ),
                _ => (UpdatePhase::Finished, Action::Abort(Operation::FetchAutoscaler)),
            },
            UpdatePhase::AwaitAutoscalerWrite(op) => match event {
                Event::Written => (UpdatePhase::Finished, Action::Complete),
                Event::NotFound => match op {
                    Operation::DeleteAutoscaler => (UpdatePhase::Finished, Action::Complete),
                    _ => (UpdatePhase::Finished, Action::Abort(op)),
                },
                _ => (UpdatePhase::Finished, Action::Abort(op)),
            },
            UpdatePhase::Finished => (UpdatePhase::Finished, Action::Complete),
        };
        self.phase = phase;
        action
    }
}

/// Disabling autoscaling on an existing workload completes with the workload at the manual
/// replica count and no autoscaler object, whatever the state before; the same request made
/// again finds that state and leaves it as it is.
pub proof fn lemma_disable_reaches_manual_mode(manual_replicas: i64, c: ClusterState)
    requires
        c.workload is Some,
    ensures
        update_outcome((UpdateCommand::Disable { manual_replicas }), c).1 == Action::Complete,
        update_outcome((UpdateCommand::Disable { manual_replicas }), c).0.workload == Some(
            Some(manual_replicas as i32),
        ),
        update_outcome((UpdateCommand::Disable { manual_replicas }), c).0.autoscaler is None,
        update_outcome(
            (UpdateCommand::Disable { manual_replicas }),
            update_outcome((UpdateCommand::Disable { manual_replicas }), c).0,
        ) == update_outcome((UpdateCommand::Disable { manual_replicas }), c),
{
    reveal_with_fuel(run, 5);
}

/// Enabling autoscaling completes from any state and leaves an autoscaler object that holds
/// exactly the requested bounds and CPU target, whatever object existed before.
pub proof fn lemma_enable_writes_requested_spec(
    manual_replicas: i64,
    min_replicas: i64,
    max_replicas: i64,
    cpu: Option<MetricTarget>,
    memory: Option<MetricTarget>,
    c: ClusterState,
)
    ensures
        ({
            let cmd = UpdateCommand::Enable {
                manual_replicas,
                min_replicas,
                max_replicas,
                cpu,
                memory,
            };
            &&& update_outcome(cmd, c).1 == Action::Complete
            &&& update_outcome(cmd, c).0.autoscaler == Some(
                desired_spec(min_replicas, max_replicas, cpu),
            )
        }),
{
    reveal_with_fuel(run, 5);
}

/// After autoscaling is enabled with bounds and an enabled CPU target that fit the control
/// plane's 32-bit fields, reading the configuration reports it enabled with those bounds
/// and that target.
pub proof fn lemma_enable_then_read(
    manual_replicas: i64,
    min_replicas: i64,
    max_replicas: i64,
    cpu_target: i64,
    memory: Option<MetricTarget>,
    c: ClusterState,
)
    requires
        i32::MIN <= min_replicas <= i32::MAX,
        i32::MIN <= max_replicas <= i32::MAX,
        i32::MIN <= cpu_target <= i32::MAX,
    ensures
        ({
            let cmd = UpdateCommand::Enable {
                manual_replicas,
                min_replicas,
                max_replicas,
                cpu: Some(MetricTarget { enabled: true, target: cpu_target }),
                memory,
            };
            let cfg = observed_config(update_outcome(cmd, c).0);
            &&& update_outcome(cmd, c).1 == Action::Complete
            &&& cfg is Ok
            &&& cfg->Ok_0.enabled
            &&& cfg->Ok_0.min_replicas == Some(min_replicas)
            &&& cfg->Ok_0.max_replicas == Some(max_replicas)
            &&& cfg->Ok_0.cpu == Some(MetricTarget { enabled: true, target: cpu_target })
        }),
{
    let cpu = Some(MetricTarget { enabled: true, target: cpu_target });
    lemma_enable_writes_requested_spec(manual_replicas, min_replicas, max_replicas, cpu, memory, c);
}

/// Disabling and then enabling again keeps nothing of the earlier autoscaler object: the new
/// one holds the bounds of the enabling request, and a CPU target only where it supplies one.
pub proof fn lemma_reenable_starts_afresh(
    disabled_replicas: i64,
    manual_replicas: i64,
    min_replicas: i64,
    max_replicas: i64,
    cpu: Option<MetricTarget>,
    memory: Option<MetricTarget>,
    c: ClusterState,
)
    ensures
        ({
            let between = update_outcome(
                (UpdateCommand::Disable { manual_replicas: disabled_replicas }),
                c,
            ).0;
            let cmd = UpdateCommand::Enable {
                manual_replicas,
                min_replicas,
                max_replicas,
                cpu,
                memory,
            };
            let after = update_outcome(cmd, between).0;
            &&& between.autoscaler is None
            &&& after.autoscaler == Some(desired_spec(min_replicas, max_replicas, cpu))
            &&& cpu is None ==> after.autoscaler->0.target_cpu_utilization is None
        }),
{
    reveal_with_fuel(run, 5);
    let between = update_outcome((UpdateCommand::Disable { manual_replicas: disabled_replicas }), c).0;
    lemma_enable_writes_requested_spec(manual_replicas, min_replicas, max_replicas, cpu, memory, between);
}

} // verus!
