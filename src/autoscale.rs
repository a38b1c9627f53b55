//! The user-facing autoscaling configuration: validation of update requests and the view
//! computed from the workload and the autoscaler object.
use vstd::prelude::*;

verus! {

/// A metric sub-object of an update request as received; either field may be missing.
#[derive(Debug, Clone, Copy, PartialEq, Eq, Structural)]
pub struct MetricRequest {
    pub enabled: Option<bool>,
    pub target: Option<i64>,
}

/// The `metrics` object of an update request as received.
#[derive(Debug, Clone, Copy, PartialEq, Eq, Structural)]
pub struct MetricsRequest {
    pub cpu: Option<MetricRequest>,
    pub memory: Option<MetricRequest>,
}

/// An update request as received: every field may be missing.
#[derive(Debug, Clone, Copy, PartialEq, Eq, Structural)]
pub struct UpdateRequest {
    pub enabled: Option<bool>,
    pub manual_replicas: Option<i64>,
    pub min_replicas: Option<i64>,
    pub max_replicas: Option<i64>,
    pub metrics: Option<MetricsRequest>,
}

/// A metric target: whether it is in force and its utilisation percentage.
#[derive(Debug, Clone, Copy, PartialEq, Eq, Structural)]
pub struct MetricTarget {
    pub enabled: bool,
    pub target: i64,
}

/// A validated update request.
#[derive(Debug, Clone, Copy, PartialEq, Eq, Structural)]
pub enum UpdateCommand {
    /// Hand scaling to the autoscaler within `[min_replicas, max_replicas]`.
    Enable {
        manual_replicas: i64,
        min_replicas: i64,
        max_replicas: i64,
        cpu: Option<MetricTarget>,
        memory: Option<MetricTarget>,
    },
    /// Fix the workload at `manual_replicas` and remove the autoscaler.
    Disable { manual_replicas: i64 },
}

/// Why an update request was rejected.
#[derive(Debug, Clone, Copy, PartialEq, Eq, Structural)]
pub enum ValidationError {
    /// `enabled` or `manualReplicas` is missing.
    MissingRequiredFields,
    /// Autoscaling is requested without `minReplicas` or `maxReplicas`.
    MissingReplicaBounds,
    /// The `cpu` metric lacks `enabled` or `target`.
    InvalidCpuMetrics,
    /// The `memory` metric lacks `enabled` or `target`.
    InvalidMemoryMetrics,
}

/// The control-plane operations that the autoscaling logic asks for.
#[derive(Debug, Clone, Copy, PartialEq, Eq, Structural)]
pub enum Operation {
    FetchWorkload,
    ReplaceWorkload,
    FetchAutoscaler,
    CreateAutoscaler,
    ReplaceAutoscaler,
    DeleteAutoscaler,
}

/// A control-plane call failed for another reason than a missing object.
#[derive(Debug, Clone, Copy, PartialEq, Eq, Structural)]
pub struct UpstreamError {
    pub operation: Operation,
}

/// The scaling fields of the autoscaler object.
#[derive(Debug, Clone, Copy, PartialEq, Eq, Structural)]
pub struct AutoscalerSpec {
    pub min_replicas: Option<i32>,
    pub max_replicas: i32,
    pub target_cpu_utilization: Option<i32>,
}

/// The outcome of fetching the autoscaler object.
#[derive(Debug, Clone, Copy, PartialEq, Eq, Structural)]
pub enum AutoscalerLookup {
    Found(AutoscalerSpec),
    Absent,
    Failed,
}

/// The autoscaling configuration as reported to users.
#[derive(Debug, Clone, Copy, PartialEq, Eq, Structural)]
pub struct AutoscaleConfig {
    pub enabled: bool,
    pub manual_replicas: i64,
    pub min_replicas: Option<i64>,
    pub max_replicas: Option<i64>,
    pub cpu: Option<MetricTarget>,
    pub memory: Option<MetricTarget>,
}

/// A metric sub-object is acceptable when it is absent or carries both fields.
pub open spec fn metric_well_formed(m: Option<MetricRequest>) -> bool {
    match m {
        Some(x) => x.enabled is Some && x.target is Some,
        None => true,
    }
}

pub open spec fn cpu_request(req: UpdateRequest) -> Option<MetricRequest> {
    match req.metrics {
        Some(m) => m.cpu,
        None => None,
    }
}

pub open spec fn memory_request(req: UpdateRequest) -> Option<MetricRequest> {
    match req.metrics {
        Some(m) => m.memory,
        None => None,
    }
}

/// The target that a well-formed metric sub-object states.
pub open spec fn metric_target(m: Option<MetricRequest>) -> Option<MetricTarget> {
    match m {
        Some(x) => Some(MetricTarget { enabled: x.enabled->0, target: x.target->0 }),
        None => None,
    }
}

/// The command that an update request stands for, or the first reason to reject it:
/// required fields first, then the replica bounds, then the CPU and memory metrics.
pub open spec fn validated(req: UpdateRequest) -> Result<UpdateCommand, ValidationError> {
    if req.enabled is None || req.manual_replicas is None {
        Err(ValidationError::MissingRequiredFields)
    } else if req.enabled->0 && (req.min_replicas is None || req.max_replicas is None) {
        Err(ValidationError::MissingReplicaBounds)
    } else if !metric_well_formed(cpu_request(req)) {
        Err(ValidationError::InvalidCpuMetrics)
    } else if !metric_well_formed(memory_request(req)) {
        Err(ValidationError::InvalidMemoryMetrics)
    } else if req.enabled->0 {
        Ok(
            UpdateCommand::Enable {
                manual_replicas: req.manual_replicas->0,
                min_replicas: req.min_replicas->0,
                max_replicas: req.max_replicas->0,
                cpu: metric_target(cpu_request(req)),
                memory: metric_target(memory_request(req)),
            },
        )
    } else {
        Ok(UpdateCommand::Disable { manual_replicas: req.manual_replicas->0 })
    }
}

/// The replica count reported as manual: the workload's, or 1 where it is unknown.
pub open spec fn manual_or_default(workload_replicas: Option<i32>) -> i64 {
    match workload_replicas {
        Some(n) => n as i64,
        None => 1,
    }
}

/// The configuration that the workload's replica count and the autoscaler lookup show.
pub open spec fn config_of(workload_replicas: Option<i32>, autoscaler: AutoscalerLookup) -> Result<
    AutoscaleConfig,
    UpstreamError,
> {
    match autoscaler {
        AutoscalerLookup::Found(s) => Ok(
            AutoscaleConfig {
                enabled: true,
                manual_replicas: manual_or_default(workload_replicas),
                min_replicas: match s.min_replicas {
                    Some(n) => Some(n as i64),
                    None => None,
                },
                max_replicas: Some(s.max_replicas as i64),
                cpu: match s.target_cpu_utilization {
                    Some(t) => Some(MetricTarget { enabled: true, target: t as i64 }),
                    None => None,
                },
                memory: None,
            },
        ),
        AutoscalerLookup::Absent => Ok(
            AutoscaleConfig {
                enabled: false,
                manual_replicas: manual_or_default(workload_replicas),
                min_replicas: None,
                max_replicas: None,
                cpu: None,
                memory: None,
            },
        ),
        AutoscalerLookup::Failed => Err(UpstreamError { operation: Operation::FetchAutoscaler }),
    }
}

fn check_metric(m: Option<MetricRequest>) -> (r: Option<Option<MetricTarget>>)
    ensures
        r is Some <==> metric_well_formed(m),
        r is Some ==> r->0 == metric_target(m),
{
    match m {
        Some(x) => match (x.enabled, x.target) {
            (Some(e), Some(t)) => Some(Some(MetricTarget { enabled: e, target: t })),
            _ => None,
        },
        None => Some(None),
    }
}

/// Checks the shape of an update request and turns it into a command; nothing is changed
/// anywhere when it is rejected.
pub fn validate(req: &UpdateRequest) -> (r: Result<UpdateCommand, ValidationError>)
    ensures
        r == validated(*req),
{
    let (enabled, manual_replicas) = match (req.enabled, req.manual_replicas) {
        (Some(e), Some(m)) => (e, m),
        _ => return Err(ValidationError::MissingRequiredFields),
    };
    if enabled && (req.min_replicas.is_none() || req.max_replicas.is_none()) {
        return Err(ValidationError::MissingReplicaBounds);
    }
    let (cpu, memory) = match req.metrics {
        Some(m) => (m.cpu, m.memory),
        None => (None, None),
    };
    let cpu = match check_metric(cpu) {
        Some(t) => t,
        None => return Err(ValidationError::InvalidCpuMetrics),
    };
    let memory = match check_metric(memory) {
        Some(t) => t,
        None => return Err(ValidationError::InvalidMemoryMetrics),
    };
    match (enabled, req.min_replicas, req.max_replicas) {
        (true, Some(min_replicas), Some(max_replicas)) => Ok(
            UpdateCommand::Enable { manual_replicas, min_replicas, max_replicas, cpu, memory },
        ),
        _ => Ok(UpdateCommand::Disable { manual_replicas }),
    }
}

/// The configuration that users see: autoscaled with the autoscaler's bounds and CPU target
/// where the autoscaler object exists, manual where it does not, and an upstream failure
/// where it could not be fetched. `workload_replicas` is the workload's replica count where
/// it could be read.
pub fn get_config(workload_replicas: Option<i32>, autoscaler: AutoscalerLookup) -> (r: Result<
    AutoscaleConfig,
    UpstreamError,
>)
    ensures
        r == config_of(workload_replicas, autoscaler),
{
    let manual_replicas: i64 = match workload_replicas {
        Some(n) => n as i64,
        None => 1,
    };
    match autoscaler {
        AutoscalerLookup::Found(s) => Ok(
            AutoscaleConfig {
                enabled: true,
                manual_replicas,
                min_replicas: match s.min_replicas {
                    Some(n) => Some(n as i64),
                    None => None,
                },
                max_replicas: Some(s.max_replicas as i64),
                cpu: match s.target_cpu_utilization {
                    Some(t) => Some(MetricTarget { enabled: true, target: t as i64 }),
                    None => None,
                },
                memory: None,
            },
        ),
        AutoscalerLookup::Absent => Ok(
            AutoscaleConfig {
                enabled: false,
                manual_replicas,
                min_replicas: None,
                max_replicas: None,
                cpu: None,
                memory: None,
            },
        ),
        AutoscalerLookup::Failed => Err(UpstreamError { operation: Operation::FetchAutoscaler }),
    }
}

/// A request to enable autoscaling that lacks either replica bound is rejected, so no
/// command reaches the control plane.
pub proof fn lemma_enable_needs_bounds(req: UpdateRequest)
    requires
        req.enabled == Some(true),
        req.min_replicas is None || req.max_replicas is None,
    ensures
        validated(req) is Err,
{
}

} // verus!
