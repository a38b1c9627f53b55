use scalestorm_api::autoscale::{
    get_config, validate, AutoscaleConfig, AutoscalerLookup, AutoscalerSpec, MetricRequest,
    MetricTarget, MetricsRequest, Operation, UpdateCommand, UpdateRequest, UpstreamError,
    ValidationError,
};
use scalestorm_api::reconcile::{Action, AutoscaleUpdate, ClusterState, Event};

/// A control plane held in memory that records every write it receives.
struct FakeCluster {
    state: ClusterState,
    writes: Vec<Action>,
}

impl FakeCluster {
    fn new(workload: Option<Option<i32>>, autoscaler: Option<AutoscalerSpec>) -> FakeCluster {
        FakeCluster { state: ClusterState { workload, autoscaler }, writes: Vec::new() }
    }

    fn perform(&mut self, action: Action) -> Event {
        match action {
            Action::FetchWorkload => match self.state.workload {
                Some(declared) => Event::WorkloadFound(declared),
                None => Event::NotFound,
            },
            Action::FetchAutoscaler => match self.state.autoscaler {
                Some(s) => Event::AutoscalerFound(s),
                None => Event::NotFound,
            },
            Action::WriteWorkloadReplicas(n) => {
                self.writes.push(action);
                if self.state.workload.is_some() {
                    self.state.workload = Some(Some(n));
                    Event::Written
                } else {
                    Event::NotFound
                }
            }
            Action::CreateAutoscaler(s) => {
                self.writes.push(action);
                if self.state.autoscaler.is_none() {
                    self.state.autoscaler = Some(s);
                    Event::Written
                } else {
                    Event::Failed
                }
            }
            Action::ReplaceAutoscaler(s) => {
                self.writes.push(action);
                if self.state.autoscaler.is_some() {
                    self.state.autoscaler = Some(s);
                    Event::Written
                } else {
                    Event::NotFound
                }
            }
            Action::DeleteAutoscaler => {
                self.writes.push(action);
                if self.state.autoscaler.take().is_some() {
                    Event::Written
                } else {
                    Event::NotFound
                }
            }
            Action::Complete | Action::Abort(_) => panic!("terminal action performed"),
        }
    }

    fn update(&mut self, req: &UpdateRequest) -> Result<Action, ValidationError> {
        let (mut update, mut action) = AutoscaleUpdate::start(req)?;
        loop {
            match action {
                Action::Complete | Action::Abort(_) => return Ok(action),
                _ => {
                    let event = self.perform(action);
                    action = update.step(event);
                }
            }
        }
    }

    fn read(&self) -> Result<AutoscaleConfig, UpstreamError> {
        let replicas = match self.state.workload {
            Some(Some(n)) => Some(n),
            _ => None,
        };
        let lookup = match self.state.autoscaler {
            Some(s) => AutoscalerLookup::Found(s),
            None => AutoscalerLookup::Absent,
        };
        get_config(replicas, lookup)
    }
}

fn request(enabled: Option<bool>, manual: Option<i64>) -> UpdateRequest {
    UpdateRequest { enabled, manual_replicas: manual, min_replicas: None, max_replicas: None, metrics: None }
}

fn enable_request(min: i64, max: i64, cpu: Option<MetricRequest>) -> UpdateRequest {
    UpdateRequest {
        enabled: Some(true),
        manual_replicas: Some(1),
        min_replicas: Some(min),
        max_replicas: Some(max),
        metrics: Some(MetricsRequest { cpu, memory: None }),
    }
}

fn metric(enabled: Option<bool>, target: Option<i64>) -> Option<MetricRequest> {
    Some(MetricRequest { enabled, target })
}

fn old_spec() -> AutoscalerSpec {
    AutoscalerSpec { min_replicas: Some(1), max_replicas: 4, target_cpu_utilization: Some(50) }
}

#[test]
fn validate_requires_enabled_and_manual_replicas() {
    assert_eq!(validate(&request(None, Some(3))), Err(ValidationError::MissingRequiredFields));
    assert_eq!(validate(&request(Some(false), None)), Err(ValidationError::MissingRequiredFields));
}

#[test]
fn validate_requires_bounds_when_enabling() {
    let mut req = request(Some(true), Some(2));
    req.min_replicas = Some(1);
    assert_eq!(validate(&req), Err(ValidationError::MissingReplicaBounds));
}

#[test]
fn validate_rejects_incomplete_metrics() {
    let mut req = enable_request(1, 5, metric(Some(true), None));
    assert_eq!(validate(&req), Err(ValidationError::InvalidCpuMetrics));
    req.metrics = Some(MetricsRequest { cpu: None, memory: metric(None, Some(80)) });
    assert_eq!(validate(&req), Err(ValidationError::InvalidMemoryMetrics));
}

#[test]
fn validate_builds_commands() {
    assert_eq!(validate(&request(Some(false), Some(3))), Ok(UpdateCommand::Disable { manual_replicas: 3 }));
    assert_eq!(
        validate(&enable_request(2, 8, metric(Some(true), Some(70)))),
        Ok(UpdateCommand::Enable {
            manual_replicas: 1,
            min_replicas: 2,
            max_replicas: 8,
            cpu: Some(MetricTarget { enabled: true, target: 70 }),
            memory: None,
        })
    );
}

#[test]
fn enable_without_bounds_writes_nothing() {
    let mut cluster = FakeCluster::new(Some(Some(2)), None);
    assert!(cluster.update(&request(Some(true), None)).is_err());
    assert!(cluster.update(&request(Some(true), Some(2))).is_err());
    assert!(cluster.writes.is_empty());
    assert_eq!(cluster.state, ClusterState { workload: Some(Some(2)), autoscaler: None });
}

#[test]
fn disable_sets_replicas_and_removes_autoscaler() {
    for before in [None, Some(old_spec())] {
        let mut cluster = FakeCluster::new(Some(Some(5)), before);
        assert_eq!(cluster.update(&request(Some(false), Some(3))), Ok(Action::Complete));
        assert_eq!(cluster.state, ClusterState { workload: Some(Some(3)), autoscaler: None });
        assert_eq!(cluster.update(&request(Some(false), Some(3))), Ok(Action::Complete));
        assert_eq!(cluster.state, ClusterState { workload: Some(Some(3)), autoscaler: None });
        let cfg = cluster.read().unwrap();
        assert!(!cfg.enabled);
        assert_eq!(cfg.manual_replicas, 3);
    }
}

#[test]
fn enable_then_read_reports_bounds_and_target() {
    for before in [None, Some(old_spec())] {
        let mut cluster = FakeCluster::new(Some(Some(3)), before);
        let req = enable_request(2, 8, metric(Some(true), Some(70)));
        assert_eq!(cluster.update(&req), Ok(Action::Complete));
        let cfg = cluster.read().unwrap();
        assert!(cfg.enabled);
        assert_eq!(cfg.min_replicas, Some(2));
        assert_eq!(cfg.max_replicas, Some(8));
        assert_eq!(cfg.cpu, Some(MetricTarget { enabled: true, target: 70 }));
        assert_eq!(cfg.manual_replicas, 3);
    }
}

#[test]
fn enable_creates_or_replaces() {
    let mut fresh = FakeCluster::new(Some(Some(3)), None);
    fresh.update(&enable_request(2, 8, None)).unwrap();
    let spec = AutoscalerSpec { min_replicas: Some(2), max_replicas: 8, target_cpu_utilization: None };
    assert_eq!(fresh.writes, vec![Action::CreateAutoscaler(spec)]);
    let mut existing = FakeCluster::new(Some(Some(3)), Some(old_spec()));
    existing.update(&enable_request(2, 8, None)).unwrap();
    assert_eq!(existing.writes, vec![Action::ReplaceAutoscaler(spec)]);
}

#[test]
fn enable_seeds_workload_without_replicas() {
    let mut cluster = FakeCluster::new(Some(None), None);
    let mut req = enable_request(2, 8, None);
    req.manual_replicas = Some(4);
    cluster.update(&req).unwrap();
    assert_eq!(cluster.state.workload, Some(Some(4)));
    let mut set = FakeCluster::new(Some(Some(6)), None);
    set.update(&req).unwrap();
    assert_eq!(set.state.workload, Some(Some(6)));
}

#[test]
fn reenable_drops_old_cpu_target() {
    let mut cluster = FakeCluster::new(Some(Some(3)), None);
    cluster.update(&enable_request(2, 8, metric(Some(true), Some(70)))).unwrap();
    cluster.update(&request(Some(false), Some(3))).unwrap();
    cluster.update(&enable_request(1, 5, None)).unwrap();
    let cfg = cluster.read().unwrap();
    assert!(cfg.enabled);
    assert_eq!(cfg.min_replicas, Some(1));
    assert_eq!(cfg.max_replicas, Some(5));
    assert_eq!(cfg.cpu, None);
}

#[test]
fn disabled_cpu_metric_sets_no_target() {
    let mut cluster = FakeCluster::new(Some(Some(3)), Some(old_spec()));
    cluster.update(&enable_request(2, 8, metric(Some(false), Some(90)))).unwrap();
    assert_eq!(cluster.state.autoscaler.unwrap().target_cpu_utilization, None);
}

#[test]
fn failures_abort_with_operation() {
    let mut update = AutoscaleUpdate::start(&request(Some(false), Some(3))).unwrap().0;
    assert_eq!(update.step(Event::Failed), Action::Abort(Operation::FetchWorkload));
    let (mut update, _) = AutoscaleUpdate::start(&request(Some(false), Some(3))).unwrap();
    assert_eq!(update.step(Event::WorkloadFound(Some(1))), Action::WriteWorkloadReplicas(3));
    assert_eq!(update.step(Event::Failed), Action::Abort(Operation::ReplaceWorkload));
    let (mut update, _) = AutoscaleUpdate::start(&enable_request(1, 2, None)).unwrap();
    assert_eq!(update.step(Event::WorkloadFound(Some(1))), Action::FetchAutoscaler);
    assert_eq!(update.step(Event::Failed), Action::Abort(Operation::FetchAutoscaler));
    let (mut update, _) = AutoscaleUpdate::start(&enable_request(1, 2, None)).unwrap();
    update.step(Event::NotFound);
    assert!(matches!(update.step(Event::NotFound), Action::CreateAutoscaler(_)));
    assert_eq!(update.step(Event::Failed), Action::Abort(Operation::CreateAutoscaler));
}

#[test]
fn delete_of_absent_autoscaler_succeeds() {
    let (mut update, _) = AutoscaleUpdate::start(&request(Some(false), Some(3))).unwrap();
    update.step(Event::NotFound);
    assert_eq!(update.step(Event::AutoscalerFound(old_spec())), Action::DeleteAutoscaler);
    assert_eq!(update.step(Event::NotFound), Action::Complete);
}

#[test]
fn read_config_modes() {
    let cfg = get_config(Some(4), AutoscalerLookup::Found(old_spec())).unwrap();
    assert_eq!(
        cfg,
        AutoscaleConfig {
            enabled: true,
            manual_replicas: 4,
            min_replicas: Some(1),
            max_replicas: Some(4),
            cpu: Some(MetricTarget { enabled: true, target: 50 }),
            memory: None,
        }
    );
    let manual = get_config(None, AutoscalerLookup::Absent).unwrap();
    assert!(!manual.enabled);
    assert_eq!(manual.manual_replicas, 1);
    assert_eq!(manual.min_replicas, None);
    assert_eq!(
        get_config(Some(2), AutoscalerLookup::Failed),
        Err(UpstreamError { operation: Operation::FetchAutoscaler })
    );
}
