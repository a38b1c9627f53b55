//! Per-pod resource records: declared requests and limits merged with live usage.
use vstd::prelude::*;

use crate::quantity::{opt_model, opt_str, parse_resource, parsed, QuantityModel, ResourceQuantity};

verus! {

/// The two resources that are reported for each pod.
#[derive(Debug, Clone, Copy, PartialEq, Eq, Structural)]
pub enum ResourceKind {
    Cpu,
    Memory,
}

/// The quantity strings that one container declares, each absent where the container
/// declares no such limit or request.
#[derive(Debug, Clone)]
pub struct ContainerResources {
    pub cpu_limit: Option<String>,
    pub cpu_request: Option<String>,
    pub memory_limit: Option<String>,
    pub memory_request: Option<String>,
}

/// A listed pod: where it lives and what its containers declare, in container order.
#[derive(Debug, Clone)]
pub struct PodSummary {
    pub name: String,
    pub namespace: String,
    pub containers: Vec<ContainerResources>,
}

/// The live usage strings that a successful metrics lookup returned for a pod.
#[derive(Debug, Clone)]
pub struct UsageReading {
    pub cpu: Option<String>,
    pub memory: Option<String>,
}

/// Limit, request and live usage of one resource of a pod.
#[derive(Debug, Clone)]
pub struct ResourceFigures {
    pub limit: Option<ResourceQuantity>,
    pub request: Option<ResourceQuantity>,
    pub usage: Option<ResourceQuantity>,
}

/// The record reported for one pod.
#[derive(Debug, Clone)]
pub struct PodResourceInfo {
    pub name: String,
    pub namespace: String,
    pub cpu: ResourceFigures,
    pub memory: ResourceFigures,
}

/// The quantity string that container `c` declares for `kind`, as a limit or as a request.
pub open spec fn declared(c: ContainerResources, kind: ResourceKind, is_limit: bool) -> Option<
    Seq<char>,
> {
    match kind {
        ResourceKind::Cpu => if is_limit {
            opt_str(c.cpu_limit)
        } else {
            opt_str(c.cpu_request)
        },
        ResourceKind::Memory => if is_limit {
            opt_str(c.memory_limit)
        } else {
            opt_str(c.memory_request)
        },
    }
}

/// The quantity of the first container, in order, that declares a decodable quantity for
/// `kind`; containers are not summed.
pub open spec fn first_declared(cs: Seq<ContainerResources>, kind: ResourceKind, is_limit: bool) -> Option<
    QuantityModel,
>
    decreases cs.len(),
{
    if cs.len() == 0 {
        None
    } else {
        match parsed(declared(cs[0], kind, is_limit)) {
            Some(q) => Some(q),
            None => first_declared(cs.drop_first(), kind, is_limit),
        }
    }
}

/// The live usage of `kind` that a metrics lookup gave; `None` stands for a failed lookup.
pub open spec fn usage_of(u: Option<UsageReading>, kind: ResourceKind) -> Option<QuantityModel> {
    match u {
        Some(r) => match kind {
            ResourceKind::Cpu => parsed(opt_str(r.cpu)),
            ResourceKind::Memory => parsed(opt_str(r.memory)),
        },
        None => None,
    }
}

/// `f` holds the limit, request and usage of `kind` for `pod`.
pub open spec fn figures_describe(
    f: ResourceFigures,
    pod: PodSummary,
    usage: Option<UsageReading>,
    kind: ResourceKind,
) -> bool {
    &&& opt_model(f.limit) == first_declared(pod.containers@, kind, true)
    &&& opt_model(f.request) == first_declared(pod.containers@, kind, false)
    &&& opt_model(f.usage) == usage_of(usage, kind)
}

/// `info` is the record of `pod` given the outcome `usage` of its metrics lookup.
pub open spec fn describes(info: PodResourceInfo, pod: PodSummary, usage: Option<UsageReading>) -> bool {
    &&& info.name@ == pod.name@
    &&& info.namespace@ == pod.namespace@
    &&& figures_describe(info.cpu, pod, usage, ResourceKind::Cpu)
    &&& figures_describe(info.memory, pod, usage, ResourceKind::Memory)
}

/// Neither usage figure of `info` is known.
pub open spec fn usage_absent(info: PodResourceInfo) -> bool {
    info.cpu.usage is None && info.memory.usage is None
}

/// A reading from which at least one usage figure can be decoded.
pub open spec fn reading_usable(r: UsageReading) -> bool {
    usage_of(Some(r), ResourceKind::Cpu) is Some || usage_of(Some(r), ResourceKind::Memory) is Some
}

/// The number of failed lookups.
pub open spec fn count_failed(usages: Seq<Option<UsageReading>>) -> nat
    decreases usages.len(),
{
    if usages.len() == 0 {
        0
    } else {
        count_failed(usages.drop_last()) + if usages.last() is None {
            1nat
        } else {
            0nat
        }
    }
}

/// The number of records without any usage figure.
pub open spec fn count_absent(infos: Seq<PodResourceInfo>) -> nat
    decreases infos.len(),
{
    if infos.len() == 0 {
        0
    } else {
        count_absent(infos.drop_last()) + if usage_absent(infos.last()) {
            1nat
        } else {
            0nat
        }
    }
}

fn declared_quantity(c: &ContainerResources, kind: ResourceKind, is_limit: bool) -> (r: Option<
    ResourceQuantity,
>)
    ensures
        opt_model(r) == parsed(declared(*c, kind, is_limit)),
{
    let raw = match kind {
        ResourceKind::Cpu => if is_limit {
            &c.cpu_limit
        } else {
            &c.cpu_request
        },
        ResourceKind::Memory => if is_limit {
            &c.memory_limit
        } else {
            &c.memory_request
        },
    };
    match raw {
        Some(s) => parse_resource(Some(s.as_str())),
        None => None,
    }
}

fn first_quantity(containers: &Vec<ContainerResources>, kind: ResourceKind, is_limit: bool) -> (r:
    Option<ResourceQuantity>)
    ensures
        opt_model(r) == first_declared(containers@, kind, is_limit),
{
    let mut i: usize = 0;
    assert(containers@.skip(0) =~= containers@);
    while i < containers.len()
        invariant
            i <= containers@.len(),
            first_declared(containers@, kind, is_limit) == first_declared(
                containers@.skip(i as int),
                kind,
                is_limit,
            ),
        decreases containers.len() - i,
    {
        let q = declared_quantity(&containers[i], kind, is_limit);
        assert(containers@.skip(i as int)[0] == containers@[i as int]);
        assert(containers@.skip(i as int).drop_first() =~= containers@.skip(i + 1));
        if q.is_some() {
            return q;
        }
        i = i + 1;
    }
    assert(containers@.skip(i as int).len() == 0);
    None
}

/// The CPU limit (`is_limit`) or request of a pod: that of its first container declaring one.
pub fn parse_cpu(pod: &PodSummary, is_limit: bool) -> (r: Option<ResourceQuantity>)
    ensures
        opt_model(r) == first_declared(pod.containers@, ResourceKind::Cpu, is_limit),
{
    first_quantity(&pod.containers, ResourceKind::Cpu, is_limit)
}

/// The memory limit (`is_limit`) or request of a pod: that of its first container declaring one.
pub fn parse_memory(pod: &PodSummary, is_limit: bool) -> (r: Option<ResourceQuantity>)
    ensures
        opt_model(r) == first_declared(pod.containers@, ResourceKind::Memory, is_limit),
{
    first_quantity(&pod.containers, ResourceKind::Memory, is_limit)
}

fn live_usage(usage: &Option<UsageReading>, kind: ResourceKind) -> (r: Option<ResourceQuantity>)
    ensures
        opt_model(r) == usage_of(*usage, kind),
{
    match usage {
        Some(u) => {
            let raw = match kind {
                ResourceKind::Cpu => &u.cpu,
                ResourceKind::Memory => &u.memory,
            };
            match raw {
                Some(s) => parse_resource(Some(s.as_str())),
                None => None,
            }
        },
        None => None,
    }
}

fn clone_reading(r: &UsageReading) -> (c: UsageReading)
    ensures
        opt_str(c.cpu) == opt_str(r.cpu),
        opt_str(c.memory) == opt_str(r.memory),
{
    UsageReading {
        cpu: match &r.cpu {
            Some(s) => Some(s.clone()),
            None => None,
        },
        memory: match &r.memory {
            Some(s) => Some(s.clone()),
            None => None,
        },
    }
}

/// The usage of a pod as its metrics object reports it: that of its first container, where
/// the first container carries a usage entry (`None` in `containers` where it carries none).
pub fn pod_usage(containers: &Vec<Option<UsageReading>>) -> (r: Option<UsageReading>)
    ensures
        containers@.len() == 0 ==> r is None,
        containers@.len() > 0 ==> match containers@[0] {
            Some(first) => r is Some && opt_str(r->0.cpu) == opt_str(first.cpu) && opt_str(
                r->0.memory,
            ) == opt_str(first.memory),
            None => r is None,
        },
{
    if containers.len() == 0 {
        return None;
    }
    match &containers[0] {
        Some(first) => Some(clone_reading(first)),
        None => None,
    }
}

/// Builds the record of one pod from its declared resources and the outcome of its metrics
/// lookup (`None` where the lookup failed, which leaves both usage figures absent).
pub fn get_pod_info(pod: &PodSummary, usage: &Option<UsageReading>) -> (r: PodResourceInfo)
    ensures
        describes(r, *pod, *usage),
{
    PodResourceInfo {
        name: pod.name.clone(),
        namespace: pod.namespace.clone(),
        cpu: ResourceFigures {
            limit: parse_cpu(pod, true),
            request: parse_cpu(pod, false),
            usage: live_usage(usage, ResourceKind::Cpu),
        },
        memory: ResourceFigures {
            limit: parse_memory(pod, true),
            request: parse_memory(pod, false),
            usage: live_usage(usage, ResourceKind::Memory),
        },
    }
}

/// Merges listed pods with the outcomes of their metrics lookups, one record per pod in
/// listing order, whatever number of lookups failed.
pub fn aggregate(pods: &Vec<PodSummary>, usages: &Vec<Option<UsageReading>>) -> (r: Vec<
    PodResourceInfo,
>)
    requires
        pods@.len() == usages@.len(),
    ensures
        r@.len() == pods@.len(),
        forall|i: int| 0 <= i < pods@.len() ==> describes(#[trigger] r@[i], pods@[i], usages@[i]),
{
    let mut out: Vec<PodResourceInfo> = Vec::new();
    let mut i: usize = 0;
    while i < pods.len()
        invariant
            pods@.len() == usages@.len(),
            i <= pods@.len(),
            out@.len() == i,
            forall|k: int| 0 <= k < i ==> describes(#[trigger] out@[k], pods@[k], usages@[k]),
        decreases pods.len() - i,
    {
        let info = get_pod_info(&pods[i], &usages[i]);
        out.push(info);
        i = i + 1;
    }
    out
}

/// When `infos` are the records of `pods` and every successful lookup yields some usage
/// figure, the records without usage are exactly as many as the failed lookups.
pub proof fn lemma_failed_lookups_counted(
    pods: Seq<PodSummary>,
    usages: Seq<Option<UsageReading>>,
    infos: Seq<PodResourceInfo>,
)
    requires
        pods.len() == usages.len(),
        infos.len() == pods.len(),
        forall|i: int| 0 <= i < pods.len() ==> describes(#[trigger] infos[i], pods[i], usages[i]),
        forall|i: int| 0 <= i < usages.len() && (#[trigger] usages[i]) is Some ==> reading_usable(
            usages[i]->0,
        ),
    ensures
        count_absent(infos) == count_failed(usages),
    decreases pods.len(),
{
    if pods.len() > 0 {
        let n = pods.len() - 1;
        assert(describes(infos[n], pods[n], usages[n]));
        if usages[n] is Some {
            assert(reading_usable(usages[n]->0));
        }
        assert(usage_absent(infos.last()) == (usages.last() is None));
        lemma_failed_lookups_counted(pods.drop_last(), usages.drop_last(), infos.drop_last());
    }
}

} // verus!
