use scalestorm_api::quantity::{parse_resource, ResourceQuantity};
use scalestorm_api::resources::{
    aggregate, get_pod_info, parse_cpu, parse_memory, pod_usage, ContainerResources, PodSummary,
    UsageReading,
};

fn q(value: i64, unit: &str) -> Option<ResourceQuantity> {
    Some(ResourceQuantity { value, unit: unit.to_string() })
}

fn container(
    cpu_limit: Option<&str>,
    cpu_request: Option<&str>,
    memory_limit: Option<&str>,
    memory_request: Option<&str>,
) -> ContainerResources {
    ContainerResources {
        cpu_limit: cpu_limit.map(|s| s.to_string()),
        cpu_request: cpu_request.map(|s| s.to_string()),
        memory_limit: memory_limit.map(|s| s.to_string()),
        memory_request: memory_request.map(|s| s.to_string()),
    }
}

fn pod(name: &str, containers: Vec<ContainerResources>) -> PodSummary {
    PodSummary { name: name.to_string(), namespace: "default".to_string(), containers }
}

fn reading(cpu: &str, memory: &str) -> Option<UsageReading> {
    Some(UsageReading { cpu: Some(cpu.to_string()), memory: Some(memory.to_string()) })
}

#[test]
fn parse_milli_cpu() {
    assert_eq!(parse_resource(Some("500m")), q(500, "m"));
}

#[test]
fn parse_binary_suffix() {
    assert_eq!(parse_resource(Some("2Gi")), q(2, "Gi"));
}

#[test]
fn parse_plain_number_has_empty_unit() {
    assert_eq!(parse_resource(Some("128974848")), q(128974848, ""));
}

#[test]
fn parse_leading_zeros() {
    assert_eq!(parse_resource(Some("007Ki")), q(7, "Ki"));
}

#[test]
fn parse_stops_at_first_non_letter() {
    assert_eq!(parse_resource(Some("1.5Gi")), q(1, ""));
    assert_eq!(parse_resource(Some("64Mi extra")), q(64, "Mi"));
}

#[test]
fn parse_absent_empty_and_letters_only() {
    assert_eq!(parse_resource(None), None);
    assert_eq!(parse_resource(Some("")), None);
    assert_eq!(parse_resource(Some("abc")), None);
}

#[test]
fn parse_needs_leading_digit() {
    assert_eq!(parse_resource(Some("m500")), None);
    assert_eq!(parse_resource(Some(" 5")), None);
}

#[test]
fn parse_largest_value() {
    assert_eq!(parse_resource(Some("9223372036854775807n")), q(i64::MAX, "n"));
    assert_eq!(parse_resource(Some("9223372036854775808")), None);
}

#[test]
fn cpu_takes_first_container_declaring_it() {
    let p = pod(
        "web",
        vec![
            container(None, Some("100m"), Some("64Mi"), None),
            container(Some("2"), Some("250m"), Some("1Gi"), Some("512Mi")),
        ],
    );
    assert_eq!(parse_cpu(&p, true), q(2, ""));
    assert_eq!(parse_cpu(&p, false), q(100, "m"));
    assert_eq!(parse_memory(&p, true), q(64, "Mi"));
    assert_eq!(parse_memory(&p, false), q(512, "Mi"));
}

#[test]
fn undecodable_declaration_falls_through() {
    let p = pod("web", vec![container(Some("lots"), None, None, None), container(Some("3"), None, None, None)]);
    assert_eq!(parse_cpu(&p, true), q(3, ""));
}

#[test]
fn pod_without_containers_has_no_figures() {
    let p = pod("empty", vec![]);
    assert_eq!(parse_cpu(&p, true), None);
    assert_eq!(parse_memory(&p, false), None);
}

#[test]
fn pod_info_merges_usage() {
    let p = pod("web", vec![container(Some("1"), Some("500m"), Some("1Gi"), Some("256Mi"))]);
    let info = get_pod_info(&p, &reading("12m", "40Mi"));
    assert_eq!(info.name, "web");
    assert_eq!(info.namespace, "default");
    assert_eq!(info.cpu.limit, q(1, ""));
    assert_eq!(info.cpu.request, q(500, "m"));
    assert_eq!(info.cpu.usage, q(12, "m"));
    assert_eq!(info.memory.limit, q(1, "Gi"));
    assert_eq!(info.memory.request, q(256, "Mi"));
    assert_eq!(info.memory.usage, q(40, "Mi"));
}

#[test]
fn pod_info_without_metrics() {
    let p = pod("web", vec![container(Some("1"), None, None, None)]);
    let info = get_pod_info(&p, &None);
    assert_eq!(info.cpu.limit, q(1, ""));
    assert_eq!(info.cpu.usage, None);
    assert_eq!(info.memory.usage, None);
}

#[test]
fn aggregate_isolates_failed_lookups() {
    let pods = vec![
        pod("a", vec![container(Some("1"), None, None, None)]),
        pod("b", vec![]),
        pod("c", vec![]),
        pod("d", vec![container(None, None, Some("2Gi"), None)]),
    ];
    let usages = vec![reading("5m", "10Mi"), None, reading("7m", "20Mi"), None];
    let infos = aggregate(&pods, &usages);
    assert_eq!(infos.len(), 4);
    let names: Vec<&str> = infos.iter().map(|i| i.name.as_str()).collect();
    assert_eq!(names, vec!["a", "b", "c", "d"]);
    let absent = infos.iter().filter(|i| i.cpu.usage.is_none() && i.memory.usage.is_none()).count();
    assert_eq!(absent, 2);
    assert_eq!(infos[0].cpu.usage, q(5, "m"));
    assert_eq!(infos[3].memory.limit, q(2, "Gi"));
}

#[test]
fn aggregate_when_every_lookup_fails() {
    let pods = vec![pod("a", vec![]), pod("b", vec![])];
    let infos = aggregate(&pods, &vec![None, None]);
    assert_eq!(infos.len(), 2);
    assert!(infos.iter().all(|i| i.cpu.usage.is_none() && i.memory.usage.is_none()));
}

#[test]
fn aggregate_of_no_pods() {
    assert!(aggregate(&vec![], &vec![]).is_empty());
}

#[test]
fn pod_usage_takes_first_container() {

    let first = reading("3m", "9Mi");
    let readings = vec![first.clone(), reading("100m", "1Gi")];
    let usage = pod_usage(&readings).unwrap();
    assert_eq!(usage.cpu.as_deref(), Some("3m"));
    assert_eq!(usage.memory.as_deref(), Some("9Mi"));
    assert!(pod_usage(&vec![None, reading("1m", "1Mi")]).is_none());
    assert!(pod_usage(&vec![]).is_none());
}
