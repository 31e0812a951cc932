use tinyfw::discovery::{discover, is_container_interface_name, InterfaceDescriptor};
use tinyfw::registry::AttachmentRegistry;
use tinyfw::attach::attach_plan;

fn descriptor(name: &str, index: u32) -> InterfaceDescriptor {
    InterfaceDescriptor { name: String::from(name), index }
}

#[test]
fn container_names_are_recognised_by_prefix() {
    assert!(is_container_interface_name(&String::from("veth0")));
    assert!(is_container_interface_name(&String::from("veth1a2b3c4")));
    assert!(is_container_interface_name(&String::from("veth")));
    assert!(!is_container_interface_name(&String::from("vet")));
    assert!(!is_container_interface_name(&String::from("")));
    assert!(!is_container_interface_name(&String::from("eth0")));
    assert!(!is_container_interface_name(&String::from("lo")));
    assert!(!is_container_interface_name(&String::from("xveth0")));
    assert!(!is_container_interface_name(&String::from("vETH0")));
}

#[test]
fn discover_selects_exactly_the_container_interfaces() {
    let all = vec![
        descriptor("lo", 1),
        descriptor("eth0", 2),
        descriptor("veth1a2b3c4", 7),
        descriptor("docker0", 5),
        descriptor("veth9f8e7d6", 9),
    ];
    let found = discover(&all);
    assert_eq!(found.len(), 2);
    assert_eq!(found[0].name, "veth1a2b3c4");
    assert_eq!(found[0].index, 7);
    assert_eq!(found[1].name, "veth9f8e7d6");
    assert_eq!(found[1].index, 9);
}

#[test]
fn discover_finds_nothing_without_container_interfaces() {
    let all = vec![descriptor("lo", 1), descriptor("eth0", 2)];
    assert_eq!(discover(&all).len(), 0);
    assert_eq!(discover(&Vec::new()).len(), 0);
}

#[test]
fn discovery_outcome_ignores_enumeration_order() {
    let one = vec![
        descriptor("veth0", 3),
        descriptor("eth0", 2),
        descriptor("veth1", 4),
    ];
    let other = vec![
        descriptor("veth1", 4),
        descriptor("veth0", 3),
        descriptor("eth0", 2),
    ];
    let mut names_one: Vec<String> =
        discover(&one).into_iter().map(|d| d.name).collect();
    let mut names_other: Vec<String> =
        discover(&other).into_iter().map(|d| d.name).collect();
    names_one.sort();
    names_other.sort();
    assert_eq!(names_one, names_other);
    assert_eq!(names_one, vec![String::from("veth0"), String::from("veth1")]);
}

#[test]
fn registry_records_attachments_permanently() {
    let mut registry = AttachmentRegistry::new();
    let name = String::from("veth0");
    assert!(!registry.contains(&name));
    registry.mark_attached(&name);
    assert!(registry.contains(&name));
    registry.mark_attached(&name);
    assert!(registry.contains(&name));
    assert!(!registry.contains(&String::from("veth1")));
}

#[test]
fn startup_with_two_container_interfaces_plans_two_attach_calls() {
    let all = vec![
        descriptor("lo", 1),
        descriptor("veth1a2b3c4", 7),
        descriptor("veth9f8e7d6", 9),
    ];
    let registry = AttachmentRegistry::new();
    let plan = attach_plan(&all, &registry);
    assert_eq!(
        plan,
        vec![String::from("veth1a2b3c4"), String::from("veth9f8e7d6")]
    );
}

#[test]
fn an_attached_interface_is_not_asked_for_again() {
    let all = vec![descriptor("veth0", 3), descriptor("veth1", 4)];
    let mut registry = AttachmentRegistry::new();
    registry.mark_attached(&String::from("veth0"));
    let plan = attach_plan(&all, &registry);
    assert_eq!(plan, vec![String::from("veth1")]);
}

#[test]
fn one_pass_asks_once_even_for_a_repeated_name() {
    let all = vec![descriptor("veth0", 3), descriptor("veth0", 3)];
    let registry = AttachmentRegistry::new();
    let plan = attach_plan(&all, &registry);
    assert_eq!(plan, vec![String::from("veth0")]);
}

#[test]
fn a_fully_covered_enumeration_plans_no_calls() {
    let all = vec![descriptor("veth0", 3), descriptor("veth1", 4)];
    let mut registry = AttachmentRegistry::new();
    registry.mark_attached(&String::from("veth0"));
    registry.mark_attached(&String::from("veth1"));
    assert_eq!(attach_plan(&all, &registry).len(), 0);
}

#[test]
fn non_container_interfaces_are_never_planned() {
    let all = vec![descriptor("lo", 1), descriptor("eth0", 2)];
    let registry = AttachmentRegistry::new();
    assert_eq!(attach_plan(&all, &registry).len(), 0);
}
