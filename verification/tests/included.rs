use keygen_rs::included::{
    included_component, included_group, included_kind, IncludedItem, IncludedKind,
};

fn item(kind: &str) -> IncludedItem {
    IncludedItem {
        kind: Some(kind.to_string()),
        id: Some("id-1".to_string()),
        has_attributes: true,
        ..Default::default()
    }
}

#[test]
fn included_resources_are_read_by_type() {
    assert_eq!(included_kind(&item("entitlements")), IncludedKind::Entitlement);
    assert_eq!(included_kind(&item("components")), IncludedKind::Component);
    assert_eq!(included_kind(&item("groups")), IncludedKind::Group);
    assert_eq!(included_kind(&item("machines")), IncludedKind::Machine);
    assert_eq!(included_kind(&item("licenses")), IncludedKind::Other);
    assert_eq!(included_kind(&IncludedItem::default()), IncludedKind::Other);
}

#[test]
fn a_component_needs_its_fingerprint_and_name() {
    let mut component = item("components");
    assert!(included_component(&component).is_none());
    component.fingerprint = Some("fp".to_string());
    component.name = Some("CPU".to_string());
    let c = included_component(&component).unwrap();
    assert_eq!((c.id.as_str(), c.fingerprint.as_str(), c.name.as_str()), ("id-1", "fp", "CPU"));
    component.has_attributes = false;
    assert!(included_component(&component).is_none());
}

#[test]
fn a_group_defaults_its_name_and_narrows_its_limits() {
    let mut group = item("groups");
    group.max_users = Some(10);
    group.max_machines = Some(4_294_967_297);
    let g = included_group(&group).unwrap();
    assert_eq!(g.name, "Unknown Group");
    assert_eq!(g.max_users, Some(10));
    assert_eq!(g.max_licenses, None);
    assert_eq!(g.max_machines, Some(1));
    group.name = Some("Team".to_string());
    assert_eq!(included_group(&group).unwrap().name, "Team");
    group.id = None;
    assert!(included_group(&group).is_none());
}
