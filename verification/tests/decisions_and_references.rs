use netbox_controller::dcim::{
    device_status_from_text, site_status_from_text, vlan_status_from_text, DeviceStatus, SiteStatus, VlanStatus,
};
use netbox_controller::engine::Topic;
use netbox_controller::messages::event_message;
use netbox_controller::dcim::PrimaryIpReference;
use netbox_controller::decisions::{
    decimal_text, desired_tag_names, drift_detection_enabled, failed_patch, failure_already_recorded,
    failure_into_error, failure_status_message, interface_resource_name, parent_gate, pending_patch, primary_ip_address,
    split_interface_reference, vlan_creation_deferred, ParentGate,
};
use netbox_controller::dependency::{
    extract_name_and_namespace, resolve_dependency_id, resolve_optional_dependency_id,
    resolve_required_dependency_id, validate_reference_kind,
};
use netbox_controller::engine::{is_conflict_error, is_device_conflict, Failure};
use netbox_controller::matching::{pick_candidate, select_candidate, Candidate, MatchRule, Pick};
use netbox_controller::model::{
    copy_opt_text, copy_texts, opt_text_eq, ControllerError, NetBoxError, NetBoxRecord, ResourceReference,
    ResourceState, ResourceStatus,
};
use netbox_controller::profiles::{profile_of, ResourceKind};

fn s(x: &str) -> String {
    x.to_string()
}

fn status(id: Option<u64>) -> ResourceStatus {
    ResourceStatus { netbox_id: id, netbox_url: None, state: ResourceState::Created, error: None }
}

fn reference(kind: &str, name: &str) -> ResourceReference {
    ResourceReference { api_group: s("dcops.microscaler.io"), kind: s(kind), name: s(name), namespace: Some(s("default")) }
}

fn cand(id: u64, name: Option<&str>, slug: &str, asset_tag: Option<&str>, number: u64) -> Candidate {
    Candidate {
        record: NetBoxRecord { id, url: format!("http://netbox/api/x/{}/", id), tag_names: vec![] },
        name: name.map(s),
        slug: s(slug),
        asset_tag: asset_tag.map(s),
        number,
    }
}

#[test]
fn test_reconcile_mac_address_invalid_interface_format() {
    assert!(split_interface_reference("eth0").is_none());
    assert!(split_interface_reference("a/b/c").is_none());
    assert!(split_interface_reference("").is_none());
}

#[test]
fn interface_reference_splits_at_its_only_slash() {
    assert_eq!(split_interface_reference("server-01/eth0"), Some((s("server-01"), s("eth0"))));
    assert_eq!(split_interface_reference("/eth0"), Some((s(""), s("eth0"))));
    assert_eq!(split_interface_reference("dev/"), Some((s("dev"), s(""))));
    assert_eq!(interface_resource_name("server-01", "eth0"), "server-01-eth0");
}

#[test]
fn test_reconcile_interface_device_no_status() {
    assert!(matches!(parent_gate(&Some(None)), ParentGate::NotYetCreated));
    assert!(matches!(parent_gate(&Some(Some(status(Some(0))))), ParentGate::NotYetCreated));
}

#[test]
fn test_reconcile_interface_device_not_found() {
    assert!(matches!(parent_gate(&None), ParentGate::Missing));
    assert!(matches!(parent_gate(&Some(Some(status(Some(100))))), ParentGate::Ready(100)));
}

#[test]
fn dependency_ids_come_from_created_statuses() {
    assert_eq!(resolve_dependency_id(&Some(status(Some(7)))), Some(7));
    assert_eq!(resolve_dependency_id(&Some(status(Some(0)))), None);
    assert_eq!(resolve_dependency_id(&Some(status(None))), None);
    assert_eq!(resolve_dependency_id(&None), None);
}

#[test]
fn test_reconcile_device_type_manufacturer_not_found() {
    let r = resolve_required_dependency_id(&None, "Manufacturer", "acme");
    match r {
        Err(ControllerError::InvalidConfig(m)) => assert_eq!(m, "Manufacturer not found: acme"),
        other => panic!("unexpected {:?}", other),
    }
    let r = resolve_required_dependency_id(&Some(None), "Manufacturer", "acme");
    match r {
        Err(ControllerError::InvalidConfig(m)) => assert_eq!(m, "Manufacturer not ready in NetBox: acme"),
        other => panic!("unexpected {:?}", other),
    }
    assert!(matches!(resolve_required_dependency_id(&Some(Some(status(Some(3)))), "Manufacturer", "acme"), Ok(3)));
}

#[test]
fn optional_dependencies_resolve_to_none_when_absent() {
    assert_eq!(resolve_optional_dependency_id(false, &Some(Some(status(Some(3))))), None);
    assert_eq!(resolve_optional_dependency_id(true, &Some(Some(status(Some(3))))), Some(3));
    assert_eq!(resolve_optional_dependency_id(true, &None), None);
}

#[test]
fn references_must_point_at_the_expected_kind() {
    assert!(validate_reference_kind(&reference("NetBoxTenant", "t"), "NetBoxTenant", "tenant").is_ok());
    match validate_reference_kind(&reference("NetBoxSite", "t"), "NetBoxTenant", "tenant") {
        Err(ControllerError::InvalidConfig(m)) => assert_eq!(m, "tenant must reference a NetBoxTenant"),
        other => panic!("unexpected {:?}", other),
    }
}

#[test]
fn resources_need_name_and_namespace() {
    assert_eq!(extract_name_and_namespace("NetBoxSite", &Some(s("a")), &Some(s("ns"))).unwrap(), (s("a"), s("ns")));
    assert!(matches!(extract_name_and_namespace("NetBoxSite", &None, &Some(s("ns"))), Err(ControllerError::InvalidConfig(_))));
    assert!(matches!(extract_name_and_namespace("NetBoxSite", &Some(s("a")), &None), Err(ControllerError::InvalidConfig(_))));
}

#[test]
fn drift_detection_defaults_to_on() {
    assert!(drift_detection_enabled(None));
    assert!(drift_detection_enabled(Some(true)));
    assert!(!drift_detection_enabled(Some(false)));
}

#[test]
fn tag_names_come_from_references() {
    assert_eq!(desired_tag_names(&None), None);
    assert_eq!(
        desired_tag_names(&Some(vec![reference("NetBoxTag", "prod"), reference("NetBoxTag", "edge")])),
        Some(vec![s("prod"), s("edge")])
    );
}

#[test]
fn vlan_creation_waits_for_a_named_site() {
    assert!(vlan_creation_deferred(true, None));
    assert!(!vlan_creation_deferred(true, Some(3)));
    assert!(!vlan_creation_deferred(false, None));
}

#[test]
fn test_reconcile_device_with_primary_ip() {
    let by_claim = Some(PrimaryIpReference { ip_claim_ref: Some(reference("IPClaim", "claim")), ip_address: None });
    assert_eq!(primary_ip_address(&by_claim, &Some(s("10.0.0.5/24"))), Some(s("10.0.0.5/24")));
    assert_eq!(primary_ip_address(&by_claim, &None), None);
    let by_address = Some(PrimaryIpReference { ip_claim_ref: None, ip_address: Some(s("10.0.0.6/24")) });
    assert_eq!(primary_ip_address(&by_address, &Some(s("ignored"))), Some(s("10.0.0.6/24")));
    assert_eq!(primary_ip_address(&None, &Some(s("ignored"))), None);
}

#[test]
fn pending_and_failed_status_patches() {
    let p = pending_patch(s("Resource was deleted in NetBox"));
    assert_eq!(p.netbox_id, 0);
    assert_eq!(p.netbox_url, "");
    assert_eq!(p.state, ResourceState::Pending);
    assert_eq!(p.error, Some(s("Resource was deleted in NetBox")));
    let f = failed_patch(s("boom"));
    assert_eq!(f.state, ResourceState::Failed);
    assert_eq!(f.error, Some(s("boom")));
}

#[test]
fn failure_recorded_once() {
    let st = Some(ResourceStatus { netbox_id: None, netbox_url: None, state: ResourceState::Failed, error: Some(s("boom")) });
    assert!(failure_already_recorded(&st, &s("boom")));
    assert!(!failure_already_recorded(&st, &s("other")));
    assert!(!failure_already_recorded(&None, &s("boom")));
}

#[test]
fn decimal_writing() {
    assert_eq!(decimal_text(0), "0");
    assert_eq!(decimal_text(7), "7");
    assert_eq!(decimal_text(100), "100");
    assert_eq!(decimal_text(18446744073709551615), "18446744073709551615");
}

#[test]
fn failures_become_controller_errors() {
    let e = failure_into_error(ResourceKind::Vlan, "100", Failure::Create(NetBoxError::Api(s("bad vid"))));
    assert!(matches!(e, ControllerError::NetBox(NetBoxError::Api(ref m)) if m == "Failed to create VLAN in NetBox: bad vid"));
    let e = failure_into_error(ResourceKind::Site, "dc1", Failure::Create(NetBoxError::Api(s("bad"))));
    assert!(matches!(e, ControllerError::NetBox(NetBoxError::Api(ref m)) if m == "bad"));
    let e = failure_into_error(ResourceKind::Manufacturer, "acme", Failure::ConflictUnresolved(NetBoxError::Conflict(s("dup"))));
    assert!(matches!(e, ControllerError::NetBox(NetBoxError::Api(ref m))
        if m == "Manufacturer acme already exists in NetBox but could not retrieve it: dup"));
    let e = failure_into_error(ResourceKind::Device, "d", Failure::NameMissing);
    assert!(matches!(e, ControllerError::InvalidConfig(ref m) if m == "Device name is required"));
    let e = failure_into_error(ResourceKind::Device, "d", Failure::StatusWrite(s("forbidden")));
    assert!(matches!(e, ControllerError::Kube(ref m) if m == "forbidden"));
    let e = failure_into_error(ResourceKind::Device, "d", Failure::Fetch(NetBoxError::Api(s("x"))));
    assert!(matches!(e, ControllerError::NetBox(NetBoxError::Api(_))));
    let e = failure_into_error(ResourceKind::Device, "d", Failure::Update(NetBoxError::NotFound(s("x"))));
    assert!(matches!(e, ControllerError::NetBox(NetBoxError::NotFound(_))));
    let e = failure_into_error(ResourceKind::Device, "d", Failure::Dependency(ControllerError::TokenResolution(s("no token"))));
    assert!(matches!(e, ControllerError::TokenResolution(_)));
    let e = failure_into_error(ResourceKind::Device, "d", Failure::UnexpectedEvent);
    assert!(matches!(e, ControllerError::InvalidConfig(_)));
}

#[test]
fn conflict_errors() {
    assert!(is_conflict_error(&NetBoxError::Conflict(s("x"))));
    assert!(is_conflict_error(&NetBoxError::Api(s("slug already exists"))));
    assert!(!is_conflict_error(&NetBoxError::Api(s("bad request"))));
    assert!(!is_conflict_error(&NetBoxError::NotFound(s("already exists"))));
    assert!(is_device_conflict(&NetBoxError::Api(s("duplicate asset tag"))));
    assert!(is_device_conflict(&NetBoxError::NotFound(s("already exists"))));
    assert!(!is_device_conflict(&NetBoxError::Conflict(s("duplicate"))));
}

#[test]
fn targeted_queries_take_first_or_last() {
    let v = vec![cand(1, Some("a"), "a", None, 0), cand(2, Some("a"), "a", None, 0)];
    assert_eq!(pick_candidate(Pick::First, &v), Some(0));
    assert_eq!(pick_candidate(Pick::Last, &v), Some(1));
    assert_eq!(pick_candidate(Pick::Last, &vec![]), None);
}

#[test]
fn full_listings_are_matched_by_rule() {
    let v = vec![
        cand(1, Some("other"), "other", None, 5),
        cand(2, Some("dc1"), "dc-1", Some("AT-9"), 100),
        cand(3, Some("dc2"), "dc1", Some("AT-1"), 7),
    ];
    assert_eq!(select_candidate(&MatchRule::NameOrSlug { name: s("dc1"), slug: None }, &v), Some(1));
    assert_eq!(select_candidate(&MatchRule::NameOrSlug { name: s("zz"), slug: Some(s("dc1")) }, &v), Some(2));
    assert_eq!(select_candidate(&MatchRule::NameOrSlug { name: s("zz"), slug: None }, &v), None);
    assert_eq!(select_candidate(&MatchRule::NumberOrName { number: 7, name: s("zz") }, &v), Some(2));
    assert_eq!(
        select_candidate(&MatchRule::ModelOrSlug { model: s("dc1"), manufacturer_id: 100, slug: None }, &v),
        Some(1)
    );
    assert_eq!(
        select_candidate(&MatchRule::ModelOrSlug { model: s("dc1"), manufacturer_id: 99, slug: None }, &v),
        None
    );
    // the asset tag wins over the name, wherever it stands
    assert_eq!(select_candidate(&MatchRule::AssetTagThenName { asset_tag: Some(s("AT-1")), name: s("dc1") }, &v), Some(2));
    assert_eq!(select_candidate(&MatchRule::AssetTagThenName { asset_tag: Some(s("none")), name: s("dc1") }, &v), Some(1));
    assert_eq!(select_candidate(&MatchRule::AssetTagThenName { asset_tag: None, name: s("dc2") }, &v), Some(2));
}

#[test]
fn profiles_differ_where_the_kinds_differ() {
    assert!(!profile_of(ResourceKind::Manufacturer).has_dependencies);
    assert!(profile_of(ResourceKind::Location).deps_after_fetch);
    assert!(!profile_of(ResourceKind::Role).field_drift);
    assert!(profile_of(ResourceKind::Site).failure_status);
    assert!(matches!(profile_of(ResourceKind::Role).lookup_pick, Pick::Last));
}

#[test]
fn copies_keep_their_contents() {
    assert_eq!(copy_opt_text(&Some(s("a"))), Some(s("a")));
    assert_eq!(copy_opt_text(&None), None);
    assert!(opt_text_eq(&Some(s("a")), &Some(s("a"))));
    assert!(!opt_text_eq(&Some(s("a")), &None));
    assert_eq!(copy_texts(&vec![s("x"), s("y")]), vec![s("x"), s("y")]);
}

#[test]
fn failure_status_messages() {
    let e = NetBoxError::Api(s("tenant is required"));
    assert_eq!(failure_status_message(ResourceKind::Site, "dc1", &e, false), "Failed to create site in NetBox: tenant is required");
    assert_eq!(
        failure_status_message(ResourceKind::Site, "dc1", &e, true),
        "Site dc1 already exists in NetBox but could not retrieve it: tenant is required"
    );
}

#[test]
fn test_reconcile_mac_address_device_not_found() {
    let (device, _interface) = split_interface_reference("missing-device/eth0").unwrap();
    assert_eq!(device, "missing-device");
    assert!(matches!(parent_gate(&None), ParentGate::Missing));
}

#[test]
fn test_reconcile_mac_address_interface_not_found() {
    let (device, interface) = split_interface_reference("server-01/eth9").unwrap();
    assert_eq!(interface_resource_name(&device, &interface), "server-01-eth9");
    assert!(matches!(parent_gate(&None), ParentGate::Missing));
    assert!(matches!(parent_gate(&Some(None)), ParentGate::NotYetCreated));
}

#[test]
fn test_reconcile_platform_manufacturer_not_found() {
    // an optional reference to a missing resource resolves to nothing
    assert_eq!(resolve_optional_dependency_id(true, &None), None);
}

#[test]
fn netbox_status_values_are_read_back() {
    assert_eq!(site_status_from_text("planned"), Some(SiteStatus::Planned));
    assert_eq!(site_status_from_text("decommissioning"), None);
    assert_eq!(device_status_from_text("decommissioning"), Some(DeviceStatus::Decommissioning));
    assert_eq!(device_status_from_text("Active"), None);
    assert_eq!(vlan_status_from_text("reserved"), Some(VlanStatus::Reserved));
    assert_eq!(vlan_status_from_text(""), None);
}

#[test]
fn event_texts() {
    assert_eq!(
        event_message(ResourceKind::Region, "default", "eu", "Europe", &Topic::RecordCreated(7)),
        "Created region Europe in NetBox (ID: 7)"
    );
    assert_eq!(
        event_message(ResourceKind::Manufacturer, "default", "acme", "acme", &Topic::FieldsDiffer),
        "NetBoxManufacturer default/acme fields differ from CRD, updating to match Git"
    );
    assert_eq!(
        event_message(ResourceKind::Device, "ns", "d", "d", &Topic::TagsUpdated),
        "Updated NetBoxDevice ns/d tags in NetBox"
    );
    assert_eq!(
        event_message(ResourceKind::DeviceRole, "ns", "r", "r", &Topic::UpdateFailed(NetBoxError::Api(s("boom")))),
        "Failed to update NetBoxDeviceRole ns/r in NetBox: boom"
    );
    assert_eq!(
        event_message(ResourceKind::Vlan, "ns", "v", "100", &Topic::DependencyMissing(ControllerError::InvalidConfig(s("Tenant not found: t")))),
        "Tenant not found: t"
    );
}
