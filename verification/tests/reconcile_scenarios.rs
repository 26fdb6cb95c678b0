use netbox_controller::dcim::{
    DeviceRoleSpec, DeviceSpec, DeviceStatus, DeviceTypeSpec, InterfaceSpec, LocationSpec, MacAddressSpec,
    ManufacturerSpec, PlatformSpec, RegionSpec, SiteSpec, SiteStatus, VlanSpec, VlanStatus,
};
use netbox_controller::engine::{start, Action, Event, Failure, Machine, Note, Outcome, QueryStrategy, Reason, Topic, Transition};
use netbox_controller::extras::{RoleSpec, TagSpec};
use netbox_controller::inputs::{
    device_inputs, device_role_inputs, device_type_inputs, interface_inputs, location_inputs, mac_address_inputs,
    manufacturer_inputs, platform_inputs, region_inputs, role_inputs, site_inputs, tag_inputs, vlan_inputs,
};
use netbox_controller::matching::Candidate;
use netbox_controller::model::{ControllerError, NetBoxError, NetBoxRecord, ResourceReference, ResourceState, ResourceStatus};
use netbox_controller::profiles::{profile_of, ResourceKind};

fn record(id: u64, tags: &[&str]) -> NetBoxRecord {
    NetBoxRecord {
        id,
        url: format!("http://test-netbox/api/objects/{}/", id),
        tag_names: tags.iter().map(|t| t.to_string()).collect(),
    }
}

fn candidate(id: u64, name: &str, slug: &str) -> Candidate {
    Candidate { record: record(id, &[]), name: Some(name.to_string()), slug: slug.to_string(), asset_tag: None, number: 0 }
}

fn created_status(id: u64) -> Option<ResourceStatus> {
    Some(ResourceStatus {
        netbox_id: Some(id),
        netbox_url: Some(format!("http://test-netbox/api/objects/{}/", id)),
        state: ResourceState::Created,
        error: None,
    })
}

fn reference(kind: &str, name: &str) -> ResourceReference {
    ResourceReference {
        api_group: "dcops.microscaler.io".to_string(),
        kind: kind.to_string(),
        name: name.to_string(),
        namespace: Some("default".to_string()),
    }
}

fn manufacturer_spec(name: &str) -> ManufacturerSpec {
    ManufacturerSpec {
        name: name.to_string(),
        slug: Some(name.to_string()),
        description: None,
        comments: None,
        tags: None,
        drift_detection: None,
    }
}

fn region_spec(name: &str, parent: Option<ResourceReference>) -> RegionSpec {
    RegionSpec {
        name: name.to_string(),
        slug: Some(name.to_string()),
        parent,
        description: None,
        comments: None,
        tags: None,
        drift_detection: None,
    }
}

fn device_spec(name: Option<&str>, asset_tag: Option<&str>) -> DeviceSpec {
    DeviceSpec {
        name: name.map(|n| n.to_string()),
        device_type: reference("NetBoxDeviceType", "server-type"),
        device_role: reference("NetBoxDeviceRole", "server"),
        site: reference("NetBoxSite", "dc1"),
        location: None,
        tenant: reference("NetBoxTenant", "tenant-a"),
        platform: None,
        serial: None,
        asset_tag: asset_tag.map(|t| t.to_string()),
        status: DeviceStatus::Active,
        primary_ip4: None,
        primary_ip6: None,
        description: None,
        comments: None,
        tags: None,
        drift_detection: None,
    }
}

fn step(m: Machine, e: Event) -> (Machine, Transition) {
    m.step(e)
}

fn is_write_status_of(a: &Action, id: u64) -> bool {
    match a {
        Action::WriteStatus(p) => p.netbox_id == id && p.state == ResourceState::Created && p.error.is_none(),
        _ => false,
    }
}

fn is_success(a: &Action) -> bool {
    matches!(a, Action::Finish(Outcome::Success))
}

/// Runs the creation path of a kind that resolves no dependency and
/// reports the record it creates: lookup finds nothing, the create succeeds
/// and the status is written.
fn create_path(kind: ResourceKind, i: netbox_controller::engine::Inputs, new_id: u64) {
    let (m, t) = start(profile_of(kind), i);
    assert!(matches!(t.action, Action::Lookup));
    let (m, t) = step(m, Event::Listed(vec![]));
    assert!(matches!(t.action, Action::Create));
    let (m, t) = step(m, Event::Written(record(new_id, &[])));
    assert!(is_write_status_of(&t.action, new_id));
    let (_m, t) = step(m, Event::StatusWritten);
    assert!(is_success(&t.action));
}

#[test]
fn test_reconcile_manufacturer_create() {
    let (m, t) = start(profile_of(ResourceKind::Manufacturer), manufacturer_inputs(&manufacturer_spec("test-manufacturer"), None));
    assert!(t.notes.is_empty());
    assert!(matches!(t.action, Action::Lookup));
    let (m, t) = step(m, Event::Listed(vec![]));
    assert!(matches!(t.action, Action::Create));
    let (m, t) = step(m, Event::Written(record(1, &[])));
    assert_eq!(t.notes.len(), 1);
    assert!(matches!(t.notes[0], Note::Event(Reason::Created, Topic::RecordCreated(1))));
    assert!(is_write_status_of(&t.action, 1));
    let (m, t) = step(m, Event::StatusWritten);
    assert!(is_success(&t.action));
    assert!(m.record.is_some());
}

#[test]
fn test_reconcile_manufacturer_idempotent() {
    let i = manufacturer_inputs(&manufacturer_spec("test-manufacturer"), created_status(1));
    let (m, t) = start(profile_of(ResourceKind::Manufacturer), i);
    assert!(matches!(t.action, Action::Fetch { id: 1 }));
    let (m, t) = step(m, Event::Fetched(record(1, &[])));
    assert!(matches!(t.action, Action::CompareFields));
    let (m, t) = step(m, Event::Compared { drifted: false });
    assert!(t.notes.is_empty());
    assert!(is_write_status_of(&t.action, 1));
    let (_m, t) = step(m, Event::StatusWritten);
    assert!(is_success(&t.action));
}

#[test]
fn test_reconcile_manufacturer_conflict_handling() {
    // The idempotency lookup finds the existing manufacturer.
    let (m, _t) = start(profile_of(ResourceKind::Manufacturer), manufacturer_inputs(&manufacturer_spec("test-manufacturer"), None));
    let (m, t) = step(m, Event::Listed(vec![candidate(1, "test-manufacturer", "test-manufacturer")]));
    assert!(is_write_status_of(&t.action, 1));
    let (_m, t) = step(m, Event::StatusWritten);
    assert!(is_success(&t.action));
}

#[test]
fn manufacturer_create_conflict_is_resolved_by_query() {
    let (m, _t) = start(profile_of(ResourceKind::Manufacturer), manufacturer_inputs(&manufacturer_spec("acme"), None));
    let (m, _t) = step(m, Event::Listed(vec![]));
    let (m, t) = step(m, Event::WriteFailed(NetBoxError::Conflict("duplicate".to_string())));
    assert!(matches!(t.action, Action::ConflictQuery(QueryStrategy::First)));
    let (m, t) = step(m, Event::Listed(vec![candidate(7, "acme", "acme")]));
    assert!(is_write_status_of(&t.action, 7));
    let (_m, t) = step(m, Event::StatusWritten);
    assert!(is_success(&t.action));
}

#[test]
fn manufacturer_conflict_unresolved_reports_failure() {
    let mut spec = manufacturer_spec("acme");
    spec.slug = None;
    let (m, _t) = start(profile_of(ResourceKind::Manufacturer), manufacturer_inputs(&spec, None));
    let (m, _t) = step(m, Event::Listed(vec![]));
    let (m, t) = step(m, Event::WriteFailed(NetBoxError::Api("name already exists".to_string())));
    assert!(matches!(t.action, Action::ConflictQuery(QueryStrategy::First)));
    let (m, t) = step(m, Event::Listed(vec![]));
    // no slug: the second query is skipped, the full listing comes next
    assert!(matches!(t.action, Action::ConflictQuery(QueryStrategy::All)));
    let (_m, t) = step(m, Event::Listed(vec![candidate(3, "other", "other")]));
    assert!(matches!(t.action, Action::Finish(Outcome::Failed(Failure::ConflictUnresolved(_)))));
}

#[test]
fn manufacturer_create_error_that_is_no_conflict_fails() {
    let (m, _t) = start(profile_of(ResourceKind::Manufacturer), manufacturer_inputs(&manufacturer_spec("acme"), None));
    let (m, _t) = step(m, Event::Listed(vec![]));
    let (_m, t) = step(m, Event::WriteFailed(NetBoxError::Api("bad request".to_string())));
    assert_eq!(t.notes.len(), 1);
    assert!(matches!(t.notes[0], Note::Event(Reason::ReconciliationFailed, Topic::CreateFailed(_))));
    assert!(matches!(t.action, Action::Finish(Outcome::Failed(Failure::Create(NetBoxError::Api(_))))));
}

#[test]
fn test_reconcile_manufacturer_with_tags_update() {
    let mut spec = manufacturer_spec("test-manufacturer");
    spec.tags = Some(vec![reference("NetBoxTag", "production")]);
    let (m, _t) = start(profile_of(ResourceKind::Manufacturer), manufacturer_inputs(&spec, created_status(1)));
    let (m, _t) = step(m, Event::Fetched(record(1, &[])));
    let (m, t) = step(m, Event::Compared { drifted: false });
    assert!(matches!(t.action, Action::UpdateTags { id: 1 }));
    let (m, t) = step(m, Event::Written(record(1, &["production"])));
    assert!(matches!(t.notes[0], Note::Event(Reason::Updated, Topic::TagsUpdated)));
    assert!(is_write_status_of(&t.action, 1));
    let (_m, t) = step(m, Event::StatusWritten);
    assert!(is_success(&t.action));
}

#[test]
fn manufacturer_drift_update_failure_is_reported_and_fails() {
    let (m, _t) = start(profile_of(ResourceKind::Manufacturer), manufacturer_inputs(&manufacturer_spec("acme"), created_status(4)));
    let (m, _t) = step(m, Event::Fetched(record(4, &[])));
    let (m, t) = step(m, Event::Compared { drifted: true });
    assert!(matches!(t.notes[0], Note::Event(Reason::DriftDetected, Topic::FieldsDiffer)));
    assert!(matches!(t.action, Action::UpdateFields { id: 4 }));
    let (_m, t) = step(m, Event::WriteFailed(NetBoxError::Api("refused".to_string())));
    assert!(matches!(t.notes[0], Note::Event(Reason::ReconciliationFailed, Topic::UpdateFailed(_))));
    assert!(matches!(t.action, Action::Finish(Outcome::Failed(Failure::Update(_)))));
}

#[test]
fn test_reconcile_region_create() {
    let (m, t) = start(profile_of(ResourceKind::Region), region_inputs(&region_spec("test-region", None), None));
    assert!(matches!(t.action, Action::ResolveDependencies));
    let (m, t) = step(m, Event::DependenciesResolved);
    assert!(matches!(t.action, Action::Lookup));
    let (m, _t) = step(m, Event::Listed(vec![]));
    let (m, t) = step(m, Event::Written(record(10, &[])));
    assert!(is_write_status_of(&t.action, 10));
    let (_m, t) = step(m, Event::StatusWritten);
    assert!(is_success(&t.action));
}

#[test]
fn test_reconcile_region_idempotent() {
    let (m, _t) = start(profile_of(ResourceKind::Region), region_inputs(&region_spec("test-region", None), created_status(1)));
    let (m, t) = step(m, Event::DependenciesResolved);
    assert!(matches!(t.action, Action::Fetch { id: 1 }));
    let (m, _t) = step(m, Event::Fetched(record(1, &[])));
    let (m, t) = step(m, Event::Compared { drifted: false });
    assert!(is_write_status_of(&t.action, 1));
    let (_m, t) = step(m, Event::StatusWritten);
    assert!(is_success(&t.action));
}

#[test]
fn test_reconcile_region_with_parent() {
    let spec = region_spec("child", Some(reference("NetBoxRegion", "parent")));
    let (m, _t) = start(profile_of(ResourceKind::Region), region_inputs(&spec, None));
    let (_m, t) = step(
        m,
        Event::DependencyFailed { error: ControllerError::InvalidConfig("Parent region not found".to_string()), notify: true },
    );
    assert!(matches!(t.notes[0], Note::Event(Reason::DependencyNotFound, Topic::DependencyMissing(_))));
    assert!(matches!(t.action, Action::Finish(Outcome::Failed(Failure::Dependency(ControllerError::InvalidConfig(_))))));
}

#[test]
fn test_reconcile_site_group_create() {
    let i = region_inputs(&region_spec("test-site-group", None), None);
    let (m, _t) = start(profile_of(ResourceKind::SiteGroup), i);
    let (m, t) = step(m, Event::DependenciesResolved);
    assert!(matches!(t.action, Action::Lookup));
    let (m, _t) = step(m, Event::Listed(vec![]));
    let (m, t) = step(m, Event::Written(record(2, &[])));
    assert!(is_write_status_of(&t.action, 2));
    let (_m, t) = step(m, Event::StatusWritten);
    assert!(is_success(&t.action));
}

#[test]
fn region_deleted_in_netbox_is_recreated() {
    let (m, _t) = start(profile_of(ResourceKind::Region), region_inputs(&region_spec("r", None), created_status(8)));
    let (m, _t) = step(m, Event::DependenciesResolved);
    let (m, t) = step(m, Event::FetchFailed(NetBoxError::NotFound("no such region".to_string())));
    assert_eq!(t.notes.len(), 2);
    assert!(matches!(t.notes[0], Note::Event(Reason::DriftDetected, Topic::RecordDeleted)));
    assert!(matches!(t.notes[1], Note::MarkPending));
    assert!(matches!(t.action, Action::Lookup));
    let (m, t) = step(m, Event::Listed(vec![]));
    assert!(matches!(t.action, Action::Create));
    let (m, t) = step(m, Event::Written(record(9, &[])));
    assert!(is_write_status_of(&t.action, 9));
    let (_m, t) = step(m, Event::StatusWritten);
    assert!(is_success(&t.action));
}

#[test]
fn region_fetch_error_other_than_not_found_fails() {
    let (m, _t) = start(profile_of(ResourceKind::Region), region_inputs(&region_spec("r", None), created_status(8)));
    let (m, _t) = step(m, Event::DependenciesResolved);
    let (_m, t) = step(m, Event::FetchFailed(NetBoxError::Api("timeout".to_string())));
    assert!(matches!(t.action, Action::Finish(Outcome::Failed(Failure::Fetch(NetBoxError::Api(_))))));
}

fn site_spec() -> SiteSpec {
    SiteSpec {
        name: "dc1".to_string(),
        slug: Some("dc1".to_string()),
        description: None,
        physical_address: None,
        shipping_address: None,
        tenant: reference("NetBoxTenant", "tenant-a"),
        region: None,
        site_group: None,
        status: SiteStatus::Active,
        facility: None,
        time_zone: None,
        comments: None,
    }
}

#[test]
fn test_reconcile_site_create() {
    let (m, _t) = start(profile_of(ResourceKind::Site), site_inputs(&site_spec(), None));
    let (m, t) = step(m, Event::DependenciesResolved);
    assert!(matches!(t.action, Action::Lookup));
    let (m, _t) = step(m, Event::Listed(vec![]));
    let (m, t) = step(m, Event::Written(record(3, &[])));
    // sites record no creation event
    assert!(t.notes.is_empty());
    assert!(is_write_status_of(&t.action, 3));
    let (_m, t) = step(m, Event::StatusWritten);
    assert!(is_success(&t.action));
}

#[test]
fn test_reconcile_site_idempotent() {
    let (m, _t) = start(profile_of(ResourceKind::Site), site_inputs(&site_spec(), created_status(3)));
    let (m, _t) = step(m, Event::DependenciesResolved);
    let (m, t) = step(m, Event::Fetched(record(3, &[])));
    assert!(matches!(t.action, Action::CompareFields));
    let (_m, t) = step(m, Event::Compared { drifted: false });
    // the status is current: nothing more is written
    assert!(is_success(&t.action));
}

#[test]
fn test_reconcile_site_update() {
    let (m, _t) = start(profile_of(ResourceKind::Site), site_inputs(&site_spec(), created_status(3)));
    let (m, _t) = step(m, Event::DependenciesResolved);
    let (m, _t) = step(m, Event::Fetched(record(3, &[])));
    let (m, t) = step(m, Event::Compared { drifted: true });
    assert!(t.notes.is_empty());
    assert!(matches!(t.action, Action::UpdateFields { id: 3 }));
    let (_m, t) = step(m, Event::Written(record(3, &[])));
    assert!(is_success(&t.action));
}

#[test]
fn test_reconcile_site_drift_detection() {
    let (m, _t) = start(profile_of(ResourceKind::Site), site_inputs(&site_spec(), created_status(3)));
    let (m, _t) = step(m, Event::DependenciesResolved);
    let (m, _t) = step(m, Event::Fetched(record(3, &[])));
    let (m, _t) = step(m, Event::Compared { drifted: true });
    let (_m, t) = step(m, Event::WriteFailed(NetBoxError::Api("refused".to_string())));
    assert!(matches!(t.action, Action::Finish(Outcome::Failed(Failure::Update(_)))));
}

#[test]
fn test_reconcile_site_conflict_handling() {
    let (m, _t) = start(profile_of(ResourceKind::Site), site_inputs(&site_spec(), None));
    let (m, _t) = step(m, Event::DependenciesResolved);
    let (m, _t) = step(m, Event::Listed(vec![]));
    let (m, t) = step(m, Event::WriteFailed(NetBoxError::Conflict("exists".to_string())));
    assert!(matches!(t.action, Action::ConflictQuery(QueryStrategy::First)));
    let (m, t) = step(m, Event::Listed(vec![]));
    // the spec gives a slug: the query by slug comes second
    assert!(matches!(t.action, Action::ConflictQuery(QueryStrategy::Second)));
    let (m, t) = step(m, Event::Listed(vec![candidate(30, "dc1", "dc1")]));
    assert!(is_write_status_of(&t.action, 30));
    let (_m, t) = step(m, Event::StatusWritten);
    assert!(is_success(&t.action));
}

#[test]
fn site_create_failure_is_written_into_status() {
    let (m, _t) = start(profile_of(ResourceKind::Site), site_inputs(&site_spec(), None));
    let (m, _t) = step(m, Event::DependenciesResolved);
    let (m, _t) = step(m, Event::Listed(vec![]));
    let (_m, t) = step(m, Event::WriteFailed(NetBoxError::Api("invalid tenant".to_string())));
    assert_eq!(t.notes.len(), 1);
    assert!(matches!(t.notes[0], Note::MarkFailed { unresolved: false, .. }));
    assert!(matches!(t.action, Action::Finish(Outcome::Failed(Failure::Create(_)))));
}

#[test]
fn test_reconcile_site_tenant_dependency() {
    let (m, _t) = start(profile_of(ResourceKind::Site), site_inputs(&site_spec(), None));
    let (_m, t) = step(
        m,
        Event::DependencyFailed { error: ControllerError::InvalidConfig("Tenant not found".to_string()), notify: false },
    );
    assert!(t.notes.is_empty());
    assert!(matches!(t.action, Action::Finish(Outcome::Failed(Failure::Dependency(_)))));
}

#[test]
fn test_reconcile_device_create() {
    let spec = device_spec(Some("server-01"), None);
    let (m, _t) = start(profile_of(ResourceKind::Device), device_inputs(&spec, &"server-01".to_string(), None));
    let (m, t) = step(m, Event::DependenciesResolved);
    assert!(matches!(t.action, Action::Lookup));
    let (m, _t) = step(m, Event::Listed(vec![]));
    let (m, t) = step(m, Event::Written(record(100, &[])));
    assert!(matches!(t.notes[0], Note::Event(Reason::Created, Topic::RecordCreated(100))));
    let (_m, t) = step(m, Event::StatusWritten);
    assert!(is_success(&t.action));
}

#[test]
fn test_reconcile_device_idempotent() {
    let spec = device_spec(Some("server-01"), None);
    let i = device_inputs(&spec, &"server-01".to_string(), created_status(100));
    let (m, _t) = start(profile_of(ResourceKind::Device), i);
    let (m, t) = step(m, Event::DependenciesResolved);
    assert!(matches!(t.action, Action::Fetch { id: 100 }));
    let (m, _t) = step(m, Event::Fetched(record(100, &[])));
    let (_m, t) = step(m, Event::Compared { drifted: false });
    assert!(is_success(&t.action));
}

#[test]
fn test_reconcile_device_drift_detection() {
    let spec = device_spec(Some("server-01"), None);
    let i = device_inputs(&spec, &"server-01".to_string(), created_status(100));
    let (m, _t) = start(profile_of(ResourceKind::Device), i);
    let (m, _t) = step(m, Event::DependenciesResolved);
    let (m, _t) = step(m, Event::Fetched(record(100, &[])));
    let (m, t) = step(m, Event::Compared { drifted: true });
    assert!(matches!(t.notes[0], Note::Event(Reason::DriftDetected, Topic::FieldsDiffer)));
    let (_m, t) = step(m, Event::Written(record(100, &[])));
    assert!(matches!(t.notes[0], Note::Event(Reason::Updated, Topic::FieldsUpdated)));
    assert!(is_success(&t.action));
}

#[test]
fn test_reconcile_device_dependency_resolution() {
    let spec = device_spec(Some("server-01"), None);
    let (m, t) = start(profile_of(ResourceKind::Device), device_inputs(&spec, &"server-01".to_string(), None));
    assert!(matches!(t.action, Action::ResolveDependencies));
    let (_m, t) = step(
        m,
        Event::DependencyFailed { error: ControllerError::InvalidConfig("DeviceType not found".to_string()), notify: true },
    );
    assert!(matches!(t.action, Action::Finish(Outcome::Failed(Failure::Dependency(_)))));
}

#[test]
fn device_without_name_is_refused() {
    let spec = device_spec(None, None);
    let (m, _t) = start(profile_of(ResourceKind::Device), device_inputs(&spec, &"srv".to_string(), None));
    let (m, _t) = step(m, Event::DependenciesResolved);
    let (_m, t) = step(m, Event::Listed(vec![]));
    assert!(matches!(t.action, Action::Finish(Outcome::Failed(Failure::NameMissing))));
}

#[test]
fn device_asset_tag_conflict_is_found_by_asset_tag() {
    let spec = device_spec(Some("server-01"), Some("AT-1"));
    let (m, _t) = start(profile_of(ResourceKind::Device), device_inputs(&spec, &"server-01".to_string(), None));
    let (m, _t) = step(m, Event::DependenciesResolved);
    let (m, _t) = step(m, Event::Listed(vec![]));
    let (m, t) = step(m, Event::WriteFailed(NetBoxError::Api("device with this asset tag exists".to_string())));
    assert!(matches!(t.action, Action::ConflictQuery(QueryStrategy::First)));
    let mut c = candidate(55, "other-name", "");
    c.asset_tag = Some("AT-1".to_string());
    let (m, t) = step(m, Event::Listed(vec![c]));
    assert!(is_write_status_of(&t.action, 55));
    let (_m, t) = step(m, Event::StatusWritten);
    assert!(is_success(&t.action));
}

#[test]
fn test_reconcile_device_role_create() {
    let spec = DeviceRoleSpec {
        name: "server".to_string(),
        slug: Some("server".to_string()),
        color: None,
        vm_role: false,
        description: None,
        comments: None,
        tags: None,
        drift_detection: None,
    };
    create_path(ResourceKind::DeviceRole, device_role_inputs(&spec, None), 5);
}

#[test]
fn device_role_create_conflict_is_final() {
    let spec = DeviceRoleSpec {
        name: "server".to_string(),
        slug: None,
        color: None,
        vm_role: false,
        description: None,
        comments: None,
        tags: None,
        drift_detection: None,
    };
    let (m, _t) = start(profile_of(ResourceKind::DeviceRole), device_role_inputs(&spec, None));
    let (m, _t) = step(m, Event::Listed(vec![]));
    let (_m, t) = step(m, Event::WriteFailed(NetBoxError::Conflict("exists".to_string())));
    assert!(matches!(t.action, Action::Finish(Outcome::Failed(Failure::Create(_)))));
}

#[test]
fn test_reconcile_device_type_create() {
    let spec = DeviceTypeSpec {
        manufacturer: reference("NetBoxManufacturer", "acme"),
        model: "X1".to_string(),
        slug: None,
        part_number: None,
        is_full_depth: true,
        description: None,
        comments: None,
        tags: None,
        drift_detection: None,
    };
    let (m, _t) = start(profile_of(ResourceKind::DeviceType), device_type_inputs(&spec, 2, None));
    let (m, t) = step(m, Event::DependenciesResolved);
    assert!(matches!(t.action, Action::Lookup));
    let (m, _t) = step(m, Event::Listed(vec![]));
    let (m, t) = step(m, Event::Written(record(12, &[])));
    assert!(is_write_status_of(&t.action, 12));
    let (_m, t) = step(m, Event::StatusWritten);
    assert!(is_success(&t.action));
}

fn interface_spec() -> InterfaceSpec {
    InterfaceSpec {
        device: "server-01".to_string(),
        name: "eth0".to_string(),
        interface_type: "1000base-t".to_string(),
        enabled: true,
        mac_address: None,
        mtu: None,
        description: None,
        comments: None,
        tags: None,
        drift_detection: None,
    }
}

#[test]
fn test_reconcile_interface_create() {
    create_path(ResourceKind::Interface, interface_inputs(&interface_spec(), None), 200);
}

#[test]
fn test_reconcile_interface_idempotent() {
    let (m, t) = start(profile_of(ResourceKind::Interface), interface_inputs(&interface_spec(), created_status(200)));
    assert!(matches!(t.action, Action::Fetch { id: 200 }));
    let (m, _t) = step(m, Event::Fetched(record(200, &[])));
    let (m, t) = step(m, Event::Compared { drifted: false });
    assert!(is_write_status_of(&t.action, 200));
    let (_m, t) = step(m, Event::StatusWritten);
    assert!(is_success(&t.action));
}

#[test]
fn interface_lookup_takes_the_last_answer() {
    let (m, _t) = start(profile_of(ResourceKind::Interface), interface_inputs(&interface_spec(), None));
    let (m, t) = step(m, Event::Listed(vec![candidate(1, "eth0", ""), candidate(2, "eth0", "")]));
    assert!(is_write_status_of(&t.action, 2));
    let (_m, t) = step(m, Event::StatusWritten);
    assert!(is_success(&t.action));
}

fn location_spec() -> LocationSpec {
    LocationSpec {
        site: reference("NetBoxSite", "dc1"),
        tenant: reference("NetBoxTenant", "tenant-a"),
        parent: None,
        name: "room-1".to_string(),
        slug: Some("room-1".to_string()),
        facility: None,
        description: None,
        comments: None,
        tags: None,
        drift_detection: None,
    }
}

#[test]
fn test_reconcile_location_create() {
    let (m, t) = start(profile_of(ResourceKind::Location), location_inputs(&location_spec(), None));
    // a location without a record resolves its dependencies before creating
    assert!(matches!(t.action, Action::ResolveDependencies));
    let (m, t) = step(m, Event::DependenciesResolved);
    assert!(matches!(t.action, Action::Lookup));
    let (m, _t) = step(m, Event::Listed(vec![]));
    let (m, t) = step(m, Event::Written(record(40, &[])));
    // locations record no creation event
    assert!(t.notes.is_empty());
    assert!(is_write_status_of(&t.action, 40));
    let (_m, t) = step(m, Event::StatusWritten);
    assert!(is_success(&t.action));
}

#[test]
fn test_reconcile_location_idempotent() {
    let (m, t) = start(profile_of(ResourceKind::Location), location_inputs(&location_spec(), created_status(40)));
    // the record is fetched before the dependencies are resolved
    assert!(matches!(t.action, Action::Fetch { id: 40 }));
    let (m, t) = step(m, Event::Fetched(record(40, &[])));
    assert!(matches!(t.action, Action::ResolveDependencies));
    let (m, t) = step(m, Event::DependenciesResolved);
    assert!(matches!(t.action, Action::CompareFields));
    let (m, t) = step(m, Event::Compared { drifted: false });
    assert!(is_write_status_of(&t.action, 40));
    let (_m, t) = step(m, Event::StatusWritten);
    assert!(is_success(&t.action));
}

#[test]
fn test_reconcile_location_site_not_found() {
    let (m, _t) = start(profile_of(ResourceKind::Location), location_inputs(&location_spec(), None));
    let (_m, t) = step(
        m,
        Event::DependencyFailed { error: ControllerError::InvalidConfig("Site not found".to_string()), notify: true },
    );
    assert!(matches!(t.action, Action::Finish(Outcome::Failed(Failure::Dependency(_)))));
}

#[test]
fn location_deleted_record_resolves_dependencies_then_recreates() {
    let (m, _t) = start(profile_of(ResourceKind::Location), location_inputs(&location_spec(), created_status(40)));
    let (m, t) = step(m, Event::FetchFailed(NetBoxError::NotFound("gone".to_string())));
    assert!(t.notes.is_empty());
    assert!(matches!(t.action, Action::ResolveDependencies));
    let (m, t) = step(m, Event::DependenciesResolved);
    assert!(matches!(t.notes[1], Note::MarkPending));
    assert!(matches!(t.action, Action::Lookup));
    let (_m, t) = step(m, Event::Listed(vec![]));
    assert!(matches!(t.action, Action::Create));
}

fn mac_spec() -> MacAddressSpec {
    MacAddressSpec {
        mac_address: "00:11:22:33:44:55".to_string(),
        interface: "server-01/eth0".to_string(),
        description: None,
        comments: None,
        tags: None,
        drift_detection: None,
    }
}

#[test]
fn test_reconcile_mac_address_create() {
    create_path(ResourceKind::MacAddress, mac_address_inputs(&mac_spec(), None), 300);
}

#[test]
fn test_reconcile_mac_address_idempotent() {
    let (m, t) = start(profile_of(ResourceKind::MacAddress), mac_address_inputs(&mac_spec(), created_status(300)));
    assert!(matches!(t.action, Action::Fetch { id: 300 }));
    let (m, _t) = step(m, Event::Fetched(record(300, &[])));
    let (_m, t) = step(m, Event::Compared { drifted: false });
    assert!(is_success(&t.action));
}

fn platform_spec() -> PlatformSpec {
    PlatformSpec {
        name: "linux".to_string(),
        slug: Some("linux".to_string()),
        manufacturer: None,
        napalm_driver: None,
        napalm_args: None,
        description: None,
        comments: None,
    }
}

#[test]
fn test_reconcile_platform_create() {
    let (m, _t) = start(profile_of(ResourceKind::Platform), platform_inputs(&platform_spec(), None));
    let (m, t) = step(m, Event::DependenciesResolved);
    assert!(matches!(t.action, Action::Lookup));
    let (m, _t) = step(m, Event::Listed(vec![]));
    let (m, t) = step(m, Event::Written(record(60, &[])));
    assert!(is_write_status_of(&t.action, 60));
    let (_m, t) = step(m, Event::StatusWritten);
    assert!(is_success(&t.action));
}

#[test]
fn test_reconcile_platform_idempotent() {
    let (m, _t) = start(profile_of(ResourceKind::Platform), platform_inputs(&platform_spec(), created_status(60)));
    let (m, _t) = step(m, Event::DependenciesResolved);
    let (_m, t) = step(m, Event::Fetched(record(60, &[])));
    // platforms are not compared, and the status is current
    assert!(is_success(&t.action));
}

fn vlan_spec(site: bool) -> VlanSpec {
    VlanSpec {
        vid: 100,
        name: "vlan-100".to_string(),
        site: if site { Some(reference("NetBoxSite", "dc1")) } else { None },
        tenant: reference("NetBoxTenant", "tenant-a"),
        role: None,
        status: VlanStatus::Active,
        description: None,
        comments: None,
        tags: None,
        drift_detection: None,
    }
}

#[test]
fn test_reconcile_vlan_create() {
    let (m, t) = start(profile_of(ResourceKind::Vlan), vlan_inputs(&vlan_spec(true), Some(3), None));
    assert!(matches!(t.action, Action::ResolveDependencies));
    let (m, t) = step(m, Event::DependenciesResolved);
    assert!(matches!(t.action, Action::Lookup));
    let (m, _t) = step(m, Event::Listed(vec![]));
    let (m, t) = step(m, Event::Written(record(70, &[])));
    assert!(is_write_status_of(&t.action, 70));
    let (_m, t) = step(m, Event::StatusWritten);
    assert!(is_success(&t.action));
}

#[test]
fn vlan_waits_for_its_site() {
    let (m, _t) = start(profile_of(ResourceKind::Vlan), vlan_inputs(&vlan_spec(true), None, None));
    let (_m, t) = step(m, Event::DependenciesResolved);
    assert!(t.notes.is_empty());
    assert!(is_success(&t.action));
}

#[test]
fn test_reconcile_vlan_idempotent() {
    let (m, t) = start(profile_of(ResourceKind::Vlan), vlan_inputs(&vlan_spec(false), None, created_status(70)));
    assert!(matches!(t.action, Action::Fetch { id: 70 }));
    let (m, _t) = step(m, Event::Fetched(record(70, &[])));
    let (m, t) = step(m, Event::DependenciesResolved);
    assert!(matches!(t.action, Action::CompareFields));
    let (m, t) = step(m, Event::Compared { drifted: false });
    assert!(is_write_status_of(&t.action, 70));
    let (_m, t) = step(m, Event::StatusWritten);
    assert!(is_success(&t.action));
}

#[test]
fn test_reconcile_vlan_tenant_not_found() {
    let (m, _t) = start(profile_of(ResourceKind::Vlan), vlan_inputs(&vlan_spec(false), None, None));
    let (_m, t) = step(
        m,
        Event::DependencyFailed { error: ControllerError::InvalidConfig("Tenant not found".to_string()), notify: true },
    );
    assert!(matches!(t.action, Action::Finish(Outcome::Failed(Failure::Dependency(_)))));
}

#[test]
fn test_reconcile_role_create() {
    let spec = RoleSpec { name: "core".to_string(), slug: None, description: None, weight: None, comments: None };
    create_path(ResourceKind::Role, role_inputs(&spec, None), 80);
}

#[test]
fn test_reconcile_role_idempotent() {
    let spec = RoleSpec { name: "core".to_string(), slug: None, description: None, weight: None, comments: None };
    let (m, t) = start(profile_of(ResourceKind::Role), role_inputs(&spec, created_status(80)));
    assert!(matches!(t.action, Action::Fetch { id: 80 }));
    let (_m, t) = step(m, Event::Fetched(record(80, &[])));
    assert!(is_success(&t.action));
}

#[test]
fn test_reconcile_role_conflict_handling() {
    let spec = RoleSpec { name: "core".to_string(), slug: Some("core".to_string()), description: None, weight: None, comments: None };
    let (m, _t) = start(profile_of(ResourceKind::Role), role_inputs(&spec, None));
    let (m, _t) = step(m, Event::Listed(vec![]));
    let (m, t) = step(m, Event::WriteFailed(NetBoxError::Api("role with this name already exists".to_string())));
    assert!(matches!(t.action, Action::ConflictQuery(QueryStrategy::First)));
    // role queries take the last answer
    let (m, t) = step(m, Event::Listed(vec![candidate(81, "core", "core"), candidate(82, "core", "core")]));
    assert!(is_write_status_of(&t.action, 82));
    let (_m, t) = step(m, Event::StatusWritten);
    assert!(is_success(&t.action));
}

#[test]
fn test_reconcile_tag_create() {
    let spec = TagSpec { name: "production".to_string(), slug: None, color: None, description: None, comments: None };
    let (m, _t) = start(profile_of(ResourceKind::Tag), tag_inputs(&spec, None));
    let (m, _t) = step(m, Event::Listed(vec![]));
    let (m, t) = step(m, Event::Written(record(10, &[])));
    // tags record no creation event
    assert!(t.notes.is_empty());
    assert!(is_write_status_of(&t.action, 10));
    let (_m, t) = step(m, Event::StatusWritten);
    assert!(is_success(&t.action));
}

#[test]
fn test_reconcile_tag_idempotent() {
    let spec = TagSpec { name: "production".to_string(), slug: None, color: None, description: None, comments: None };
    let (m, _t) = start(profile_of(ResourceKind::Tag), tag_inputs(&spec, created_status(10)));
    let (_m, t) = step(m, Event::Fetched(record(10, &[])));
    assert!(is_success(&t.action));
}

#[test]
fn test_reconcile_tag_conflict_handling() {
    let spec = TagSpec { name: "production".to_string(), slug: None, color: None, description: None, comments: None };
    let (m, _t) = start(profile_of(ResourceKind::Tag), tag_inputs(&spec, None));
    let (m, t) = step(m, Event::Listed(vec![candidate(10, "production", "production")]));
    assert!(is_write_status_of(&t.action, 10));
    let (_m, t) = step(m, Event::StatusWritten);
    assert!(is_success(&t.action));
}

#[test]
fn answer_that_does_not_fit_the_request_ends_the_reconciliation() {
    let (m, _t) = start(profile_of(ResourceKind::Tag), tag_inputs(
        &TagSpec { name: "t".to_string(), slug: None, color: None, description: None, comments: None },
        None,
    ));
    let (m, t) = step(m, Event::StatusWritten);
    assert!(matches!(t.action, Action::Finish(Outcome::Failed(Failure::UnexpectedEvent))));
    let (_m, t) = step(m, Event::StatusWritten);
    assert!(matches!(t.action, Action::Finish(Outcome::Failed(Failure::UnexpectedEvent))));
}

#[test]
fn status_write_failure_ends_with_that_failure() {
    let (m, _t) = start(profile_of(ResourceKind::Interface), interface_inputs(&interface_spec(), None));
    let (m, _t) = step(m, Event::Listed(vec![]));
    let (m, _t) = step(m, Event::Written(record(200, &[])));
    let (_m, t) = step(m, Event::StatusWriteFailed("forbidden".to_string()));
    assert!(matches!(t.action, Action::Finish(Outcome::Failed(Failure::StatusWrite(_)))));
}

#[test]
fn test_reconcile_manufacturer_with_tags_create() {
    let mut spec = manufacturer_spec("test-manufacturer");
    spec.tags = Some(vec![reference("NetBoxTag", "production")]);
    let (m, _t) = start(profile_of(ResourceKind::Manufacturer), manufacturer_inputs(&spec, None));
    let (m, _t) = step(m, Event::Listed(vec![]));
    // the create carries the tags: no separate tag update follows
    let (m, t) = step(m, Event::Written(record(1, &["production"])));
    assert!(is_write_status_of(&t.action, 1));
    let (_m, t) = step(m, Event::StatusWritten);
    assert!(is_success(&t.action));
}

fn device_role_spec(tags: Option<Vec<ResourceReference>>) -> DeviceRoleSpec {
    DeviceRoleSpec {
        name: "server".to_string(),
        slug: Some("server".to_string()),
        color: None,
        vm_role: false,
        description: None,
        comments: None,
        tags,
        drift_detection: None,
    }
}

#[test]
fn test_reconcile_device_role_idempotent() {
    let (m, t) = start(profile_of(ResourceKind::DeviceRole), device_role_inputs(&device_role_spec(None), created_status(5)));
    assert!(matches!(t.action, Action::Fetch { id: 5 }));
    let (m, _t) = step(m, Event::Fetched(record(5, &[])));
    let (m, t) = step(m, Event::Compared { drifted: false });
    assert!(is_write_status_of(&t.action, 5));
    let (_m, t) = step(m, Event::StatusWritten);
    assert!(is_success(&t.action));
}

#[test]
fn test_reconcile_device_role_with_tags_create() {
    let spec = device_role_spec(Some(vec![reference("NetBoxTag", "production")]));
    create_path(ResourceKind::DeviceRole, device_role_inputs(&spec, None), 6);
}

#[test]
fn test_reconcile_device_role_with_tags_update() {
    let spec = device_role_spec(Some(vec![reference("NetBoxTag", "production")]));
    let (m, _t) = start(profile_of(ResourceKind::DeviceRole), device_role_inputs(&spec, created_status(5)));
    let (m, _t) = step(m, Event::Fetched(record(5, &["old-tag"])));
    let (m, t) = step(m, Event::Compared { drifted: false });
    assert!(matches!(t.action, Action::UpdateTags { id: 5 }));
    let (m, t) = step(m, Event::Written(record(5, &["production"])));
    assert!(is_write_status_of(&t.action, 5));
    let (_m, t) = step(m, Event::StatusWritten);
    assert!(is_success(&t.action));
}

#[test]
fn device_role_fields_and_tags_are_written_once() {
    // a field update carries the tags: no separate tag update follows it
    let spec = device_role_spec(Some(vec![reference("NetBoxTag", "production")]));
    let (m, _t) = start(profile_of(ResourceKind::DeviceRole), device_role_inputs(&spec, created_status(5)));
    let (m, _t) = step(m, Event::Fetched(record(5, &["old-tag"])));
    let (m, t) = step(m, Event::Compared { drifted: true });
    assert!(matches!(t.action, Action::UpdateFields { id: 5 }));
    let (_m, t) = step(m, Event::Written(record(5, &["old-tag"])));
    assert!(is_write_status_of(&t.action, 5));
}

#[test]
fn test_reconcile_device_type_idempotent() {
    let spec = DeviceTypeSpec {
        manufacturer: reference("NetBoxManufacturer", "acme"),
        model: "X1".to_string(),
        slug: None,
        part_number: None,
        is_full_depth: true,
        description: None,
        comments: None,
        tags: None,
        drift_detection: None,
    };
    let (m, _t) = start(profile_of(ResourceKind::DeviceType), device_type_inputs(&spec, 2, created_status(12)));
    let (m, t) = step(m, Event::DependenciesResolved);
    assert!(matches!(t.action, Action::Fetch { id: 12 }));
    let (m, _t) = step(m, Event::Fetched(record(12, &[])));
    let (m, t) = step(m, Event::Compared { drifted: false });
    assert!(is_write_status_of(&t.action, 12));
    let (_m, t) = step(m, Event::StatusWritten);
    assert!(is_success(&t.action));
}

#[test]
fn test_reconcile_site_group_idempotent() {
    let i = region_inputs(&region_spec("test-site-group", None), created_status(2));
    let (m, _t) = start(profile_of(ResourceKind::SiteGroup), i);
    let (m, t) = step(m, Event::DependenciesResolved);
    assert!(matches!(t.action, Action::Fetch { id: 2 }));
    let (m, _t) = step(m, Event::Fetched(record(2, &[])));
    let (m, t) = step(m, Event::Compared { drifted: false });
    assert!(is_write_status_of(&t.action, 2));
    let (_m, t) = step(m, Event::StatusWritten);
    assert!(is_success(&t.action));
}

#[test]
fn test_reconcile_site_group_with_parent() {
    let spec = region_spec("child-group", Some(reference("NetBoxSiteGroup", "parent-group")));
    let (m, _t) = start(profile_of(ResourceKind::SiteGroup), region_inputs(&spec, None));
    let (m, t) = step(m, Event::DependenciesResolved);
    assert!(matches!(t.action, Action::Lookup));
    let (m, _t) = step(m, Event::Listed(vec![]));
    let (m, t) = step(m, Event::Written(record(21, &[])));
    assert!(is_write_status_of(&t.action, 21));
    let (_m, t) = step(m, Event::StatusWritten);
    assert!(is_success(&t.action));
}

#[test]
fn test_reconcile_location_with_parent() {
    let mut spec = location_spec();
    spec.parent = Some(reference("NetBoxLocation", "parent-location"));
    let (m, _t) = start(profile_of(ResourceKind::Location), location_inputs(&spec, None));
    let (m, _t) = step(m, Event::DependenciesResolved);
    let (m, _t) = step(m, Event::Listed(vec![]));
    let (m, t) = step(m, Event::Written(record(41, &[])));
    assert!(is_write_status_of(&t.action, 41));
    let (_m, t) = step(m, Event::StatusWritten);
    assert!(is_success(&t.action));
}

#[test]
fn test_reconcile_platform_with_manufacturer() {
    let mut spec = platform_spec();
    spec.manufacturer = Some(reference("NetBoxManufacturer", "acme"));
    let (m, t) = start(profile_of(ResourceKind::Platform), platform_inputs(&spec, None));
    assert!(matches!(t.action, Action::ResolveDependencies));
    let (m, _t) = step(m, Event::DependenciesResolved);
    let (m, _t) = step(m, Event::Listed(vec![]));
    let (m, t) = step(m, Event::Written(record(61, &[])));
    assert!(is_write_status_of(&t.action, 61));
    let (_m, t) = step(m, Event::StatusWritten);
    assert!(is_success(&t.action));
}
