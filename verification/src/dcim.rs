//! The data-center resource kinds: what the reconcilers read of each
//! resource's spec and of its NetBox record, and the field comparisons that
//! decide whether a record has drifted from its spec.
//!
//! Tags are compared separately (see `compare::tags_differ`). Fields that
//! NetBox keeps as floating-point numbers (a site's coordinates, a device
//! type's height) are compared by the caller, which hands the outcome in.
use vstd::prelude::*;
use vstd::string::StringExecFns;
use crate::compare::{
    compare_optional_dependency_id, compare_optional_number_field, compare_optional_string_field,
    compare_required_dependency_id, compare_slug_field, compare_string_field, text_or_empty,
};
use crate::model::{opt_view, NetBoxRecord, ResourceReference};
use crate::text::{auto_slug, spec_auto_slug};

verus! {

// ----- shared comparison vocabulary -----------------------------------------

/// A required text differs.
pub open spec fn text_differs(desired: String, existing: String) -> bool {
    desired@ != existing@
}

/// An optional text differs, a missing text counting as empty.
pub open spec fn opt_text_differs(desired: Option<String>, existing: Option<String>) -> bool {
    text_or_empty(desired) != text_or_empty(existing)
}

/// The slug differs from the one the spec gives, or from the slug generated
/// from `name` when it gives none.
pub open spec fn slug_differs(desired: Option<String>, existing: String, name: String) -> bool {
    let wanted = match desired {
        Some(s) => s@,
        None => spec_auto_slug(name@),
    };
    wanted != existing@
}

fn slug_check(desired: &Option<String>, existing: &String, name: &String) -> (r: bool)
    ensures
        r == slug_differs(*desired, *existing, *name),
{
    let auto = auto_slug(name.as_str());
    compare_slug_field(desired, existing, auto)
}

/// Whether a text is the given one.
fn text_is(t: &str, expected: &str) -> (r: bool)
    ensures
        r == (t@ == expected@),
{
    String::from_str(t) == String::from_str(expected)
}

// ----- regions and site groups ----------------------------------------------

/// The spec of a region or a site group (both form a tree through `parent`).
#[derive(Debug)]
pub struct RegionSpec {
    pub name: String,
    pub slug: Option<String>,
    pub parent: Option<ResourceReference>,
    pub description: Option<String>,
    pub comments: Option<String>,
    pub tags: Option<Vec<ResourceReference>>,
    pub drift_detection: Option<bool>,
}

/// A region or site group record of NetBox.
#[derive(Debug)]
pub struct RegionRecord {
    pub record: NetBoxRecord,
    pub name: String,
    pub slug: String,
    pub parent_id: Option<u64>,
    pub description: Option<String>,
    pub comments: Option<String>,
}

pub type SiteGroupSpec = RegionSpec;

pub type SiteGroupRecord = RegionRecord;

pub open spec fn region_differs(spec: RegionSpec, existing: RegionRecord, desired_parent_id: Option<u64>) -> bool {
    text_differs(spec.name, existing.name) || slug_differs(spec.slug, existing.slug, spec.name)
        || desired_parent_id != existing.parent_id || opt_text_differs(spec.description, existing.description)
        || opt_text_differs(spec.comments, existing.comments)
}

/// Whether a region record has drifted from its spec.
pub fn region_needs_update(spec: &RegionSpec, existing: &RegionRecord, desired_parent_id: Option<u64>) -> (r: bool)
    ensures
        r == region_differs(*spec, *existing, desired_parent_id),
{
    let name_diff = compare_string_field(&spec.name, &existing.name);
    let slug_diff = slug_check(&spec.slug, &existing.slug, &spec.name);
    let parent_diff = compare_optional_dependency_id(desired_parent_id, existing.parent_id);
    let description_diff = compare_optional_string_field(&spec.description, &existing.description);
    let comments_diff = compare_optional_string_field(&spec.comments, &existing.comments);
    name_diff || slug_diff || parent_diff || description_diff || comments_diff
}

/// Whether a site group record has drifted from its spec (the same fields
/// as a region).
pub fn site_group_needs_update(spec: &SiteGroupSpec, existing: &SiteGroupRecord, desired_parent_id: Option<u64>)
    -> (r: bool)
    ensures
        r == region_differs(*spec, *existing, desired_parent_id),
{
    region_needs_update(spec, existing, desired_parent_id)
}

// ----- sites ----------------------------------------------------------------

#[derive(PartialEq, Eq, Structural, Clone, Copy, Debug)]
pub enum SiteStatus {
    Active,
    Planned,
    Retired,
    Staging,
}

/// The value NetBox uses for a SiteStatus status.
pub open spec fn site_status_name(s: SiteStatus) -> Seq<char> {
    match s {
        SiteStatus::Active => "active"@,
        SiteStatus::Planned => "planned"@,
        SiteStatus::Retired => "retired"@,
        SiteStatus::Staging => "staging"@,
    }
}

/// The value NetBox uses for a site status.
pub fn site_status_text(s: SiteStatus) -> (t: &'static str)
    ensures
        t@ == site_status_name(s),
{
    match s {
        SiteStatus::Active => "active",
        SiteStatus::Planned => "planned",
        SiteStatus::Retired => "retired",
        SiteStatus::Staging => "staging",
    }
}

/// The status NetBox reports as `t`; `None` for a value this controller
/// does not know.
pub fn site_status_from_text(t: &str) -> (r: Option<SiteStatus>)
    ensures
        match r {
            Some(s) => t@ == site_status_name(s),
            None => forall|s: SiteStatus| t@ != #[trigger] site_status_name(s),
        },
{
    if text_is(t, "active") {
        return Some(SiteStatus::Active);
    }
    if text_is(t, "planned") {
        return Some(SiteStatus::Planned);
    }
    if text_is(t, "retired") {
        return Some(SiteStatus::Retired);
    }
    if text_is(t, "staging") {
        return Some(SiteStatus::Staging);
    }
    None
}

/// The spec of a site (its coordinates are compared by the caller).
#[derive(Debug)]
pub struct SiteSpec {
    pub name: String,
    pub slug: Option<String>,
    pub description: Option<String>,
    pub physical_address: Option<String>,
    pub shipping_address: Option<String>,
    pub tenant: ResourceReference,
    pub region: Option<ResourceReference>,
    pub site_group: Option<ResourceReference>,
    pub status: SiteStatus,
    pub facility: Option<String>,
    pub time_zone: Option<String>,
    pub comments: Option<String>,
}

#[derive(Debug)]
pub struct SiteRecord {
    pub record: NetBoxRecord,
    pub name: String,
    pub slug: String,
    pub description: Option<String>,
    pub physical_address: Option<String>,
    pub shipping_address: Option<String>,
    pub tenant_id: Option<u64>,
    pub region_id: Option<u64>,
    pub site_group_id: Option<u64>,
    pub status: SiteStatus,
    pub facility: Option<String>,
    pub time_zone: Option<String>,
    pub comments: Option<String>,
}

/// Sites compare their optional texts exactly: a missing text and an empty
/// one differ. A slug is compared only when the spec gives one.
pub open spec fn site_differs(
    spec: SiteSpec,
    existing: SiteRecord,
    coordinates_differ: bool,
    desired_tenant_id: u64,
    desired_region_id: Option<u64>,
    desired_site_group_id: Option<u64>,
    desired_status: SiteStatus,
) -> bool {
    ||| text_differs(spec.name, existing.name)
    ||| (spec.slug matches Some(s) && s@ != existing.slug@)
    ||| opt_view(spec.description) != opt_view(existing.description)
    ||| opt_view(spec.physical_address) != opt_view(existing.physical_address)
    ||| opt_view(spec.shipping_address) != opt_view(existing.shipping_address)
    ||| coordinates_differ
    ||| Some(desired_tenant_id) != existing.tenant_id
    ||| desired_region_id != existing.region_id
    ||| desired_site_group_id != existing.site_group_id
    ||| desired_status != existing.status
    ||| opt_view(spec.facility) != opt_view(existing.facility)
    ||| opt_view(spec.time_zone) != opt_view(existing.time_zone)
    ||| opt_view(spec.comments) != opt_view(existing.comments)
}

fn opt_exact_differs(a: &Option<String>, b: &Option<String>) -> (r: bool)
    ensures
        r == (opt_view(*a) != opt_view(*b)),
{
    !crate::model::opt_text_eq(a, b)
}

/// Whether a site record has drifted from its spec. `coordinates_differ`
/// tells whether the latitude or longitude differ.
pub fn site_needs_update(
    spec: &SiteSpec,
    existing: &SiteRecord,
    coordinates_differ: bool,
    desired_tenant_id: u64,
    desired_region_id: Option<u64>,
    desired_site_group_id: Option<u64>,
    desired_status: SiteStatus,
) -> (r: bool)
    ensures
        r == site_differs(
            *spec,
            *existing,
            coordinates_differ,
            desired_tenant_id,
            desired_region_id,
            desired_site_group_id,
            desired_status,
        ),
{
    if compare_string_field(&spec.name, &existing.name) {
        return true;
    }
    if let Some(slug) = &spec.slug {
        if !(*slug == existing.slug) {
            return true;
        }
    }
    if opt_exact_differs(&spec.description, &existing.description) {
        return true;
    }
    if opt_exact_differs(&spec.physical_address, &existing.physical_address) {
        return true;
    }
    if opt_exact_differs(&spec.shipping_address, &existing.shipping_address) {
        return true;
    }
    if coordinates_differ {
        return true;
    }
    if compare_required_dependency_id(desired_tenant_id, existing.tenant_id) {
        return true;
    }
    if compare_optional_dependency_id(desired_region_id, existing.region_id) {
        return true;
    }
    if compare_optional_dependency_id(desired_site_group_id, existing.site_group_id) {
        return true;
    }
    if desired_status != existing.status {
        return true;
    }
    if opt_exact_differs(&spec.facility, &existing.facility) {
        return true;
    }
    if opt_exact_differs(&spec.time_zone, &existing.time_zone) {
        return true;
    }
    opt_exact_differs(&spec.comments, &existing.comments)
}

// ----- devices --------------------------------------------------------------

#[derive(PartialEq, Eq, Structural, Clone, Copy, Debug)]
pub enum DeviceStatus {
    Active,
    Offline,
    Planned,
    Staged,
    Failed,
    Inventory,
    Decommissioning,
}

/// The value NetBox uses for a DeviceStatus status.
pub open spec fn device_status_name(s: DeviceStatus) -> Seq<char> {
    match s {
        DeviceStatus::Active => "active"@,
        DeviceStatus::Offline => "offline"@,
        DeviceStatus::Planned => "planned"@,
        DeviceStatus::Staged => "staged"@,
        DeviceStatus::Failed => "failed"@,
        DeviceStatus::Inventory => "inventory"@,
        DeviceStatus::Decommissioning => "decommissioning"@,
    }
}

/// The value NetBox uses for a device status.
pub fn device_status_text(s: DeviceStatus) -> (t: &'static str)
    ensures
        t@ == device_status_name(s),
{
    match s {
        DeviceStatus::Active => "active",
        DeviceStatus::Offline => "offline",
        DeviceStatus::Planned => "planned",
        DeviceStatus::Staged => "staged",
        DeviceStatus::Failed => "failed",
        DeviceStatus::Inventory => "inventory",
        DeviceStatus::Decommissioning => "decommissioning",
    }
}

/// The status NetBox reports as `t`; `None` for a value this controller
/// does not know.
pub fn device_status_from_text(t: &str) -> (r: Option<DeviceStatus>)
    ensures
        match r {
            Some(s) => t@ == device_status_name(s),
            None => forall|s: DeviceStatus| t@ != #[trigger] device_status_name(s),
        },
{
    if text_is(t, "active") {
        return Some(DeviceStatus::Active);
    }
    if text_is(t, "offline") {
        return Some(DeviceStatus::Offline);
    }
    if text_is(t, "planned") {
        return Some(DeviceStatus::Planned);
    }
    if text_is(t, "staged") {
        return Some(DeviceStatus::Staged);
    }
    if text_is(t, "failed") {
        return Some(DeviceStatus::Failed);
    }
    if text_is(t, "inventory") {
        return Some(DeviceStatus::Inventory);
    }
    if text_is(t, "decommissioning") {
        return Some(DeviceStatus::Decommissioning);
    }
    None
}

/// How a device names its primary IP: an address, or an `IPClaim`.
#[derive(Debug)]
pub struct PrimaryIpReference {
    pub ip_claim_ref: Option<ResourceReference>,
    pub ip_address: Option<String>,
}

#[derive(Debug)]
pub struct DeviceSpec {
    pub name: Option<String>,
    pub device_type: ResourceReference,
    pub device_role: ResourceReference,
    pub site: ResourceReference,
    pub location: Option<ResourceReference>,
    pub tenant: ResourceReference,
    pub platform: Option<ResourceReference>,
    pub serial: Option<String>,
    pub asset_tag: Option<String>,
    pub status: DeviceStatus,
    pub primary_ip4: Option<PrimaryIpReference>,
    pub primary_ip6: Option<PrimaryIpReference>,
    pub description: Option<String>,
    pub comments: Option<String>,
    pub tags: Option<Vec<ResourceReference>>,
    pub drift_detection: Option<bool>,
}

#[derive(Debug)]
pub struct DeviceRecord {
    pub record: NetBoxRecord,
    pub name: Option<String>,
    pub device_type_id: u64,
    pub device_role_id: Option<u64>,
    pub site_id: Option<u64>,
    pub location_id: Option<u64>,
    pub tenant_id: Option<u64>,
    pub platform_id: Option<u64>,
    pub serial: Option<String>,
    pub asset_tag: Option<String>,
    pub status: DeviceStatus,
    pub primary_ip4_id: Option<u64>,
    pub primary_ip6_id: Option<u64>,
    pub description: Option<String>,
    pub comments: Option<String>,
}

/// The NetBox ids a device's references resolve to.
#[derive(Clone, Copy, Debug)]
pub struct DeviceTargets {
    pub device_type_id: u64,
    pub device_role_id: u64,
    pub site_id: u64,
    pub location_id: Option<u64>,
    pub tenant_id: u64,
    pub platform_id: Option<u64>,
    pub primary_ip4_id: Option<u64>,
    pub primary_ip6_id: Option<u64>,
}

pub open spec fn device_differs(spec: DeviceSpec, existing: DeviceRecord, t: DeviceTargets) -> bool {
    ||| opt_text_differs(spec.name, existing.name)
    ||| existing.device_type_id != t.device_type_id
    ||| Some(t.device_role_id) != existing.device_role_id
    ||| Some(t.site_id) != existing.site_id
    ||| t.location_id != existing.location_id
    ||| Some(t.tenant_id) != existing.tenant_id
    ||| t.platform_id != existing.platform_id
    ||| opt_text_differs(spec.serial, existing.serial)
    ||| opt_text_differs(spec.asset_tag, existing.asset_tag)
    ||| spec.status != existing.status
    ||| t.primary_ip4_id != existing.primary_ip4_id
    ||| t.primary_ip6_id != existing.primary_ip6_id
    ||| opt_text_differs(spec.description, existing.description)
    ||| opt_text_differs(spec.comments, existing.comments)
}

/// Whether a device record has drifted from its spec.
pub fn device_needs_update(spec: &DeviceSpec, existing: &DeviceRecord, t: DeviceTargets) -> (r: bool)
    ensures
        r == device_differs(*spec, *existing, t),
{
    let name_diff = compare_optional_string_field(&spec.name, &existing.name);
    let device_type_diff = existing.device_type_id != t.device_type_id;
    let device_role_diff = compare_optional_dependency_id(Some(t.device_role_id), existing.device_role_id);
    let site_diff = compare_optional_dependency_id(Some(t.site_id), existing.site_id);
    let location_diff = compare_optional_dependency_id(t.location_id, existing.location_id);
    let tenant_diff = compare_optional_dependency_id(Some(t.tenant_id), existing.tenant_id);
    let platform_diff = compare_optional_dependency_id(t.platform_id, existing.platform_id);
    let serial_diff = compare_optional_string_field(&spec.serial, &existing.serial);
    let asset_tag_diff = compare_optional_string_field(&spec.asset_tag, &existing.asset_tag);
    let status_diff = spec.status != existing.status;
    let ip4_diff = compare_optional_dependency_id(t.primary_ip4_id, existing.primary_ip4_id);
    let ip6_diff = compare_optional_dependency_id(t.primary_ip6_id, existing.primary_ip6_id);
    let description_diff = compare_optional_string_field(&spec.description, &existing.description);
    let comments_diff = compare_optional_string_field(&spec.comments, &existing.comments);
    name_diff || device_type_diff || device_role_diff || site_diff || location_diff || tenant_diff || platform_diff
        || serial_diff || asset_tag_diff || status_diff || ip4_diff || ip6_diff || description_diff
        || comments_diff
}

// ----- device roles ---------------------------------------------------------

#[derive(Debug)]
pub struct DeviceRoleSpec {
    pub name: String,
    pub slug: Option<String>,
    pub color: Option<String>,
    pub vm_role: bool,
    pub description: Option<String>,
    pub comments: Option<String>,
    pub tags: Option<Vec<ResourceReference>>,
    pub drift_detection: Option<bool>,
}

#[derive(Debug)]
pub struct DeviceRoleRecord {
    pub record: NetBoxRecord,
    pub name: String,
    pub slug: String,
    pub color: Option<String>,
    pub vm_role: bool,
    pub description: Option<String>,
    pub comments: Option<String>,
}

pub open spec fn device_role_differs(spec: DeviceRoleSpec, existing: DeviceRoleRecord) -> bool {
    text_differs(spec.name, existing.name) || slug_differs(spec.slug, existing.slug, spec.name)
        || opt_text_differs(spec.color, existing.color) || spec.vm_role != existing.vm_role
        || opt_text_differs(spec.description, existing.description)
        || opt_text_differs(spec.comments, existing.comments)
}

/// Whether a device role record has drifted from its spec.
pub fn device_role_needs_update(spec: &DeviceRoleSpec, existing: &DeviceRoleRecord) -> (r: bool)
    ensures
        r == device_role_differs(*spec, *existing),
{
    compare_string_field(&spec.name, &existing.name) || slug_check(&spec.slug, &existing.slug, &spec.name)
        || compare_optional_string_field(&spec.color, &existing.color) || spec.vm_role != existing.vm_role
        || compare_optional_string_field(&spec.description, &existing.description)
        || compare_optional_string_field(&spec.comments, &existing.comments)
}

// ----- device types ---------------------------------------------------------

/// The spec of a device type (its height is compared by the caller).
#[derive(Debug)]
pub struct DeviceTypeSpec {
    pub manufacturer: ResourceReference,
    pub model: String,
    pub slug: Option<String>,
    pub part_number: Option<String>,
    pub is_full_depth: bool,
    pub description: Option<String>,
    pub comments: Option<String>,
    pub tags: Option<Vec<ResourceReference>>,
    pub drift_detection: Option<bool>,
}

#[derive(Debug)]
pub struct DeviceTypeRecord {
    pub record: NetBoxRecord,
    pub manufacturer_id: u64,
    pub model: String,
    pub slug: String,
    pub part_number: Option<String>,
    pub is_full_depth: bool,
    pub description: Option<String>,
    pub comments: Option<String>,
}

pub open spec fn device_type_differs(
    spec: DeviceTypeSpec,
    existing: DeviceTypeRecord,
    desired_manufacturer_id: u64,
    height_differs: bool,
) -> bool {
    desired_manufacturer_id != existing.manufacturer_id || text_differs(spec.model, existing.model)
        || slug_differs(spec.slug, existing.slug, spec.model) || opt_text_differs(spec.part_number, existing.part_number)
        || height_differs || spec.is_full_depth != existing.is_full_depth
        || opt_text_differs(spec.description, existing.description)
        || opt_text_differs(spec.comments, existing.comments)
}

/// Whether a device type record has drifted from its spec; `height_differs`
/// tells whether the rack-unit height differs. The slug generated from the
/// model stands in for a slug the spec does not give.
pub fn device_type_needs_update(
    spec: &DeviceTypeSpec,
    existing: &DeviceTypeRecord,
    desired_manufacturer_id: u64,
    height_differs: bool,
) -> (r: bool)
    ensures
        r == device_type_differs(*spec, *existing, desired_manufacturer_id, height_differs),
{
    compare_required_dependency_id(desired_manufacturer_id, Some(existing.manufacturer_id))
        || compare_string_field(&spec.model, &existing.model) || slug_check(&spec.slug, &existing.slug, &spec.model)
        || compare_optional_string_field(&spec.part_number, &existing.part_number) || height_differs
        || spec.is_full_depth != existing.is_full_depth
        || compare_optional_string_field(&spec.description, &existing.description)
        || compare_optional_string_field(&spec.comments, &existing.comments)
}

// ----- interfaces -----------------------------------------------------------

#[derive(Debug)]
pub struct InterfaceSpec {
    /// Name of the device resource the interface belongs to.
    pub device: String,
    pub name: String,
    pub interface_type: String,
    pub enabled: bool,
    pub mac_address: Option<String>,
    pub mtu: Option<u32>,
    pub description: Option<String>,
    pub comments: Option<String>,
    pub tags: Option<Vec<ResourceReference>>,
    pub drift_detection: Option<bool>,
}

#[derive(Debug)]
pub struct InterfaceRecord {
    pub record: NetBoxRecord,
    pub device_id: u64,
    pub name: String,
    pub interface_type: String,
    pub enabled: bool,
    pub mac_address: Option<String>,
    pub mtu: Option<u32>,
    pub description: Option<String>,
    pub comments: Option<String>,
}

pub open spec fn interface_differs(spec: InterfaceSpec, existing: InterfaceRecord, desired_device_id: u64) -> bool {
    ||| existing.device_id != desired_device_id
    ||| text_differs(spec.name, existing.name)
    ||| text_differs(spec.interface_type, existing.interface_type)
    ||| spec.enabled != existing.enabled
    ||| opt_text_differs(spec.mac_address, existing.mac_address)
    ||| spec.mtu != existing.mtu
    ||| opt_text_differs(spec.description, existing.description)
    ||| opt_text_differs(spec.comments, existing.comments)
}

/// Whether an interface record has drifted from its spec.
pub fn interface_needs_update(spec: &InterfaceSpec, existing: &InterfaceRecord, desired_device_id: u64) -> (r: bool)
    ensures
        r == interface_differs(*spec, *existing, desired_device_id),
{
    let device_diff = existing.device_id != desired_device_id;
    let name_diff = compare_string_field(&spec.name, &existing.name);
    let type_diff = compare_string_field(&spec.interface_type, &existing.interface_type);
    let enabled_diff = spec.enabled != existing.enabled;
    let mac_diff = compare_optional_string_field(&spec.mac_address, &existing.mac_address);
    let mtu_diff = compare_optional_number_field(spec.mtu, existing.mtu);
    let description_diff = compare_optional_string_field(&spec.description, &existing.description);
    let comments_diff = compare_optional_string_field(&spec.comments, &existing.comments);
    device_diff || name_diff || type_diff || enabled_diff || mac_diff || mtu_diff || description_diff || comments_diff
}

// ----- locations ------------------------------------------------------------

#[derive(Debug)]
pub struct LocationSpec {
    pub site: ResourceReference,
    pub tenant: ResourceReference,
    pub parent: Option<ResourceReference>,
    pub name: String,
    pub slug: Option<String>,
    pub facility: Option<String>,
    pub description: Option<String>,
    pub comments: Option<String>,
    pub tags: Option<Vec<ResourceReference>>,
    pub drift_detection: Option<bool>,
}

#[derive(Debug)]
pub struct LocationRecord {
    pub record: NetBoxRecord,
    pub site_id: u64,
    pub tenant_id: Option<u64>,
    pub parent_id: Option<u64>,
    pub name: String,
    pub slug: String,
    pub facility: Option<String>,
    pub description: Option<String>,
    pub comments: Option<String>,
}

pub open spec fn location_differs(
    spec: LocationSpec,
    existing: LocationRecord,
    desired_site_id: u64,
    desired_tenant_id: u64,
    desired_parent_id: Option<u64>,
) -> bool {
    ||| text_differs(spec.name, existing.name)
    ||| slug_differs(spec.slug, existing.slug, spec.name)
    ||| desired_site_id != existing.site_id
    ||| Some(desired_tenant_id) != existing.tenant_id
    ||| desired_parent_id != existing.parent_id
    ||| opt_text_differs(spec.facility, existing.facility)
    ||| opt_text_differs(spec.description, existing.description)
    ||| opt_text_differs(spec.comments, existing.comments)
}

/// Whether a location record has drifted from its spec.
pub fn location_needs_update(
    spec: &LocationSpec,
    existing: &LocationRecord,
    desired_site_id: u64,
    desired_tenant_id: u64,
    desired_parent_id: Option<u64>,
) -> (r: bool)
    ensures
        r == location_differs(*spec, *existing, desired_site_id, desired_tenant_id, desired_parent_id),
{
    compare_string_field(&spec.name, &existing.name) || slug_check(&spec.slug, &existing.slug, &spec.name)
        || compare_required_dependency_id(desired_site_id, Some(existing.site_id))
        || compare_optional_dependency_id(Some(desired_tenant_id), existing.tenant_id)
        || compare_optional_dependency_id(desired_parent_id, existing.parent_id)
        || compare_optional_string_field(&spec.facility, &existing.facility)
        || compare_optional_string_field(&spec.description, &existing.description)
        || compare_optional_string_field(&spec.comments, &existing.comments)
}

// ----- MAC addresses --------------------------------------------------------

#[derive(Debug)]
pub struct MacAddressSpec {
    pub mac_address: String,
    /// The interface, written `<device-name>/<interface-name>`.
    pub interface: String,
    pub description: Option<String>,
    pub comments: Option<String>,
    pub tags: Option<Vec<ResourceReference>>,
    pub drift_detection: Option<bool>,
}

#[derive(Debug)]
pub struct MacAddressRecord {
    pub record: NetBoxRecord,
    pub assigned_object_id: Option<u64>,
    pub description: Option<String>,
    pub comments: Option<String>,
}

/// The address itself cannot change in NetBox and is not compared.
pub open spec fn mac_address_differs(spec: MacAddressSpec, existing: MacAddressRecord, desired_interface_id: u64) -> bool {
    Some(desired_interface_id) != existing.assigned_object_id || opt_text_differs(spec.description, existing.description)
        || opt_text_differs(spec.comments, existing.comments)
}

/// Whether a MAC address record has drifted from its spec.
pub fn mac_address_needs_update(spec: &MacAddressSpec, existing: &MacAddressRecord, desired_interface_id: u64)
    -> (r: bool)
    ensures
        r == mac_address_differs(*spec, *existing, desired_interface_id),
{
    let interface_diff = compare_optional_dependency_id(Some(desired_interface_id), existing.assigned_object_id);
    let description_diff = compare_optional_string_field(&spec.description, &existing.description);
    let comments_diff = compare_optional_string_field(&spec.comments, &existing.comments);
    interface_diff || description_diff || comments_diff
}

// ----- manufacturers --------------------------------------------------------

#[derive(Debug)]
pub struct ManufacturerSpec {
    pub name: String,
    pub slug: Option<String>,
    pub description: Option<String>,
    pub comments: Option<String>,
    pub tags: Option<Vec<ResourceReference>>,
    pub drift_detection: Option<bool>,
}

#[derive(Debug)]
pub struct ManufacturerRecord {
    pub record: NetBoxRecord,
    pub name: String,
    pub slug: String,
    pub description: Option<String>,
    pub comments: Option<String>,
}

pub open spec fn manufacturer_differs(spec: ManufacturerSpec, existing: ManufacturerRecord) -> bool {
    text_differs(spec.name, existing.name) || slug_differs(spec.slug, existing.slug, spec.name)
        || opt_text_differs(spec.description, existing.description)
        || opt_text_differs(spec.comments, existing.comments)
}

/// Whether a manufacturer record has drifted from its spec.
pub fn manufacturer_needs_update(spec: &ManufacturerSpec, existing: &ManufacturerRecord) -> (r: bool)
    ensures
        r == manufacturer_differs(*spec, *existing),
{
    compare_string_field(&spec.name, &existing.name) || slug_check(&spec.slug, &existing.slug, &spec.name)
        || compare_optional_string_field(&spec.description, &existing.description)
        || compare_optional_string_field(&spec.comments, &existing.comments)
}

// ----- platforms ------------------------------------------------------------

/// The spec of a platform; platforms are created but never compared.
#[derive(Debug)]
pub struct PlatformSpec {
    pub name: String,
    pub slug: Option<String>,
    pub manufacturer: Option<ResourceReference>,
    pub napalm_driver: Option<String>,
    pub napalm_args: Option<String>,
    pub description: Option<String>,
    pub comments: Option<String>,
}

// ----- VLANs ----------------------------------------------------------------

#[derive(PartialEq, Eq, Structural, Clone, Copy, Debug)]
pub enum VlanStatus {
    Active,
    Reserved,
    Deprecated,
}

/// The value NetBox uses for a VlanStatus status.
pub open spec fn vlan_status_name(s: VlanStatus) -> Seq<char> {
    match s {
        VlanStatus::Active => "active"@,
        VlanStatus::Reserved => "reserved"@,
        VlanStatus::Deprecated => "deprecated"@,
    }
}

/// The value NetBox uses for a VLAN status.
pub fn vlan_status_text(s: VlanStatus) -> (t: &'static str)
    ensures
        t@ == vlan_status_name(s),
{
    match s {
        VlanStatus::Active => "active",
        VlanStatus::Reserved => "reserved",
        VlanStatus::Deprecated => "deprecated",
    }
}

/// The status NetBox reports as `t`; `None` for a value this controller
/// does not know.
pub fn vlan_status_from_text(t: &str) -> (r: Option<VlanStatus>)
    ensures
        match r {
            Some(s) => t@ == vlan_status_name(s),
            None => forall|s: VlanStatus| t@ != #[trigger] vlan_status_name(s),
        },
{
    if text_is(t, "active") {
        return Some(VlanStatus::Active);
    }
    if text_is(t, "reserved") {
        return Some(VlanStatus::Reserved);
    }
    if text_is(t, "deprecated") {
        return Some(VlanStatus::Deprecated);
    }
    None
}

#[derive(Debug)]
pub struct VlanSpec {
    pub vid: u16,
    pub name: String,
    pub site: Option<ResourceReference>,
    pub tenant: ResourceReference,
    pub role: Option<ResourceReference>,
    pub status: VlanStatus,
    pub description: Option<String>,
    pub comments: Option<String>,
    pub tags: Option<Vec<ResourceReference>>,
    pub drift_detection: Option<bool>,
}

/// A VLAN record; NetBox always gives a VLAN a description and comments,
/// possibly empty.
#[derive(Debug)]
pub struct VlanRecord {
    pub record: NetBoxRecord,
    pub vid: u16,
    pub name: String,
    pub site_id: Option<u64>,
    pub tenant_id: Option<u64>,
    pub role_id: Option<u64>,
    pub group_id: Option<u64>,
    pub status: VlanStatus,
    pub description: String,
    pub comments: String,
}

/// The NetBox ids a VLAN's references resolve to. VLAN groups have no
/// resource of their own, so the desired group is always none.
#[derive(Clone, Copy, Debug)]
pub struct VlanTargets {
    pub site_id: Option<u64>,
    pub tenant_id: u64,
    pub role_id: Option<u64>,
    pub group_id: Option<u64>,
}

pub open spec fn vlan_differs(spec: VlanSpec, existing: VlanRecord, t: VlanTargets) -> bool {
    ||| spec.vid != existing.vid
    ||| text_differs(spec.name, existing.name)
    ||| t.site_id != existing.site_id
    ||| Some(t.tenant_id) != existing.tenant_id
    ||| t.role_id != existing.role_id
    ||| t.group_id != existing.group_id
    ||| spec.status != existing.status
    ||| text_or_empty(spec.description) != existing.description@
    ||| text_or_empty(spec.comments) != existing.comments@
}

/// Whether a VLAN record has drifted from its spec.
pub fn vlan_needs_update(spec: &VlanSpec, existing: &VlanRecord, t: VlanTargets) -> (r: bool)
    ensures
        r == vlan_differs(*spec, *existing, t),
{
    let existing_description = Some(existing.description.clone());
    let existing_comments = Some(existing.comments.clone());
    let vid_diff = spec.vid != existing.vid;
    let name_diff = compare_string_field(&spec.name, &existing.name);
    let site_diff = compare_optional_dependency_id(t.site_id, existing.site_id);
    let tenant_diff = compare_optional_dependency_id(Some(t.tenant_id), existing.tenant_id);
    let role_diff = compare_optional_dependency_id(t.role_id, existing.role_id);
    let group_diff = compare_optional_dependency_id(t.group_id, existing.group_id);
    let status_diff = spec.status != existing.status;
    let description_diff = compare_optional_string_field(&spec.description, &existing_description);
    let comments_diff = compare_optional_string_field(&spec.comments, &existing_comments);
    vid_diff || name_diff || site_diff || tenant_diff || role_diff || group_diff || status_diff || description_diff
        || comments_diff
}

} // verus!
