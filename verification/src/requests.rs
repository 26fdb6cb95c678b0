//! The content of the requests that create and update NetBox records: for
//! each kind, the values sent, built from the resource's spec and the NetBox
//! ids its references resolved to. A field left `None` in an update is not
//! sent; tags are sent by name.
use vstd::prelude::*;
use crate::compare::opt_texts_view;
use crate::dcim::{
    DeviceRoleSpec, DeviceSpec, DeviceStatus, DeviceTargets, DeviceTypeSpec, InterfaceSpec, LocationSpec,
    MacAddressSpec, ManufacturerSpec, PlatformSpec, RegionSpec, SiteSpec, SiteStatus, VlanSpec, VlanStatus,
    VlanTargets,
};
use crate::decisions::desired_tag_names;
use crate::extras::{RoleSpec, TagSpec};
use crate::inputs::wanted_tags;
use crate::model::{copy_opt_text, opt_view};

verus! {

/// The tags a write sends: the names of the spec's tag references, or none
/// (tags left as they are) when the spec names no tags.
pub open spec fn tags_sent(tags: Option<Vec<String>>, refs: Option<Vec<crate::model::ResourceReference>>) -> bool {
    opt_texts_view(tags) == wanted_tags(refs)
}

// ----- regions and site groups -------------------------------------------------

/// A region or site group as it is created or updated.
#[derive(Debug)]
pub struct RegionWrite {
    pub name: String,
    pub slug: Option<String>,
    pub parent_id: Option<u64>,
    pub description: Option<String>,
    pub comments: Option<String>,
    pub tags: Option<Vec<String>>,
}

/// The fields of the write, as `region_write` builds them.
pub open spec fn region_write_for(w: RegionWrite, spec: RegionSpec, parent_id: Option<u64>) -> bool {
    &&& w.name@ == spec.name@
    &&& opt_view(w.slug) == opt_view(spec.slug)
    &&& w.parent_id == parent_id
    &&& opt_view(w.description) == opt_view(spec.description)
    &&& opt_view(w.comments) == opt_view(spec.comments)
    &&& tags_sent(w.tags, spec.tags)
}

/// The write of a region or site group under `parent_id` (what its parent
/// reference resolved to). Creates and updates send the same fields.
pub fn region_write(spec: &RegionSpec, parent_id: Option<u64>) -> (w: RegionWrite)
    ensures
        region_write_for(w, *spec, parent_id),
{
    RegionWrite {
        name: spec.name.clone(),
        slug: copy_opt_text(&spec.slug),
        parent_id,
        description: copy_opt_text(&spec.description),
        comments: copy_opt_text(&spec.comments),
        tags: desired_tag_names(&spec.tags),
    }
}

// ----- sites ---------------------------------------------------------------------

/// A site as it is created or updated; sites carry no tags. The coordinates,
/// which NetBox keeps as floats, are added by the caller.
#[derive(Debug)]
pub struct SiteWrite {
    pub name: String,
    pub slug: Option<String>,
    pub description: Option<String>,
    pub physical_address: Option<String>,
    pub shipping_address: Option<String>,
    pub tenant_id: u64,
    pub region_id: Option<u64>,
    pub site_group_id: Option<u64>,
    pub status: SiteStatus,
    pub facility: Option<String>,
    pub time_zone: Option<String>,
    pub comments: Option<String>,
}

/// The fields of the write, as `site_write` builds them.
pub open spec fn site_write_for(
    w: SiteWrite,
    spec: SiteSpec,
    tenant_id: u64,
    region_id: Option<u64>,
    site_group_id: Option<u64>,
) -> bool {
    &&& w.name@ == spec.name@
    &&& opt_view(w.slug) == opt_view(spec.slug)
    &&& opt_view(w.description) == opt_view(spec.description)
    &&& opt_view(w.physical_address) == opt_view(spec.physical_address)
    &&& opt_view(w.shipping_address) == opt_view(spec.shipping_address)
    &&& w.tenant_id == tenant_id
    &&& w.region_id == region_id
    &&& w.site_group_id == site_group_id
    &&& w.status == spec.status
    &&& opt_view(w.facility) == opt_view(spec.facility)
    &&& opt_view(w.time_zone) == opt_view(spec.time_zone)
    &&& opt_view(w.comments) == opt_view(spec.comments)
}

/// The write of a site with its resolved tenant, region and site group.
pub fn site_write(spec: &SiteSpec, tenant_id: u64, region_id: Option<u64>, site_group_id: Option<u64>) -> (w: SiteWrite)
    ensures
        site_write_for(w, *spec, tenant_id, region_id, site_group_id),
{
    SiteWrite {
        name: spec.name.clone(),
        slug: copy_opt_text(&spec.slug),
        description: copy_opt_text(&spec.description),
        physical_address: copy_opt_text(&spec.physical_address),
        shipping_address: copy_opt_text(&spec.shipping_address),
        tenant_id,
        region_id,
        site_group_id,
        status: spec.status,
        facility: copy_opt_text(&spec.facility),
        time_zone: copy_opt_text(&spec.time_zone),
        comments: copy_opt_text(&spec.comments),
    }
}

// ----- locations -----------------------------------------------------------------

/// A location as it is created (with its site) or updated (without: an
/// update never moves a location to another site).
#[derive(Debug)]
pub struct LocationWrite {
    pub site_id: Option<u64>,
    pub name: String,
    pub slug: Option<String>,
    pub parent_id: Option<u64>,
    pub tenant_id: u64,
    pub facility: Option<String>,
    pub description: Option<String>,
    pub comments: Option<String>,
    pub tags: Option<Vec<String>>,
}

/// The fields a location write takes from its spec and resolved ids.
pub open spec fn location_fields(w: LocationWrite, spec: LocationSpec, parent_id: Option<u64>, tenant_id: u64) -> bool {
    &&& w.name@ == spec.name@
    &&& opt_view(w.slug) == opt_view(spec.slug)
    &&& w.parent_id == parent_id
    &&& w.tenant_id == tenant_id
    &&& opt_view(w.facility) == opt_view(spec.facility)
    &&& opt_view(w.description) == opt_view(spec.description)
    &&& tags_sent(w.tags, spec.tags)
}

/// The create of a location in site `site_id`.
pub fn location_create(spec: &LocationSpec, site_id: u64, parent_id: Option<u64>, tenant_id: u64) -> (w: LocationWrite)
    ensures
        w.site_id == Some(site_id),
        location_fields(w, *spec, parent_id, tenant_id),
        opt_view(w.comments) == opt_view(spec.comments),
{
    LocationWrite {
        site_id: Some(site_id),
        name: spec.name.clone(),
        slug: copy_opt_text(&spec.slug),
        parent_id,
        tenant_id,
        facility: copy_opt_text(&spec.facility),
        description: copy_opt_text(&spec.description),
        comments: copy_opt_text(&spec.comments),
        tags: desired_tag_names(&spec.tags),
    }
}

/// The fields of the write, as `location_update` builds them.
pub open spec fn location_update_for(
    w: LocationWrite,
    spec: LocationSpec,
    parent_id: Option<u64>,
    tenant_id: u64,
    found_by_lookup: bool,
) -> bool {
    &&& w.site_id is None
    &&& location_fields(w, spec, parent_id, tenant_id)
    &&& opt_view(w.comments) == (if found_by_lookup { None } else { opt_view(spec.comments) })
}

/// The update of a location: never its site. The comments are sent except
/// when the update brings the tags of a location found by the lookup in
/// line (`found_by_lookup`).
pub fn location_update(spec: &LocationSpec, parent_id: Option<u64>, tenant_id: u64, found_by_lookup: bool)
    -> (w: LocationWrite)
    ensures
        location_update_for(w, *spec, parent_id, tenant_id, found_by_lookup),
{
    LocationWrite {
        site_id: None,
        name: spec.name.clone(),
        slug: copy_opt_text(&spec.slug),
        parent_id,
        tenant_id,
        facility: copy_opt_text(&spec.facility),
        description: copy_opt_text(&spec.description),
        comments: if found_by_lookup { None } else { copy_opt_text(&spec.comments) },
        tags: desired_tag_names(&spec.tags),
    }
}

// ----- devices -------------------------------------------------------------------

/// A device as it is created; creates carry no tags.
#[derive(Debug)]
pub struct DeviceCreate {
    pub device_type_id: u64,
    pub device_role_id: u64,
    pub site_id: u64,
    pub name: String,
    pub tenant_id: u64,
    pub platform_id: Option<u64>,
    pub location_id: Option<u64>,
    pub serial: Option<String>,
    pub asset_tag: Option<String>,
    pub status: DeviceStatus,
    pub primary_ip4_id: Option<u64>,
    pub primary_ip6_id: Option<u64>,
    pub description: Option<String>,
    pub comments: Option<String>,
}

/// A device as it is updated: every field the drift check compares, its
/// type, role and site included, so that an update corrects any drift.
#[derive(Debug)]
pub struct DeviceUpdate {
    pub device_type_id: u64,
    pub device_role_id: u64,
    pub site_id: u64,
    pub name: Option<String>,
    pub tenant_id: u64,
    pub platform_id: Option<u64>,
    pub location_id: Option<u64>,
    pub serial: Option<String>,
    pub asset_tag: Option<String>,
    pub status: DeviceStatus,
    pub primary_ip4_id: Option<u64>,
    pub primary_ip6_id: Option<u64>,
    pub description: Option<String>,
    pub comments: Option<String>,
    pub tags: Option<Vec<String>>,
}

/// The create of a device, which needs the name its spec gives (`None`
/// without one).
pub fn device_create(spec: &DeviceSpec, t: DeviceTargets) -> (w: Option<DeviceCreate>)
    ensures
        (w is Some) <==> (spec.name is Some),
        w matches Some(c) ==> {
            &&& c.device_type_id == t.device_type_id
            &&& c.device_role_id == t.device_role_id
            &&& c.site_id == t.site_id
            &&& opt_view(spec.name) == Some(c.name@)
            &&& c.tenant_id == t.tenant_id
            &&& c.platform_id == t.platform_id
            &&& c.location_id == t.location_id
            &&& opt_view(c.serial) == opt_view(spec.serial)
            &&& opt_view(c.asset_tag) == opt_view(spec.asset_tag)
            &&& c.status == spec.status
            &&& c.primary_ip4_id == t.primary_ip4_id
            &&& c.primary_ip6_id == t.primary_ip6_id
            &&& opt_view(c.description) == opt_view(spec.description)
            &&& opt_view(c.comments) == opt_view(spec.comments)
        },
{
    match &spec.name {
        None => None,
        Some(n) => Some(DeviceCreate {
            device_type_id: t.device_type_id,
            device_role_id: t.device_role_id,
            site_id: t.site_id,
            name: n.clone(),
            tenant_id: t.tenant_id,
            platform_id: t.platform_id,
            location_id: t.location_id,
            serial: copy_opt_text(&spec.serial),
            asset_tag: copy_opt_text(&spec.asset_tag),
            status: spec.status,
            primary_ip4_id: t.primary_ip4_id,
            primary_ip6_id: t.primary_ip6_id,
            description: copy_opt_text(&spec.description),
            comments: copy_opt_text(&spec.comments),
        }),
    }
}

/// The fields of the write, as `device_update` builds them.
pub open spec fn device_update_for(w: DeviceUpdate, spec: DeviceSpec, t: DeviceTargets) -> bool {
    &&& w.device_type_id == t.device_type_id
    &&& w.device_role_id == t.device_role_id
    &&& w.site_id == t.site_id
    &&& opt_view(w.name) == opt_view(spec.name)
    &&& w.tenant_id == t.tenant_id
    &&& w.platform_id == t.platform_id
    &&& w.location_id == t.location_id
    &&& opt_view(w.serial) == opt_view(spec.serial)
    &&& opt_view(w.asset_tag) == opt_view(spec.asset_tag)
    &&& w.status == spec.status
    &&& w.primary_ip4_id == t.primary_ip4_id
    &&& w.primary_ip6_id == t.primary_ip6_id
    &&& opt_view(w.description) == opt_view(spec.description)
    &&& opt_view(w.comments) == opt_view(spec.comments)
    &&& tags_sent(w.tags, spec.tags)
}

/// The update of a device, with the ids its references resolved to.
pub fn device_update(spec: &DeviceSpec, t: DeviceTargets) -> (w: DeviceUpdate)
    ensures
        device_update_for(w, *spec, t),
{
    DeviceUpdate {
        device_type_id: t.device_type_id,
        device_role_id: t.device_role_id,
        site_id: t.site_id,
        name: copy_opt_text(&spec.name),
        tenant_id: t.tenant_id,
        platform_id: t.platform_id,
        location_id: t.location_id,
        serial: copy_opt_text(&spec.serial),
        asset_tag: copy_opt_text(&spec.asset_tag),
        status: spec.status,
        primary_ip4_id: t.primary_ip4_id,
        primary_ip6_id: t.primary_ip6_id,
        description: copy_opt_text(&spec.description),
        comments: copy_opt_text(&spec.comments),
        tags: desired_tag_names(&spec.tags),
    }
}

// ----- device roles --------------------------------------------------------------

#[derive(Debug)]
pub struct DeviceRoleWrite {
    pub name: String,
    pub slug: Option<String>,
    pub color: Option<String>,
    pub vm_role: bool,
    pub description: Option<String>,
    pub comments: Option<String>,
    pub tags: Option<Vec<String>>,
}

/// The fields of the write, as `device_role_write` builds them.
pub open spec fn device_role_write_for(w: DeviceRoleWrite, spec: DeviceRoleSpec) -> bool {
    &&& w.name@ == spec.name@
    &&& opt_view(w.slug) == opt_view(spec.slug)
    &&& opt_view(w.color) == opt_view(spec.color)
    &&& w.vm_role == spec.vm_role
    &&& opt_view(w.description) == opt_view(spec.description)
    &&& opt_view(w.comments) == opt_view(spec.comments)
    &&& tags_sent(w.tags, spec.tags)
}

/// The write of a device role; creates and updates send the same fields.
pub fn device_role_write(spec: &DeviceRoleSpec) -> (w: DeviceRoleWrite)
    ensures
        device_role_write_for(w, *spec),
{
    DeviceRoleWrite {
        name: spec.name.clone(),
        slug: copy_opt_text(&spec.slug),
        color: copy_opt_text(&spec.color),
        vm_role: spec.vm_role,
        description: copy_opt_text(&spec.description),
        comments: copy_opt_text(&spec.comments),
        tags: desired_tag_names(&spec.tags),
    }
}

// ----- device types --------------------------------------------------------------

/// A device type as it is created or updated; its height, which NetBox
/// keeps as a float, is added by the caller.
#[derive(Debug)]
pub struct DeviceTypeWrite {
    pub manufacturer_id: u64,
    pub model: String,
    pub slug: Option<String>,
    pub part_number: Option<String>,
    pub is_full_depth: bool,
    pub description: Option<String>,
    pub comments: Option<String>,
    pub tags: Option<Vec<String>>,
}

/// The fields of the write, as `device_type_write` builds them.
pub open spec fn device_type_write_for(w: DeviceTypeWrite, spec: DeviceTypeSpec, manufacturer_id: u64) -> bool {
    &&& w.manufacturer_id == manufacturer_id
    &&& w.model@ == spec.model@
    &&& opt_view(w.slug) == opt_view(spec.slug)
    &&& opt_view(w.part_number) == opt_view(spec.part_number)
    &&& w.is_full_depth == spec.is_full_depth
    &&& opt_view(w.description) == opt_view(spec.description)
    &&& opt_view(w.comments) == opt_view(spec.comments)
    &&& tags_sent(w.tags, spec.tags)
}

/// The write of a device type of manufacturer `manufacturer_id`.
pub fn device_type_write(spec: &DeviceTypeSpec, manufacturer_id: u64) -> (w: DeviceTypeWrite)
    ensures
        device_type_write_for(w, *spec, manufacturer_id),
{
    DeviceTypeWrite {
        manufacturer_id,
        model: spec.model.clone(),
        slug: copy_opt_text(&spec.slug),
        part_number: copy_opt_text(&spec.part_number),
        is_full_depth: spec.is_full_depth,
        description: copy_opt_text(&spec.description),
        comments: copy_opt_text(&spec.comments),
        tags: desired_tag_names(&spec.tags),
    }
}

// ----- interfaces ----------------------------------------------------------------

/// An interface as it is created (on its device, without tags) or updated
/// (without its device, with tags).
#[derive(Debug)]
pub struct InterfaceWrite {
    pub device_id: Option<u64>,
    pub name: String,
    pub interface_type: String,
    pub enabled: bool,
    pub mac_address: Option<String>,
    pub mtu: Option<u32>,
    pub description: Option<String>,
    pub comments: Option<String>,
    pub tags: Option<Vec<String>>,
}

/// The fields every interface write takes from the spec.
pub open spec fn interface_fields(w: InterfaceWrite, spec: InterfaceSpec) -> bool {
    &&& w.name@ == spec.name@
    &&& w.interface_type@ == spec.interface_type@
    &&& w.enabled == spec.enabled
    &&& opt_view(w.mac_address) == opt_view(spec.mac_address)
    &&& w.mtu == spec.mtu
    &&& opt_view(w.description) == opt_view(spec.description)
    &&& opt_view(w.comments) == opt_view(spec.comments)
}

/// The create of an interface on device `device_id`.
pub fn interface_create(spec: &InterfaceSpec, device_id: u64) -> (w: InterfaceWrite)
    ensures
        w.device_id == Some(device_id),
        interface_fields(w, *spec),
        w.tags is None,
{
    InterfaceWrite {
        device_id: Some(device_id),
        name: spec.name.clone(),
        interface_type: spec.interface_type.clone(),
        enabled: spec.enabled,
        mac_address: copy_opt_text(&spec.mac_address),
        mtu: spec.mtu,
        description: copy_opt_text(&spec.description),
        comments: copy_opt_text(&spec.comments),
        tags: None,
    }
}

/// The fields of the write, as `interface_update` builds them.
pub open spec fn interface_update_for(w: InterfaceWrite, spec: InterfaceSpec) -> bool {
    &&& w.device_id is None
    &&& interface_fields(w, spec)
    &&& tags_sent(w.tags, spec.tags)
}

/// The update of an interface.
pub fn interface_update(spec: &InterfaceSpec) -> (w: InterfaceWrite)
    ensures
        interface_update_for(w, *spec),
{
    InterfaceWrite {
        device_id: None,
        name: spec.name.clone(),
        interface_type: spec.interface_type.clone(),
        enabled: spec.enabled,
        mac_address: copy_opt_text(&spec.mac_address),
        mtu: spec.mtu,
        description: copy_opt_text(&spec.description),
        comments: copy_opt_text(&spec.comments),
        tags: desired_tag_names(&spec.tags),
    }
}

// ----- MAC addresses ---------------------------------------------------------------

/// A MAC address as it is created (with the address, without tags) or
/// updated (with tags); it is always assigned to interface `interface_id`.
#[derive(Debug)]
pub struct MacAddressWrite {
    pub mac_address: Option<String>,
    pub interface_id: u64,
    pub description: Option<String>,
    pub comments: Option<String>,
    pub tags: Option<Vec<String>>,
}

/// The create of a MAC address on interface `interface_id`.
pub fn mac_address_create(spec: &MacAddressSpec, interface_id: u64) -> (w: MacAddressWrite)
    ensures
        opt_view(w.mac_address) == Some(spec.mac_address@),
        w.interface_id == interface_id,
        opt_view(w.description) == opt_view(spec.description),
        opt_view(w.comments) == opt_view(spec.comments),
        w.tags is None,
{
    MacAddressWrite {
        mac_address: Some(spec.mac_address.clone()),
        interface_id,
        description: copy_opt_text(&spec.description),
        comments: copy_opt_text(&spec.comments),
        tags: None,
    }
}

/// The fields of the write, as `mac_address_update` builds them.
pub open spec fn mac_address_update_for(w: MacAddressWrite, spec: MacAddressSpec, interface_id: u64) -> bool {
    &&& w.mac_address is None
    &&& w.interface_id == interface_id
    &&& opt_view(w.description) == opt_view(spec.description)
    &&& opt_view(w.comments) == opt_view(spec.comments)
    &&& tags_sent(w.tags, spec.tags)
}

/// The update of a MAC address: its assignment, texts and tags.
pub fn mac_address_update(spec: &MacAddressSpec, interface_id: u64) -> (w: MacAddressWrite)
    ensures
        mac_address_update_for(w, *spec, interface_id),
{
    MacAddressWrite {
        mac_address: None,
        interface_id,
        description: copy_opt_text(&spec.description),
        comments: copy_opt_text(&spec.comments),
        tags: desired_tag_names(&spec.tags),
    }
}

// ----- manufacturers ---------------------------------------------------------------

#[derive(Debug)]
pub struct ManufacturerWrite {
    pub name: String,
    pub slug: Option<String>,
    pub description: Option<String>,
    pub comments: Option<String>,
    pub tags: Option<Vec<String>>,
}

/// The fields of the write, as `manufacturer_write` builds them.
pub open spec fn manufacturer_write_for(w: ManufacturerWrite, spec: ManufacturerSpec) -> bool {
    &&& w.name@ == spec.name@
    &&& opt_view(w.slug) == opt_view(spec.slug)
    &&& opt_view(w.description) == opt_view(spec.description)
    &&& opt_view(w.comments) == opt_view(spec.comments)
    &&& tags_sent(w.tags, spec.tags)
}

/// The write of a manufacturer; creates and updates send the same fields.
pub fn manufacturer_write(spec: &ManufacturerSpec) -> (w: ManufacturerWrite)
    ensures
        manufacturer_write_for(w, *spec),
{
    ManufacturerWrite {
        name: spec.name.clone(),
        slug: copy_opt_text(&spec.slug),
        description: copy_opt_text(&spec.description),
        comments: copy_opt_text(&spec.comments),
        tags: desired_tag_names(&spec.tags),
    }
}

// ----- platforms, roles, tags ------------------------------------------------------

/// A platform as it is created; platforms are never updated.
#[derive(Debug)]
pub struct PlatformCreate {
    pub name: String,
    pub slug: Option<String>,
    pub manufacturer_id: Option<u64>,
    pub napalm_driver: Option<String>,
    pub napalm_args: Option<String>,
    pub description: Option<String>,
    pub comments: Option<String>,
}

/// The create of a platform, of manufacturer `manufacturer_id` when its
/// reference resolved to one.
pub fn platform_create(spec: &PlatformSpec, manufacturer_id: Option<u64>) -> (w: PlatformCreate)
    ensures
        w.name@ == spec.name@,
        opt_view(w.slug) == opt_view(spec.slug),
        w.manufacturer_id == manufacturer_id,
        opt_view(w.napalm_driver) == opt_view(spec.napalm_driver),
        opt_view(w.napalm_args) == opt_view(spec.napalm_args),
        opt_view(w.description) == opt_view(spec.description),
        opt_view(w.comments) == opt_view(spec.comments),
{
    PlatformCreate {
        name: spec.name.clone(),
        slug: copy_opt_text(&spec.slug),
        manufacturer_id,
        napalm_driver: copy_opt_text(&spec.napalm_driver),
        napalm_args: copy_opt_text(&spec.napalm_args),
        description: copy_opt_text(&spec.description),
        comments: copy_opt_text(&spec.comments),
    }
}

/// A role as it is created; roles are never updated.
#[derive(Debug)]
pub struct RoleCreate {
    pub name: String,
    pub slug: Option<String>,
    pub description: Option<String>,
    pub weight: Option<u16>,
    pub comments: Option<String>,
}

/// The create of a role.
pub fn role_create(spec: &RoleSpec) -> (w: RoleCreate)
    ensures
        w.name@ == spec.name@,
        opt_view(w.slug) == opt_view(spec.slug),
        opt_view(w.description) == opt_view(spec.description),
        w.weight == spec.weight,
        opt_view(w.comments) == opt_view(spec.comments),
{
    RoleCreate {
        name: spec.name.clone(),
        slug: copy_opt_text(&spec.slug),
        description: copy_opt_text(&spec.description),
        weight: spec.weight,
        comments: copy_opt_text(&spec.comments),
    }
}

/// A tag as it is created; tags are never updated.
#[derive(Debug)]
pub struct TagCreate {
    pub name: String,
    pub slug: Option<String>,
    pub color: Option<String>,
    pub description: Option<String>,
    pub comments: Option<String>,
}

/// The create of a tag.
pub fn tag_create(spec: &TagSpec) -> (w: TagCreate)
    ensures
        w.name@ == spec.name@,
        opt_view(w.slug) == opt_view(spec.slug),
        opt_view(w.color) == opt_view(spec.color),
        opt_view(w.description) == opt_view(spec.description),
        opt_view(w.comments) == opt_view(spec.comments),
{
    TagCreate {
        name: spec.name.clone(),
        slug: copy_opt_text(&spec.slug),
        color: copy_opt_text(&spec.color),
        description: copy_opt_text(&spec.description),
        comments: copy_opt_text(&spec.comments),
    }
}

// ----- VLANs -----------------------------------------------------------------------

/// A VLAN as it is created or updated.
#[derive(Debug)]
pub struct VlanWrite {
    pub vid: Option<u16>,
    pub name: Option<String>,
    pub site_id: Option<u64>,
    pub group_id: Option<u64>,
    pub tenant_id: Option<u64>,
    pub role_id: Option<u64>,
    pub status: Option<VlanStatus>,
    pub description: Option<String>,
    pub comments: Option<String>,
    pub tags: Option<Vec<String>>,
}

/// The create of a VLAN: with its site and tenant, without group, role or
/// comments.
pub fn vlan_create(spec: &VlanSpec, t: VlanTargets) -> (w: VlanWrite)
    ensures
        w.vid == Some(spec.vid),
        opt_view(w.name) == Some(spec.name@),
        w.site_id == t.site_id,
        w.group_id is None,
        w.tenant_id == Some(t.tenant_id),
        w.role_id is None,
        w.status == Some(spec.status),
        opt_view(w.description) == opt_view(spec.description),
        w.comments is None,
        tags_sent(w.tags, spec.tags),
{
    VlanWrite {
        vid: Some(spec.vid),
        name: Some(spec.name.clone()),
        site_id: t.site_id,
        group_id: None,
        tenant_id: Some(t.tenant_id),
        role_id: None,
        status: Some(spec.status),
        description: copy_opt_text(&spec.description),
        comments: None,
        tags: desired_tag_names(&spec.tags),
    }
}

/// The fields of the write, as `vlan_update` builds them.
pub open spec fn vlan_update_for(w: VlanWrite, spec: VlanSpec, t: VlanTargets) -> bool {
    &&& w.vid == Some(spec.vid)
    &&& opt_view(w.name) == Some(spec.name@)
    &&& w.site_id == t.site_id
    &&& w.group_id == t.group_id
    &&& w.tenant_id == Some(t.tenant_id)
    &&& w.role_id == t.role_id
    &&& w.status == Some(spec.status)
    &&& opt_view(w.description) == opt_view(spec.description)
    &&& opt_view(w.comments) == opt_view(spec.comments)
    &&& tags_sent(w.tags, spec.tags)
}

/// The update that corrects a drifted VLAN: every field.
pub fn vlan_update(spec: &VlanSpec, t: VlanTargets) -> (w: VlanWrite)
    ensures
        vlan_update_for(w, *spec, t),
{
    VlanWrite {
        vid: Some(spec.vid),
        name: Some(spec.name.clone()),
        site_id: t.site_id,
        group_id: t.group_id,
        tenant_id: Some(t.tenant_id),
        role_id: t.role_id,
        status: Some(spec.status),
        description: copy_opt_text(&spec.description),
        comments: copy_opt_text(&spec.comments),
        tags: desired_tag_names(&spec.tags),
    }
}

/// The update that brings a VLAN's tags in line: the tags alone.
pub fn vlan_tags_update(spec: &VlanSpec) -> (w: VlanWrite)
    ensures
        w.vid is None && w.name is None && w.site_id is None && w.group_id is None && w.tenant_id is None,
        w.role_id is None && w.status is None && w.description is None && w.comments is None,
        tags_sent(w.tags, spec.tags),
{
    VlanWrite {
        vid: None,
        name: None,
        site_id: None,
        group_id: None,
        tenant_id: None,
        role_id: None,
        status: None,
        description: None,
        comments: None,
        tags: desired_tag_names(&spec.tags),
    }
}

} // verus!
