//! What the drift checks are for, stated field by field: a record is found
//! drifted exactly when one of the fields its kind compares disagrees with
//! the spec (or with what the spec's references resolved to). Texts the
//! spec may leave out compare as the empty text when missing, except for
//! sites, which compare them exactly; a slug the spec leaves out is the one
//! NetBox generates from the name (lower case, spaces as dashes).
use vstd::prelude::*;
use crate::dcim::{
    device_differs, device_role_differs, device_type_differs, interface_differs, location_differs,
    mac_address_differs, manufacturer_differs, region_differs, site_differs, vlan_differs, DeviceRecord,
    DeviceRoleRecord, DeviceRoleSpec, DeviceSpec, DeviceTargets, DeviceTypeRecord, DeviceTypeSpec, InterfaceRecord,
    InterfaceSpec, LocationRecord, LocationSpec, MacAddressRecord, MacAddressSpec, ManufacturerRecord,
    ManufacturerSpec, RegionRecord, RegionSpec, SiteRecord, SiteSpec, SiteStatus, VlanRecord, VlanSpec,
    VlanTargets,
};
use crate::text::lowercase;

verus! {

/// A text as compared: a missing one counts as empty.
pub open spec fn shown(o: Option<String>) -> Seq<char> {
    match o {
        Some(s) => s@,
        None => seq![],
    }
}

/// An exactly compared optional text, as a value.
pub open spec fn exact(o: Option<String>) -> Option<Seq<char>> {
    match o {
        Some(s) => Some(s@),
        None => None,
    }
}

/// The slug NetBox generates from a name: the name in lower case, with
/// every space turned into a dash.
pub open spec fn generated_slug(name: Seq<char>) -> Seq<char> {
    let lower = lowercase(name);
    Seq::new(lower.len(), |i: int| if lower[i] == ' ' { '-' } else { lower[i] })
}

/// The slug a record must carry: the spec's, or the generated one.
pub open spec fn wanted_slug(slug: Option<String>, name: String) -> Seq<char> {
    match slug {
        Some(s) => s@,
        None => generated_slug(name@),
    }
}

/// Regions and site groups: no drift exactly when name, slug, parent,
/// description and comments agree.
pub proof fn law_region_drift(spec: RegionSpec, e: RegionRecord, parent_id: Option<u64>)
    ensures
        !region_differs(spec, e, parent_id) <==> (
            e.name@ == spec.name@
            && e.slug@ == wanted_slug(spec.slug, spec.name)
            && e.parent_id == parent_id
            && shown(e.description) == shown(spec.description)
            && shown(e.comments) == shown(spec.comments)
        ),
{
    assert(generated_slug(spec.name@) =~= crate::text::spec_auto_slug(spec.name@));
}

/// Sites: no drift exactly when name, slug (when the spec gives one),
/// addresses, coordinates, tenant, region, site group, status, facility,
/// time zone and comments agree, optional texts compared exactly.
pub proof fn law_site_drift(
    spec: SiteSpec,
    e: SiteRecord,
    coordinates_differ: bool,
    tenant_id: u64,
    region_id: Option<u64>,
    site_group_id: Option<u64>,
    status: SiteStatus,
)
    ensures
        !site_differs(spec, e, coordinates_differ, tenant_id, region_id, site_group_id, status) <==> (
            e.name@ == spec.name@
            && (spec.slug is Some ==> e.slug@ == spec.slug->0@)
            && exact(e.description) == exact(spec.description)
            && exact(e.physical_address) == exact(spec.physical_address)
            && exact(e.shipping_address) == exact(spec.shipping_address)
            && !coordinates_differ
            && e.tenant_id == Some(tenant_id)
            && e.region_id == region_id
            && e.site_group_id == site_group_id
            && e.status == status
            && exact(e.facility) == exact(spec.facility)
            && exact(e.time_zone) == exact(spec.time_zone)
            && exact(e.comments) == exact(spec.comments)
        ),
{
}

/// Devices: no drift exactly when name, type, role, site, location, tenant,
/// platform, serial, asset tag, status, primary IPs, description and
/// comments agree.
pub proof fn law_device_drift(spec: DeviceSpec, e: DeviceRecord, t: DeviceTargets)
    ensures
        !device_differs(spec, e, t) <==> (
            shown(e.name) == shown(spec.name)
            && e.device_type_id == t.device_type_id
            && e.device_role_id == Some(t.device_role_id)
            && e.site_id == Some(t.site_id)
            && e.location_id == t.location_id
            && e.tenant_id == Some(t.tenant_id)
            && e.platform_id == t.platform_id
            && shown(e.serial) == shown(spec.serial)
            && shown(e.asset_tag) == shown(spec.asset_tag)
            && e.status == spec.status
            && e.primary_ip4_id == t.primary_ip4_id
            && e.primary_ip6_id == t.primary_ip6_id
            && shown(e.description) == shown(spec.description)
            && shown(e.comments) == shown(spec.comments)
        ),
{
}

/// Device roles: no drift exactly when name, slug, color, VM role,
/// description and comments agree.
pub proof fn law_device_role_drift(spec: DeviceRoleSpec, e: DeviceRoleRecord)
    ensures
        !device_role_differs(spec, e) <==> (
            e.name@ == spec.name@
            && e.slug@ == wanted_slug(spec.slug, spec.name)
            && shown(e.color) == shown(spec.color)
            && e.vm_role == spec.vm_role
            && shown(e.description) == shown(spec.description)
            && shown(e.comments) == shown(spec.comments)
        ),
{
    assert(generated_slug(spec.name@) =~= crate::text::spec_auto_slug(spec.name@));
}

/// Device types: no drift exactly when manufacturer, model, slug (generated
/// from the model), part number, height, depth, description and comments
/// agree.
pub proof fn law_device_type_drift(spec: DeviceTypeSpec, e: DeviceTypeRecord, manufacturer_id: u64, height_differs: bool)
    ensures
        !device_type_differs(spec, e, manufacturer_id, height_differs) <==> (
            e.manufacturer_id == manufacturer_id
            && e.model@ == spec.model@
            && e.slug@ == wanted_slug(spec.slug, spec.model)
            && shown(e.part_number) == shown(spec.part_number)
            && !height_differs
            && e.is_full_depth == spec.is_full_depth
            && shown(e.description) == shown(spec.description)
            && shown(e.comments) == shown(spec.comments)
        ),
{
    assert(generated_slug(spec.model@) =~= crate::text::spec_auto_slug(spec.model@));
}

/// Interfaces: no drift exactly when device, name, type, enabled flag, MAC
/// address, MTU, description and comments agree.
pub proof fn law_interface_drift(spec: InterfaceSpec, e: InterfaceRecord, device_id: u64)
    ensures
        !interface_differs(spec, e, device_id) <==> (
            e.device_id == device_id
            && e.name@ == spec.name@
            && e.interface_type@ == spec.interface_type@
            && e.enabled == spec.enabled
            && shown(e.mac_address) == shown(spec.mac_address)
            && e.mtu == spec.mtu
            && shown(e.description) == shown(spec.description)
            && shown(e.comments) == shown(spec.comments)
        ),
{
}

/// Locations: no drift exactly when name, slug, site, tenant, parent,
/// facility, description and comments agree.
pub proof fn law_location_drift(
    spec: LocationSpec,
    e: LocationRecord,
    site_id: u64,
    tenant_id: u64,
    parent_id: Option<u64>,
)
    ensures
        !location_differs(spec, e, site_id, tenant_id, parent_id) <==> (
            e.name@ == spec.name@
            && e.slug@ == wanted_slug(spec.slug, spec.name)
            && e.site_id == site_id
            && e.tenant_id == Some(tenant_id)
            && e.parent_id == parent_id
            && shown(e.facility) == shown(spec.facility)
            && shown(e.description) == shown(spec.description)
            && shown(e.comments) == shown(spec.comments)
        ),
{
    assert(generated_slug(spec.name@) =~= crate::text::spec_auto_slug(spec.name@));
}

/// MAC addresses: no drift exactly when the assigned interface, the
/// description and the comments agree.
pub proof fn law_mac_address_drift(spec: MacAddressSpec, e: MacAddressRecord, interface_id: u64)
    ensures
        !mac_address_differs(spec, e, interface_id) <==> (
            e.assigned_object_id == Some(interface_id)
            && shown(e.description) == shown(spec.description)
            && shown(e.comments) == shown(spec.comments)
        ),
{
}

/// Manufacturers: no drift exactly when name, slug, description and
/// comments agree.
pub proof fn law_manufacturer_drift(spec: ManufacturerSpec, e: ManufacturerRecord)
    ensures
        !manufacturer_differs(spec, e) <==> (
            e.name@ == spec.name@
            && e.slug@ == wanted_slug(spec.slug, spec.name)
            && shown(e.description) == shown(spec.description)
            && shown(e.comments) == shown(spec.comments)
        ),
{
    assert(generated_slug(spec.name@) =~= crate::text::spec_auto_slug(spec.name@));
}

/// VLANs: no drift exactly when VLAN id, name, site, tenant, role, group,
/// status, description and comments agree.
pub proof fn law_vlan_drift(spec: VlanSpec, e: VlanRecord, t: VlanTargets)
    ensures
        !vlan_differs(spec, e, t) <==> (
            e.vid == spec.vid
            && e.name@ == spec.name@
            && e.site_id == t.site_id
            && e.tenant_id == Some(t.tenant_id)
            && e.role_id == t.role_id
            && e.group_id == t.group_id
            && e.status == spec.status
            && e.description@ == shown(spec.description)
            && e.comments@ == shown(spec.comments)
        ),
{
}

} // verus!
