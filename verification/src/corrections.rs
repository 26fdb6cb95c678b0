//! Drift correction: the update a reconciliation sends for a drifted record
//! brings the record back in line with its spec.
//!
//! NetBox is modelled as setting every field an update sends and keeping
//! every field it does not send (`None`). An update cannot clear a field: a
//! value the spec leaves out, or a reference it does not make, is not sent.
//! So each law holds of records whose fields outside the update's reach
//! already agree with the spec (`*_correctable`); on the others the record
//! stays drifted, as it does against the live service.
use vstd::prelude::*;
use crate::compare::text_or_empty;
use crate::dcim::{
    device_differs, device_role_differs, device_type_differs, interface_differs, location_differs,
    mac_address_differs, manufacturer_differs, region_differs, site_differs, vlan_differs, DeviceRecord,
    DeviceRoleRecord, DeviceRoleSpec, DeviceSpec, DeviceTargets, DeviceTypeRecord, DeviceTypeSpec,
    InterfaceRecord, InterfaceSpec, LocationRecord, LocationSpec, MacAddressRecord, MacAddressSpec,
    ManufacturerRecord, ManufacturerSpec, RegionRecord, RegionSpec, SiteRecord, SiteSpec, VlanRecord, VlanSpec,
    VlanTargets,
};
use crate::requests::{
    device_role_write_for, device_type_write_for, device_update_for, interface_update_for, location_update_for,
    mac_address_update_for, manufacturer_write_for, region_write_for, site_write_for, vlan_update_for,
    DeviceRoleWrite, DeviceTypeWrite, DeviceUpdate, InterfaceWrite, LocationWrite, MacAddressWrite,
    ManufacturerWrite, RegionWrite, SiteWrite, VlanWrite,
};
use crate::text::spec_auto_slug;

verus! {

/// The value a field holds after a write: the value sent, or the old one.
pub open spec fn put<T>(sent: Option<T>, old: Option<T>) -> Option<T> {
    match sent {
        Some(v) => Some(v),
        None => old,
    }
}

/// A slug after a write.
pub open spec fn put_slug(sent: Option<String>, old: String) -> String {
    match sent {
        Some(s) => s,
        None => old,
    }
}

/// A text the spec may leave out is either given, or already empty.
pub open spec fn given_or_empty(desired: Option<String>, existing: Option<String>) -> bool {
    desired is Some || text_or_empty(existing) == Seq::<char>::empty()
}

/// A reference the spec may leave out is either made, or already absent.
pub open spec fn given_or_absent<T>(desired: Option<T>, existing: Option<T>) -> bool {
    desired is Some || existing is None
}

/// A slug the spec may leave out is either given, or already the one
/// generated from `name`.
pub open spec fn slug_given_or_generated(desired: Option<String>, existing: String, name: String) -> bool {
    desired is Some || existing@ == spec_auto_slug(name@)
}

// ----- regions and site groups -------------------------------------------------

pub open spec fn region_after_update(e: RegionRecord, w: RegionWrite) -> RegionRecord {
    RegionRecord {
        record: e.record,
        name: w.name,
        slug: put_slug(w.slug, e.slug),
        parent_id: put(w.parent_id, e.parent_id),
        description: put(w.description, e.description),
        comments: put(w.comments, e.comments),
    }
}

pub open spec fn region_correctable(spec: RegionSpec, e: RegionRecord, parent_id: Option<u64>) -> bool {
    &&& slug_given_or_generated(spec.slug, e.slug, spec.name)
    &&& given_or_absent(parent_id, e.parent_id)
    &&& given_or_empty(spec.description, e.description)
    &&& given_or_empty(spec.comments, e.comments)
}

/// The update of a drifted region or site group leaves it in line with its
/// spec.
pub proof fn law_region_update_corrects_drift(spec: RegionSpec, e: RegionRecord, parent_id: Option<u64>, w: RegionWrite)
    requires
        region_write_for(w, spec, parent_id),
        region_correctable(spec, e, parent_id),
    ensures
        !region_differs(spec, region_after_update(e, w), parent_id),
{
}

// ----- sites ---------------------------------------------------------------------

pub open spec fn site_after_update(e: SiteRecord, w: SiteWrite) -> SiteRecord {
    SiteRecord {
        record: e.record,
        name: w.name,
        slug: put_slug(w.slug, e.slug),
        description: put(w.description, e.description),
        physical_address: put(w.physical_address, e.physical_address),
        shipping_address: put(w.shipping_address, e.shipping_address),
        tenant_id: Some(w.tenant_id),
        region_id: put(w.region_id, e.region_id),
        site_group_id: put(w.site_group_id, e.site_group_id),
        status: w.status,
        facility: put(w.facility, e.facility),
        time_zone: put(w.time_zone, e.time_zone),
        comments: put(w.comments, e.comments),
    }
}

/// Sites compare their texts exactly, so a text the spec leaves out must be
/// absent.
pub open spec fn site_correctable(spec: SiteSpec, e: SiteRecord, region_id: Option<u64>, site_group_id: Option<u64>) -> bool {
    &&& given_or_absent(spec.description, e.description)
    &&& given_or_absent(spec.physical_address, e.physical_address)
    &&& given_or_absent(spec.shipping_address, e.shipping_address)
    &&& given_or_absent(region_id, e.region_id)
    &&& given_or_absent(site_group_id, e.site_group_id)
    &&& given_or_absent(spec.facility, e.facility)
    &&& given_or_absent(spec.time_zone, e.time_zone)
    &&& given_or_absent(spec.comments, e.comments)
}

/// The update of a drifted site leaves it in line with its spec (its
/// coordinates, which the update also sends, agreeing).
pub proof fn law_site_update_corrects_drift(
    spec: SiteSpec,
    e: SiteRecord,
    tenant_id: u64,
    region_id: Option<u64>,
    site_group_id: Option<u64>,
    w: SiteWrite,
)
    requires
        site_write_for(w, spec, tenant_id, region_id, site_group_id),
        site_correctable(spec, e, region_id, site_group_id),
    ensures
        !site_differs(spec, site_after_update(e, w), false, tenant_id, region_id, site_group_id, spec.status),
{
}

// ----- locations -----------------------------------------------------------------

pub open spec fn location_after_update(e: LocationRecord, w: LocationWrite) -> LocationRecord {
    LocationRecord {
        record: e.record,
        site_id: match w.site_id {
            Some(s) => s,
            None => e.site_id,
        },
        tenant_id: Some(w.tenant_id),
        parent_id: put(w.parent_id, e.parent_id),
        name: w.name,
        slug: put_slug(w.slug, e.slug),
        facility: put(w.facility, e.facility),
        description: put(w.description, e.description),
        comments: put(w.comments, e.comments),
    }
}

/// A location update never moves the location: its site must already be
/// the desired one.
pub open spec fn location_correctable(spec: LocationSpec, e: LocationRecord, site_id: u64, parent_id: Option<u64>) -> bool {
    &&& e.site_id == site_id
    &&& slug_given_or_generated(spec.slug, e.slug, spec.name)
    &&& given_or_absent(parent_id, e.parent_id)
    &&& given_or_empty(spec.facility, e.facility)
    &&& given_or_empty(spec.description, e.description)
    &&& given_or_empty(spec.comments, e.comments)
}

/// The update of a drifted location leaves it in line with its spec, and
/// in its site.
pub proof fn law_location_update_corrects_drift(
    spec: LocationSpec,
    e: LocationRecord,
    site_id: u64,
    tenant_id: u64,
    parent_id: Option<u64>,
    w: LocationWrite,
)
    requires
        location_update_for(w, spec, parent_id, tenant_id, false),
        location_correctable(spec, e, site_id, parent_id),
    ensures
        !location_differs(spec, location_after_update(e, w), site_id, tenant_id, parent_id),
        location_after_update(e, w).site_id == e.site_id,
{
}

// ----- devices -------------------------------------------------------------------

pub open spec fn device_after_update(e: DeviceRecord, w: DeviceUpdate) -> DeviceRecord {
    DeviceRecord {
        record: e.record,
        name: put(w.name, e.name),
        device_type_id: w.device_type_id,
        device_role_id: Some(w.device_role_id),
        site_id: Some(w.site_id),
        location_id: put(w.location_id, e.location_id),
        tenant_id: Some(w.tenant_id),
        platform_id: put(w.platform_id, e.platform_id),
        serial: put(w.serial, e.serial),
        asset_tag: put(w.asset_tag, e.asset_tag),
        status: w.status,
        primary_ip4_id: put(w.primary_ip4_id, e.primary_ip4_id),
        primary_ip6_id: put(w.primary_ip6_id, e.primary_ip6_id),
        description: put(w.description, e.description),
        comments: put(w.comments, e.comments),
    }
}

/// The fields a device update cannot clear already agree.
pub open spec fn device_correctable(spec: DeviceSpec, e: DeviceRecord, t: DeviceTargets) -> bool {
    &&& given_or_empty(spec.name, e.name)
    &&& given_or_absent(t.location_id, e.location_id)
    &&& given_or_absent(t.platform_id, e.platform_id)
    &&& given_or_empty(spec.serial, e.serial)
    &&& given_or_empty(spec.asset_tag, e.asset_tag)
    &&& given_or_absent(t.primary_ip4_id, e.primary_ip4_id)
    &&& given_or_absent(t.primary_ip6_id, e.primary_ip6_id)
    &&& given_or_empty(spec.description, e.description)
    &&& given_or_empty(spec.comments, e.comments)
}

/// The update of a drifted device leaves it in line with its spec, type,
/// role, site and primary IPs included.
pub proof fn law_device_update_corrects_drift(spec: DeviceSpec, e: DeviceRecord, t: DeviceTargets, w: DeviceUpdate)
    requires
        device_update_for(w, spec, t),
        device_correctable(spec, e, t),
    ensures
        !device_differs(spec, device_after_update(e, w), t),
{
}

// ----- device roles and types ------------------------------------------------------

pub open spec fn device_role_after_update(e: DeviceRoleRecord, w: DeviceRoleWrite) -> DeviceRoleRecord {
    DeviceRoleRecord {
        record: e.record,
        name: w.name,
        slug: put_slug(w.slug, e.slug),
        color: put(w.color, e.color),
        vm_role: w.vm_role,
        description: put(w.description, e.description),
        comments: put(w.comments, e.comments),
    }
}

pub open spec fn device_role_correctable(spec: DeviceRoleSpec, e: DeviceRoleRecord) -> bool {
    &&& slug_given_or_generated(spec.slug, e.slug, spec.name)
    &&& given_or_empty(spec.color, e.color)
    &&& given_or_empty(spec.description, e.description)
    &&& given_or_empty(spec.comments, e.comments)
}

/// The update of a drifted device role leaves it in line with its spec.
pub proof fn law_device_role_update_corrects_drift(spec: DeviceRoleSpec, e: DeviceRoleRecord, w: DeviceRoleWrite)
    requires
        device_role_write_for(w, spec),
        device_role_correctable(spec, e),
    ensures
        !device_role_differs(spec, device_role_after_update(e, w)),
{
}

pub open spec fn device_type_after_update(e: DeviceTypeRecord, w: DeviceTypeWrite) -> DeviceTypeRecord {
    DeviceTypeRecord {
        record: e.record,
        manufacturer_id: w.manufacturer_id,
        model: w.model,
        slug: put_slug(w.slug, e.slug),
        part_number: put(w.part_number, e.part_number),
        is_full_depth: w.is_full_depth,
        description: put(w.description, e.description),
        comments: put(w.comments, e.comments),
    }
}

pub open spec fn device_type_correctable(spec: DeviceTypeSpec, e: DeviceTypeRecord) -> bool {
    &&& slug_given_or_generated(spec.slug, e.slug, spec.model)
    &&& given_or_empty(spec.part_number, e.part_number)
    &&& given_or_empty(spec.description, e.description)
    &&& given_or_empty(spec.comments, e.comments)
}

/// The update of a drifted device type leaves it in line with its spec (its
/// height, which the update also sends, agreeing).
pub proof fn law_device_type_update_corrects_drift(
    spec: DeviceTypeSpec,
    e: DeviceTypeRecord,
    manufacturer_id: u64,
    w: DeviceTypeWrite,
)
    requires
        device_type_write_for(w, spec, manufacturer_id),
        device_type_correctable(spec, e),
    ensures
        !device_type_differs(spec, device_type_after_update(e, w), manufacturer_id, false),
{
}

// ----- interfaces and MAC addresses --------------------------------------------------

pub open spec fn interface_after_update(e: InterfaceRecord, w: InterfaceWrite) -> InterfaceRecord {
    InterfaceRecord {
        record: e.record,
        device_id: match w.device_id {
            Some(d) => d,
            None => e.device_id,
        },
        name: w.name,
        interface_type: w.interface_type,
        enabled: w.enabled,
        mac_address: put(w.mac_address, e.mac_address),
        mtu: put(w.mtu, e.mtu),
        description: put(w.description, e.description),
        comments: put(w.comments, e.comments),
    }
}

/// An interface update never moves the interface to another device.
pub open spec fn interface_correctable(spec: InterfaceSpec, e: InterfaceRecord, device_id: u64) -> bool {
    &&& e.device_id == device_id
    &&& given_or_empty(spec.mac_address, e.mac_address)
    &&& given_or_absent(spec.mtu, e.mtu)
    &&& given_or_empty(spec.description, e.description)
    &&& given_or_empty(spec.comments, e.comments)
}

/// The update of a drifted interface leaves it in line with its spec.
pub proof fn law_interface_update_corrects_drift(spec: InterfaceSpec, e: InterfaceRecord, device_id: u64, w: InterfaceWrite)
    requires
        interface_update_for(w, spec),
        interface_correctable(spec, e, device_id),
    ensures
        !interface_differs(spec, interface_after_update(e, w), device_id),
{
}

pub open spec fn mac_address_after_update(e: MacAddressRecord, w: MacAddressWrite) -> MacAddressRecord {
    MacAddressRecord {
        record: e.record,
        assigned_object_id: Some(w.interface_id),
        description: put(w.description, e.description),
        comments: put(w.comments, e.comments),
    }
}

/// The update of a drifted MAC address assigns it to its interface and
/// leaves it in line with its spec.
pub proof fn law_mac_address_update_corrects_drift(
    spec: MacAddressSpec,
    e: MacAddressRecord,
    interface_id: u64,
    w: MacAddressWrite,
)
    requires
        mac_address_update_for(w, spec, interface_id),
        given_or_empty(spec.description, e.description),
        given_or_empty(spec.comments, e.comments),
    ensures
        !mac_address_differs(spec, mac_address_after_update(e, w), interface_id),
        mac_address_after_update(e, w).assigned_object_id == Some(interface_id),
{
}

// ----- manufacturers ---------------------------------------------------------------

pub open spec fn manufacturer_after_update(e: ManufacturerRecord, w: ManufacturerWrite) -> ManufacturerRecord {
    ManufacturerRecord {
        record: e.record,
        name: w.name,
        slug: put_slug(w.slug, e.slug),
        description: put(w.description, e.description),
        comments: put(w.comments, e.comments),
    }
}

/// The update of a drifted manufacturer leaves it in line with its spec.
pub proof fn law_manufacturer_update_corrects_drift(spec: ManufacturerSpec, e: ManufacturerRecord, w: ManufacturerWrite)
    requires
        manufacturer_write_for(w, spec),
        slug_given_or_generated(spec.slug, e.slug, spec.name),
        given_or_empty(spec.description, e.description),
        given_or_empty(spec.comments, e.comments),
    ensures
        !manufacturer_differs(spec, manufacturer_after_update(e, w)),
{
}

// ----- VLANs -----------------------------------------------------------------------

/// A VLAN's texts after a write (NetBox keeps them as possibly empty texts).
pub open spec fn put_text(sent: Option<String>, old: String) -> String {
    match sent {
        Some(s) => s,
        None => old,
    }
}

pub open spec fn vlan_after_update(e: VlanRecord, w: VlanWrite) -> VlanRecord {
    VlanRecord {
        record: e.record,
        vid: match w.vid {
            Some(v) => v,
            None => e.vid,
        },
        name: put_text(w.name, e.name),
        site_id: put(w.site_id, e.site_id),
        tenant_id: put(w.tenant_id, e.tenant_id),
        role_id: put(w.role_id, e.role_id),
        group_id: put(w.group_id, e.group_id),
        status: match w.status {
            Some(s) => s,
            None => e.status,
        },
        description: put_text(w.description, e.description),
        comments: put_text(w.comments, e.comments),
    }
}

pub open spec fn vlan_correctable(spec: VlanSpec, e: VlanRecord, t: VlanTargets) -> bool {
    &&& given_or_absent(t.site_id, e.site_id)
    &&& given_or_absent(t.role_id, e.role_id)
    &&& given_or_absent(t.group_id, e.group_id)
    &&& (spec.description is Some || e.description@ == Seq::<char>::empty())
    &&& (spec.comments is Some || e.comments@ == Seq::<char>::empty())
}

/// The update of a drifted VLAN leaves it in line with its spec.
pub proof fn law_vlan_update_corrects_drift(spec: VlanSpec, e: VlanRecord, t: VlanTargets, w: VlanWrite)
    requires
        vlan_update_for(w, spec, t),
        vlan_correctable(spec, e, t),
    ensures
        !vlan_differs(spec, vlan_after_update(e, w), t),
{
}

} // verus!
