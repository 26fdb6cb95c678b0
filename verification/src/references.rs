//! The references each kind resolves before it writes to NetBox, in order,
//! and which failures record a `DependencyNotFound` event. Each function
//! takes the status of every referenced resource (when it exists) and
//! stops at the first reference that fails.
use vstd::prelude::*;
use crate::dcim::{DeviceSpec, DeviceTargets, DeviceTypeSpec, LocationSpec, PlatformSpec, RegionSpec, SiteSpec, VlanSpec};
use crate::dependency::{
    optional_dependency, optional_failure, optional_outcome, optional_value, required_dependency, required_failure,
    required_outcome, required_value,
};
use crate::model::{ControllerError, ResourceStatus};

verus! {

/// The kind a region's or site group's parent must have.
pub open spec fn parent_kind(site_group: bool) -> Seq<char> {
    if site_group { "NetBoxSiteGroup"@ } else { "NetBoxRegion"@ }
}

/// Regions and site groups: their optional parent.
pub fn region_references(spec: &RegionSpec, site_group: bool, parent: &Option<Option<ResourceStatus>>)
    -> (r: Result<Option<u64>, (ControllerError, bool)>)
    ensures
        optional_outcome(r, spec.parent, parent_kind(site_group), "parent"@, *parent),
{
    let kind = if site_group { "NetBoxSiteGroup" } else { "NetBoxRegion" };
    optional_dependency(&spec.parent, kind, "parent", parent)
}

/// Sites: their tenant (a failure records no event), then their optional
/// region and site group.
pub fn site_references(
    spec: &SiteSpec,
    tenant: &Option<Option<ResourceStatus>>,
    region: &Option<Option<ResourceStatus>>,
    site_group: &Option<Option<ResourceStatus>>,
) -> (r: Result<(u64, Option<u64>, Option<u64>), (ControllerError, bool)>)
    ensures
        match required_value(spec.tenant, "NetBoxTenant"@, *tenant) {
            None => r matches Err(e) && required_failure(e, spec.tenant, "NetBoxTenant"@, "tenant"@, "Tenant"@, *tenant, false),
            Some(t) => match optional_value(spec.region, "NetBoxRegion"@, *region) {
                None => r matches Err(e) && optional_failure(e, spec.region, "NetBoxRegion"@, "region"@),
                Some(rg) => match optional_value(spec.site_group, "NetBoxSiteGroup"@, *site_group) {
                    None => r matches Err(e) && optional_failure(e, spec.site_group, "NetBoxSiteGroup"@, "site_group"@),
                    Some(sg) => r matches Ok(v) && v == (t, rg, sg),
                },
            },
        },
{
    let t = match required_dependency(&spec.tenant, "NetBoxTenant", "tenant", "Tenant", tenant, false) {
        Ok(t) => t,
        Err(e) => return Err(e),
    };
    let rg = match optional_dependency(&spec.region, "NetBoxRegion", "region", region) {
        Ok(x) => x,
        Err(e) => return Err(e),
    };
    let sg = match optional_dependency(&spec.site_group, "NetBoxSiteGroup", "site_group", site_group) {
        Ok(x) => x,
        Err(e) => return Err(e),
    };
    Ok((t, rg, sg))
}

/// The statuses of the resources a device refers to.
#[derive(Debug)]
pub struct DeviceLookups {
    pub device_type: Option<Option<ResourceStatus>>,
    pub device_role: Option<Option<ResourceStatus>>,
    pub site: Option<Option<ResourceStatus>>,
    pub tenant: Option<Option<ResourceStatus>>,
    pub location: Option<Option<ResourceStatus>>,
    pub platform: Option<Option<ResourceStatus>>,
}

/// Devices: their type, role, site and tenant (each failure records an
/// event), then their optional location and platform; the primary IPs are
/// the ids `primary_ip4_id` and `primary_ip6_id` their addresses were found
/// under.
pub fn device_references(
    spec: &DeviceSpec,
    l: &DeviceLookups,
    primary_ip4_id: Option<u64>,
    primary_ip6_id: Option<u64>,
) -> (r: Result<DeviceTargets, (ControllerError, bool)>)
    ensures
        match required_value(spec.device_type, "NetBoxDeviceType"@, l.device_type) {
            None => r matches Err(e) && required_failure(
                e, spec.device_type, "NetBoxDeviceType"@, "device_type"@, "DeviceType"@, l.device_type, true),
            Some(dt) => match required_value(spec.device_role, "NetBoxDeviceRole"@, l.device_role) {
                None => r matches Err(e) && required_failure(
                    e, spec.device_role, "NetBoxDeviceRole"@, "device_role"@, "DeviceRole"@, l.device_role, true),
                Some(dr) => match required_value(spec.site, "NetBoxSite"@, l.site) {
                    None => r matches Err(e) && required_failure(e, spec.site, "NetBoxSite"@, "site"@, "Site"@, l.site, true),
                    Some(st) => match required_value(spec.tenant, "NetBoxTenant"@, l.tenant) {
                        None => r matches Err(e) && required_failure(
                            e, spec.tenant, "NetBoxTenant"@, "tenant"@, "Tenant"@, l.tenant, true),
                        Some(tn) => match optional_value(spec.location, "NetBoxLocation"@, l.location) {
                            None => r matches Err(e) && optional_failure(e, spec.location, "NetBoxLocation"@, "location"@),
                            Some(lc) => match optional_value(spec.platform, "NetBoxPlatform"@, l.platform) {
                                None => r matches Err(e) && optional_failure(
                                    e, spec.platform, "NetBoxPlatform"@, "platform"@),
                                Some(pf) => r matches Ok(t) && t == DeviceTargets {
                                    device_type_id: dt,
                                    device_role_id: dr,
                                    site_id: st,
                                    location_id: lc,
                                    tenant_id: tn,
                                    platform_id: pf,
                                    primary_ip4_id,
                                    primary_ip6_id,
                                },
                            },
                        },
                    },
                },
            },
        },
{
    let dt = match required_dependency(&spec.device_type, "NetBoxDeviceType", "device_type", "DeviceType", &l.device_type, true) {
        Ok(x) => x,
        Err(e) => return Err(e),
    };
    let dr = match required_dependency(&spec.device_role, "NetBoxDeviceRole", "device_role", "DeviceRole", &l.device_role, true) {
        Ok(x) => x,
        Err(e) => return Err(e),
    };
    let st = match required_dependency(&spec.site, "NetBoxSite", "site", "Site", &l.site, true) {
        Ok(x) => x,
        Err(e) => return Err(e),
    };
    let tn = match required_dependency(&spec.tenant, "NetBoxTenant", "tenant", "Tenant", &l.tenant, true) {
        Ok(x) => x,
        Err(e) => return Err(e),
    };
    let lc = match optional_dependency(&spec.location, "NetBoxLocation", "location", &l.location) {
        Ok(x) => x,
        Err(e) => return Err(e),
    };
    let pf = match optional_dependency(&spec.platform, "NetBoxPlatform", "platform", &l.platform) {
        Ok(x) => x,
        Err(e) => return Err(e),
    };
    Ok(DeviceTargets {
        device_type_id: dt,
        device_role_id: dr,
        site_id: st,
        location_id: lc,
        tenant_id: tn,
        platform_id: pf,
        primary_ip4_id,
        primary_ip6_id,
    })
}

/// Device types: their manufacturer (a failure records an event).
pub fn device_type_references(spec: &DeviceTypeSpec, manufacturer: &Option<Option<ResourceStatus>>)
    -> (r: Result<u64, (ControllerError, bool)>)
    ensures
        required_outcome(r, spec.manufacturer, "NetBoxManufacturer"@, "manufacturer"@, "Manufacturer"@, *manufacturer, true),
{
    required_dependency(&spec.manufacturer, "NetBoxManufacturer", "manufacturer", "Manufacturer", manufacturer, true)
}

/// Locations: their site and tenant (each failure records an event), then
/// their optional parent location.
pub fn location_references(
    spec: &LocationSpec,
    site: &Option<Option<ResourceStatus>>,
    tenant: &Option<Option<ResourceStatus>>,
    parent: &Option<Option<ResourceStatus>>,
) -> (r: Result<(u64, u64, Option<u64>), (ControllerError, bool)>)
    ensures
        match required_value(spec.site, "NetBoxSite"@, *site) {
            None => r matches Err(e) && required_failure(e, spec.site, "NetBoxSite"@, "site"@, "Site"@, *site, true),
            Some(s) => match required_value(spec.tenant, "NetBoxTenant"@, *tenant) {
                None => r matches Err(e) && required_failure(e, spec.tenant, "NetBoxTenant"@, "tenant"@, "Tenant"@, *tenant, true),
                Some(t) => match optional_value(spec.parent, "NetBoxLocation"@, *parent) {
                    None => r matches Err(e) && optional_failure(e, spec.parent, "NetBoxLocation"@, "parent"@),
                    Some(p) => r matches Ok(v) && v == (s, t, p),
                },
            },
        },
{
    let s = match required_dependency(&spec.site, "NetBoxSite", "site", "Site", site, true) {
        Ok(x) => x,
        Err(e) => return Err(e),
    };
    let t = match required_dependency(&spec.tenant, "NetBoxTenant", "tenant", "Tenant", tenant, true) {
        Ok(x) => x,
        Err(e) => return Err(e),
    };
    let p = match optional_dependency(&spec.parent, "NetBoxLocation", "parent", parent) {
        Ok(x) => x,
        Err(e) => return Err(e),
    };
    Ok((s, t, p))
}

/// Platforms: their optional manufacturer; a missing one is no failure.
pub fn platform_references(spec: &PlatformSpec, manufacturer: &Option<Option<ResourceStatus>>)
    -> (r: Result<Option<u64>, (ControllerError, bool)>)
    ensures
        optional_outcome(r, spec.manufacturer, "NetBoxManufacturer"@, "manufacturer"@, *manufacturer),
{
    optional_dependency(&spec.manufacturer, "NetBoxManufacturer", "manufacturer", manufacturer)
}

/// VLANs: their tenant (a failure records an event), then their optional
/// role. (Their site decides, before the reconciliation starts, whether
/// creation waits.)
pub fn vlan_references(
    spec: &VlanSpec,
    tenant: &Option<Option<ResourceStatus>>,
    role: &Option<Option<ResourceStatus>>,
) -> (r: Result<(u64, Option<u64>), (ControllerError, bool)>)
    ensures
        match required_value(spec.tenant, "NetBoxTenant"@, *tenant) {
            None => r matches Err(e) && required_failure(e, spec.tenant, "NetBoxTenant"@, "tenant"@, "Tenant"@, *tenant, true),
            Some(t) => match optional_value(spec.role, "NetBoxRole"@, *role) {
                None => r matches Err(e) && optional_failure(e, spec.role, "NetBoxRole"@, "role"@),
                Some(rl) => r matches Ok(v) && v == (t, rl),
            },
        },
{
    let t = match required_dependency(&spec.tenant, "NetBoxTenant", "tenant", "Tenant", tenant, true) {
        Ok(x) => x,
        Err(e) => return Err(e),
    };
    let rl = match optional_dependency(&spec.role, "NetBoxRole", "role", role) {
        Ok(x) => x,
        Err(e) => return Err(e),
    };
    Ok((t, rl))
}

} // verus!
