//! What each kind hands the state machine before it starts: the current
//! status, whether drift is detected, the tags asked for, and how a record
//! that already exists is recognised after a create conflict.
use vstd::prelude::*;
use crate::compare::opt_texts_view;
use crate::dcim::{
    DeviceRoleSpec, DeviceSpec, DeviceTypeSpec, InterfaceSpec, LocationSpec, MacAddressSpec, ManufacturerSpec,
    PlatformSpec, RegionSpec, SiteSpec, VlanSpec,
};
use crate::decisions::{desired_tag_names, drift_detection_enabled, reference_names, vlan_creation_deferred};
use crate::engine::Inputs;
use crate::extras::{RoleSpec, TagSpec};
use crate::matching::MatchRule;
use crate::model::{copy_opt_text, opt_view, ResourceReference, ResourceStatus};

verus! {

/// The tag names a spec's tag references ask for.
pub open spec fn wanted_tags(tags: Option<Vec<ResourceReference>>) -> Option<Seq<Seq<char>>> {
    match tags {
        Some(refs) => Some(reference_names(refs@)),
        None => None,
    }
}

/// Whether drift detection is on for a switch in a spec.
pub open spec fn drift_on(flag: Option<bool>) -> bool {
    match flag {
        Some(b) => b,
        None => true,
    }
}

/// The inputs hold the given values.
pub open spec fn inputs_are(
    i: Inputs,
    status: Option<ResourceStatus>,
    drift: bool,
    tags: Option<Seq<Seq<char>>>,
    defer: bool,
    name_missing: bool,
    first: bool,
    second: bool,
) -> bool {
    &&& i.status == status
    &&& i.drift_detection == drift
    &&& opt_texts_view(i.desired_tags) == tags
    &&& i.defer_creation == defer
    &&& i.name_missing == name_missing
    &&& i.first_query_available == first
    &&& i.second_query_available == second
}

/// The rule recognises a record by this name, or this slug.
pub open spec fn rule_name_or_slug(r: MatchRule, name: Seq<char>, slug: Option<Seq<char>>) -> bool {
    r matches MatchRule::NameOrSlug { name: n, slug: s } && n@ == name && opt_view(s) == slug
}

fn name_or_slug(name: &String, slug: &Option<String>) -> (r: MatchRule)
    ensures
        rule_name_or_slug(r, name@, opt_view(*slug)),
{
    MatchRule::NameOrSlug { name: name.clone(), slug: copy_opt_text(slug) }
}

fn inputs(
    status: Option<ResourceStatus>,
    drift_detection: bool,
    desired_tags: Option<Vec<String>>,
    defer_creation: bool,
    name_missing: bool,
    first_query_available: bool,
    second_query_available: bool,
    match_rule: MatchRule,
) -> (i: Inputs)
    ensures
        i.status == status,
        i.drift_detection == drift_detection,
        i.desired_tags == desired_tags,
        i.defer_creation == defer_creation,
        i.name_missing == name_missing,
        i.first_query_available == first_query_available,
        i.second_query_available == second_query_available,
        i.match_rule == match_rule,
{
    Inputs {
        status,
        drift_detection,
        desired_tags,
        defer_creation,
        name_missing,
        first_query_available,
        second_query_available,
        match_rule,
    }
}

/// Regions and site groups: recognised by name or slug.
pub fn region_inputs(spec: &RegionSpec, status: Option<ResourceStatus>) -> (i: Inputs)
    ensures
        inputs_are(i, status, drift_on(spec.drift_detection), wanted_tags(spec.tags), false, false, true, spec.slug is Some),
        rule_name_or_slug(i.match_rule, spec.name@, opt_view(spec.slug)),
{
    inputs(
        status,
        drift_detection_enabled(spec.drift_detection),
        desired_tag_names(&spec.tags),
        false,
        false,
        true,
        spec.slug.is_some(),
        name_or_slug(&spec.name, &spec.slug),
    )
}

/// Sites: drift is always detected; tags are not managed.
pub fn site_inputs(spec: &SiteSpec, status: Option<ResourceStatus>) -> (i: Inputs)
    ensures
        inputs_are(i, status, true, None, false, false, true, spec.slug is Some),
        rule_name_or_slug(i.match_rule, spec.name@, opt_view(spec.slug)),
{
    inputs(status, true, None, false, false, true, spec.slug.is_some(), name_or_slug(&spec.name, &spec.slug))
}

/// Devices: a device is created under the name its spec gives, and looked
/// up by that name or, lacking one, by the resource's name. After a create
/// conflict it is searched by asset tag (when the spec gives one), then by
/// name.
pub fn device_inputs(spec: &DeviceSpec, resource_name: &String, status: Option<ResourceStatus>) -> (i: Inputs)
    ensures
        inputs_are(
            i,
            status,
            drift_on(spec.drift_detection),
            wanted_tags(spec.tags),
            false,
            spec.name is None,
            spec.asset_tag is Some,
            true,
        ),
        i.match_rule matches MatchRule::AssetTagThenName { asset_tag, name }
            && opt_view(asset_tag) == opt_view(spec.asset_tag)
            && name@ == match spec.name {
                Some(n) => n@,
                None => resource_name@,
            },
{
    let lookup_name = match &spec.name {
        Some(n) => n.clone(),
        None => resource_name.clone(),
    };
    inputs(
        status,
        drift_detection_enabled(spec.drift_detection),
        desired_tag_names(&spec.tags),
        false,
        spec.name.is_none(),
        spec.asset_tag.is_some(),
        true,
        MatchRule::AssetTagThenName { asset_tag: copy_opt_text(&spec.asset_tag), name: lookup_name },
    )
}

/// Device roles: every create error is final, so no conflict query runs.
pub fn device_role_inputs(spec: &DeviceRoleSpec, status: Option<ResourceStatus>) -> (i: Inputs)
    ensures
        inputs_are(i, status, drift_on(spec.drift_detection), wanted_tags(spec.tags), false, false, true, spec.slug is Some),
        rule_name_or_slug(i.match_rule, spec.name@, opt_view(spec.slug)),
{
    inputs(
        status,
        drift_detection_enabled(spec.drift_detection),
        desired_tag_names(&spec.tags),
        false,
        false,
        true,
        spec.slug.is_some(),
        name_or_slug(&spec.name, &spec.slug),
    )
}

/// Device types: recognised by model and manufacturer, or by slug.
pub fn device_type_inputs(spec: &DeviceTypeSpec, manufacturer_id: u64, status: Option<ResourceStatus>) -> (i: Inputs)
    ensures
        inputs_are(i, status, drift_on(spec.drift_detection), wanted_tags(spec.tags), false, false, true, spec.slug is Some),
        i.match_rule matches MatchRule::ModelOrSlug { model, manufacturer_id: m, slug }
            && model@ == spec.model@ && m == manufacturer_id && opt_view(slug) == opt_view(spec.slug),
{
    inputs(
        status,
        drift_detection_enabled(spec.drift_detection),
        desired_tag_names(&spec.tags),
        false,
        false,
        true,
        spec.slug.is_some(),
        MatchRule::ModelOrSlug { model: spec.model.clone(), manufacturer_id, slug: copy_opt_text(&spec.slug) },
    )
}

/// Interfaces: every create error is final.
pub fn interface_inputs(spec: &InterfaceSpec, status: Option<ResourceStatus>) -> (i: Inputs)
    ensures
        inputs_are(i, status, drift_on(spec.drift_detection), wanted_tags(spec.tags), false, false, true, false),
        rule_name_or_slug(i.match_rule, spec.name@, None),
{
    inputs(
        status,
        drift_detection_enabled(spec.drift_detection),
        desired_tag_names(&spec.tags),
        false,
        false,
        true,
        false,
        name_or_slug(&spec.name, &None),
    )
}

/// Locations: recognised by name or slug (their queries are made within
/// their site, see `queries::location_queries`).
pub fn location_inputs(spec: &LocationSpec, status: Option<ResourceStatus>) -> (i: Inputs)
    ensures
        inputs_are(i, status, drift_on(spec.drift_detection), wanted_tags(spec.tags), false, false, true, spec.slug is Some),
        rule_name_or_slug(i.match_rule, spec.name@, opt_view(spec.slug)),
{
    inputs(
        status,
        drift_detection_enabled(spec.drift_detection),
        desired_tag_names(&spec.tags),
        false,
        false,
        true,
        spec.slug.is_some(),
        name_or_slug(&spec.name, &spec.slug),
    )
}

/// MAC addresses: every create error is final.
pub fn mac_address_inputs(spec: &MacAddressSpec, status: Option<ResourceStatus>) -> (i: Inputs)
    ensures
        inputs_are(i, status, drift_on(spec.drift_detection), wanted_tags(spec.tags), false, false, true, false),
        rule_name_or_slug(i.match_rule, spec.mac_address@, None),
{
    inputs(
        status,
        drift_detection_enabled(spec.drift_detection),
        desired_tag_names(&spec.tags),
        false,
        false,
        true,
        false,
        name_or_slug(&spec.mac_address, &None),
    )
}

/// Manufacturers: recognised by name or slug.
pub fn manufacturer_inputs(spec: &ManufacturerSpec, status: Option<ResourceStatus>) -> (i: Inputs)
    ensures
        inputs_are(i, status, drift_on(spec.drift_detection), wanted_tags(spec.tags), false, false, true, spec.slug is Some),
        rule_name_or_slug(i.match_rule, spec.name@, opt_view(spec.slug)),
{
    inputs(
        status,
        drift_detection_enabled(spec.drift_detection),
        desired_tag_names(&spec.tags),
        false,
        false,
        true,
        spec.slug.is_some(),
        name_or_slug(&spec.name, &spec.slug),
    )
}

/// Platforms: recognised by name or slug; tags are not managed.
pub fn platform_inputs(spec: &PlatformSpec, status: Option<ResourceStatus>) -> (i: Inputs)
    ensures
        inputs_are(i, status, true, None, false, false, true, spec.slug is Some),
        rule_name_or_slug(i.match_rule, spec.name@, opt_view(spec.slug)),
{
    inputs(status, true, None, false, false, true, spec.slug.is_some(), name_or_slug(&spec.name, &spec.slug))
}

/// VLANs: recognised by VLAN id or name; creation waits for a site the spec
/// names and that is not in NetBox yet (`site_id` is what it resolved to).
pub fn vlan_inputs(spec: &VlanSpec, site_id: Option<u64>, status: Option<ResourceStatus>) -> (i: Inputs)
    ensures
        inputs_are(
            i,
            status,
            drift_on(spec.drift_detection),
            wanted_tags(spec.tags),
            spec.site is Some && site_id is None,
            false,
            true,
            true,
        ),
        i.match_rule matches MatchRule::NumberOrName { number, name } && number == spec.vid as u64
            && name@ == spec.name@,
{
    inputs(
        status,
        drift_detection_enabled(spec.drift_detection),
        desired_tag_names(&spec.tags),
        vlan_creation_deferred(spec.site.is_some(), site_id),
        false,
        true,
        true,
        MatchRule::NumberOrName { number: spec.vid as u64, name: spec.name.clone() },
    )
}

/// Roles: recognised by name or slug; tags are not managed.
pub fn role_inputs(spec: &RoleSpec, status: Option<ResourceStatus>) -> (i: Inputs)
    ensures
        inputs_are(i, status, true, None, false, false, true, spec.slug is Some),
        rule_name_or_slug(i.match_rule, spec.name@, opt_view(spec.slug)),
{
    inputs(status, true, None, false, false, true, spec.slug.is_some(), name_or_slug(&spec.name, &spec.slug))
}

/// Tags: recognised by name or slug.
pub fn tag_inputs(spec: &TagSpec, status: Option<ResourceStatus>) -> (i: Inputs)
    ensures
        inputs_are(i, status, true, None, false, false, true, spec.slug is Some),
        rule_name_or_slug(i.match_rule, spec.name@, opt_view(spec.slug)),
{
    inputs(status, true, None, false, false, true, spec.slug.is_some(), name_or_slug(&spec.name, &spec.slug))
}

} // verus!
