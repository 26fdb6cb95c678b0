//! The NetBox queries of each kind: the lookup made before a create, and,
//! after a create conflict, the first and second targeted queries and the
//! full listing, each as the list of `(parameter, value)` filters sent.
use vstd::prelude::*;
use vstd::string::StringExecFns;
use crate::dcim::{
    DeviceRoleSpec, DeviceSpec, DeviceTypeSpec, InterfaceSpec, LocationSpec, MacAddressSpec, ManufacturerSpec,
    PlatformSpec, RegionSpec, SiteSpec, VlanSpec,
};
use crate::decisions::{decimal, decimal_text};
use crate::extras::{RoleSpec, TagSpec};

verus! {

/// The filters of the queries a reconciliation may make.
#[derive(Debug)]
pub struct Queries {
    pub lookup: Vec<(String, String)>,
    pub first: Vec<(String, String)>,
    pub second: Vec<(String, String)>,
    /// The filters of the full listing (walked page by page).
    pub listing: Vec<(String, String)>,
}

/// The filters as texts.
pub open spec fn filters_view(v: Seq<(String, String)>) -> Seq<(Seq<char>, Seq<char>)> {
    v.map_values(|p: (String, String)| (p.0@, p.1@))
}

/// The queries' filters are these.
pub open spec fn queries_are(
    q: Queries,
    lookup: Seq<(Seq<char>, Seq<char>)>,
    first: Seq<(Seq<char>, Seq<char>)>,
    second: Seq<(Seq<char>, Seq<char>)>,
    listing: Seq<(Seq<char>, Seq<char>)>,
) -> bool {
    &&& filters_view(q.lookup@) == lookup
    &&& filters_view(q.first@) == first
    &&& filters_view(q.second@) == second
    &&& filters_view(q.listing@) == listing
}

/// Filtering by `key` = `value`.
pub open spec fn filter_on(key: Seq<char>, value: Seq<char>) -> Seq<(Seq<char>, Seq<char>)> {
    seq![(key, value)]
}

/// Filtering by slug when one is given; nothing otherwise.
pub open spec fn slug_filters(slug: Option<String>) -> Seq<(Seq<char>, Seq<char>)> {
    match slug {
        Some(s) => seq![("slug"@, s@)],
        None => seq![],
    }
}

fn none() -> (v: Vec<(String, String)>)
    ensures
        filters_view(v@) == Seq::<(Seq<char>, Seq<char>)>::empty(),
{
    let v: Vec<(String, String)> = Vec::new();
    assert(filters_view(v@) =~= Seq::<(Seq<char>, Seq<char>)>::empty());
    v
}

fn one(key: &str, value: &str) -> (v: Vec<(String, String)>)
    ensures
        filters_view(v@) == filter_on(key@, value@),
{
    let mut v: Vec<(String, String)> = Vec::new();
    v.push((String::from_str(key), String::from_str(value)));
    assert(filters_view(v@) =~= filter_on(key@, value@));
    v
}

fn two(k1: &str, v1: &str, k2: &str, v2: &str) -> (v: Vec<(String, String)>)
    ensures
        filters_view(v@) == filter_on(k1@, v1@) + filter_on(k2@, v2@),
{
    let mut v: Vec<(String, String)> = Vec::new();
    v.push((String::from_str(k1), String::from_str(v1)));
    v.push((String::from_str(k2), String::from_str(v2)));
    assert(filters_view(v@) =~= filter_on(k1@, v1@) + filter_on(k2@, v2@));
    v
}

fn slug_filter(slug: &Option<String>) -> (v: Vec<(String, String)>)
    ensures
        filters_view(v@) == slug_filters(*slug),
{
    match slug {
        Some(s) => {
            let v = one("slug", s.as_str());
            assert(filter_on("slug"@, s@) =~= slug_filters(*slug));
            v
        },
        None => {
            let v = none();
            assert(slug_filters(*slug) =~= Seq::<(Seq<char>, Seq<char>)>::empty());
            v
        },
    }
}

/// Records named `name`; after a conflict, by name, then by slug.
fn named(name: &String, slug: &Option<String>) -> (q: Queries)
    ensures
        queries_are(q, filter_on("name"@, name@), filter_on("name"@, name@), slug_filters(*slug), seq![]),
{
    let q = Queries {
        lookup: one("name", name.as_str()),
        first: one("name", name.as_str()),
        second: slug_filter(slug),
        listing: none(),
    };
    assert(filters_view(q.listing@) =~= seq![]);
    q
}

/// Regions and site groups: by name, then by slug.
pub fn region_queries(spec: &RegionSpec) -> (q: Queries)
    ensures
        queries_are(q, filter_on("name"@, spec.name@), filter_on("name"@, spec.name@), slug_filters(spec.slug), seq![]),
{
    named(&spec.name, &spec.slug)
}

/// Sites: by name, then by slug.
pub fn site_queries(spec: &SiteSpec) -> (q: Queries)
    ensures
        queries_are(q, filter_on("name"@, spec.name@), filter_on("name"@, spec.name@), slug_filters(spec.slug), seq![]),
{
    named(&spec.name, &spec.slug)
}

/// Device roles: by name, then by slug.
pub fn device_role_queries(spec: &DeviceRoleSpec) -> (q: Queries)
    ensures
        queries_are(q, filter_on("name"@, spec.name@), filter_on("name"@, spec.name@), slug_filters(spec.slug), seq![]),
{
    named(&spec.name, &spec.slug)
}

/// Manufacturers: by name, then by slug.
pub fn manufacturer_queries(spec: &ManufacturerSpec) -> (q: Queries)
    ensures
        queries_are(q, filter_on("name"@, spec.name@), filter_on("name"@, spec.name@), slug_filters(spec.slug), seq![]),
{
    named(&spec.name, &spec.slug)
}

/// Platforms: by name, then by slug.
pub fn platform_queries(spec: &PlatformSpec) -> (q: Queries)
    ensures
        queries_are(q, filter_on("name"@, spec.name@), filter_on("name"@, spec.name@), slug_filters(spec.slug), seq![]),
{
    named(&spec.name, &spec.slug)
}

/// Roles: by name, then by slug.
pub fn role_queries(spec: &RoleSpec) -> (q: Queries)
    ensures
        queries_are(q, filter_on("name"@, spec.name@), filter_on("name"@, spec.name@), slug_filters(spec.slug), seq![]),
{
    named(&spec.name, &spec.slug)
}

/// Tags: by name, then by slug.
pub fn tag_queries(spec: &TagSpec) -> (q: Queries)
    ensures
        queries_are(q, filter_on("name"@, spec.name@), filter_on("name"@, spec.name@), slug_filters(spec.slug), seq![]),
{
    named(&spec.name, &spec.slug)
}

/// The name a device is looked up by: its spec's, or else its resource's.
pub open spec fn device_lookup_name(spec: DeviceSpec, resource_name: Seq<char>) -> Seq<char> {
    match spec.name {
        Some(n) => n@,
        None => resource_name,
    }
}

/// Devices: by name; after a conflict, by asset tag (when the spec gives
/// one), then by name.
pub fn device_queries(spec: &DeviceSpec, resource_name: &String) -> (q: Queries)
    ensures
        queries_are(
            q,
            filter_on("name"@, device_lookup_name(*spec, resource_name@)),
            match spec.asset_tag {
                Some(t) => filter_on("asset_tag"@, t@),
                None => seq![],
            },
            filter_on("name"@, device_lookup_name(*spec, resource_name@)),
            seq![],
        ),
{
    let name = match &spec.name {
        Some(n) => n,
        None => resource_name,
    };
    let first = match &spec.asset_tag {
        Some(t) => one("asset_tag", t.as_str()),
        None => none(),
    };
    let q = Queries { lookup: one("name", name.as_str()), first, second: one("name", name.as_str()), listing: none() };
    assert(filters_view(q.listing@) =~= seq![]);
    q
}

/// Device types: by model of the manufacturer, then by slug.
pub fn device_type_queries(spec: &DeviceTypeSpec, manufacturer_id: u64) -> (q: Queries)
    ensures
        queries_are(
            q,
            filter_on("manufacturer_id"@, decimal(manufacturer_id as nat)) + filter_on("model"@, spec.model@),
            filter_on("manufacturer_id"@, decimal(manufacturer_id as nat)) + filter_on("model"@, spec.model@),
            slug_filters(spec.slug),
            seq![],
        ),
{
    let id = decimal_text(manufacturer_id);
    let q = Queries {
        lookup: two("manufacturer_id", id.as_str(), "model", spec.model.as_str()),
        first: two("manufacturer_id", id.as_str(), "model", spec.model.as_str()),
        second: slug_filter(&spec.slug),
        listing: none(),
    };
    assert(filters_view(q.listing@) =~= seq![]);
    q
}

/// Interfaces: by name on their device.
pub fn interface_queries(spec: &InterfaceSpec, device_id: u64) -> (q: Queries)
    ensures
        queries_are(
            q,
            filter_on("device_id"@, decimal(device_id as nat)) + filter_on("name"@, spec.name@),
            filter_on("device_id"@, decimal(device_id as nat)) + filter_on("name"@, spec.name@),
            seq![],
            seq![],
        ),
{
    let id = decimal_text(device_id);
    let q = Queries {
        lookup: two("device_id", id.as_str(), "name", spec.name.as_str()),
        first: two("device_id", id.as_str(), "name", spec.name.as_str()),
        second: none(),
        listing: none(),
    };
    assert(filters_view(q.second@) =~= seq![]);
    assert(filters_view(q.listing@) =~= seq![]);
    q
}

/// Locations: within their site, by name, then by slug; the full listing is
/// that of the site.
pub fn location_queries(spec: &LocationSpec, site_id: u64) -> (q: Queries)
    ensures
        queries_are(
            q,
            filter_on("site_id"@, decimal(site_id as nat)) + filter_on("name"@, spec.name@),
            filter_on("site_id"@, decimal(site_id as nat)) + filter_on("name"@, spec.name@),
            match spec.slug {
                Some(s) => filter_on("site_id"@, decimal(site_id as nat)) + filter_on("slug"@, s@),
                None => seq![],
            },
            filter_on("site_id"@, decimal(site_id as nat)),
        ),
{
    let id = decimal_text(site_id);
    let second = match &spec.slug {
        Some(s) => two("site_id", id.as_str(), "slug", s.as_str()),
        None => none(),
    };
    Queries {
        lookup: two("site_id", id.as_str(), "name", spec.name.as_str()),
        first: two("site_id", id.as_str(), "name", spec.name.as_str()),
        second,
        listing: one("site_id", id.as_str()),
    }
}

/// MAC addresses: by address.
pub fn mac_address_queries(spec: &MacAddressSpec) -> (q: Queries)
    ensures
        queries_are(
            q,
            filter_on("mac_address"@, spec.mac_address@),
            filter_on("mac_address"@, spec.mac_address@),
            seq![],
            seq![],
        ),
{
    let q = Queries {
        lookup: one("mac_address", spec.mac_address.as_str()),
        first: one("mac_address", spec.mac_address.as_str()),
        second: none(),
        listing: none(),
    };
    assert(filters_view(q.second@) =~= seq![]);
    assert(filters_view(q.listing@) =~= seq![]);
    q
}

/// VLANs: by VLAN id, then by name.
pub fn vlan_queries(spec: &VlanSpec) -> (q: Queries)
    ensures
        queries_are(
            q,
            filter_on("vid"@, decimal(spec.vid as nat)),
            filter_on("vid"@, decimal(spec.vid as nat)),
            filter_on("name"@, spec.name@),
            seq![],
        ),
{
    let vid = decimal_text(spec.vid as u64);
    let q = Queries {
        lookup: one("vid", vid.as_str()),
        first: one("vid", vid.as_str()),
        second: one("name", spec.name.as_str()),
        listing: none(),
    };
    assert(filters_view(q.listing@) =~= seq![]);
    q
}

} // verus!
