//! What the decisions around the drift checks are for, stated directly:
//! which status points at a NetBox record, when a status is current, when
//! tags are rewritten, and which queried record is taken as the resource's.
use vstd::prelude::*;
use crate::compare::{status_is_current, tags_differ_spec};
use crate::dependency::spec_dependency_id;
use crate::decisions::decimal;
use crate::matching::{first_match, is_first, pick_index, select_index, Candidate, MatchRule, Pick};
use crate::engine::{spec_is_conflict_error, spec_is_device_conflict};
use crate::model::{NetBoxError, ResourceReference, ResourceState, ResourceStatus};
use crate::profiles::{kind_profile, ResourceKind};
use crate::dcim::{
    DeviceRoleSpec, DeviceSpec, DeviceTargets, DeviceTypeSpec, InterfaceSpec, LocationSpec, MacAddressSpec,
    ManufacturerSpec, RegionSpec, VlanSpec, VlanTargets,
};
use crate::requests::{
    device_role_write_for, device_type_write_for, device_update_for, interface_update_for, location_update_for,
    mac_address_update_for, manufacturer_write_for, region_write_for, tags_sent, vlan_update_for, DeviceRoleWrite,
    DeviceTypeWrite, DeviceUpdate, InterfaceWrite, LocationWrite, MacAddressWrite, ManufacturerWrite, RegionWrite,
    VlanWrite,
};

verus! {

/// An optional text as a value.
pub open spec fn text_value(o: Option<String>) -> Option<Seq<char>> {
    match o {
        Some(s) => Some(s@),
        None => None,
    }
}

/// A status points at a NetBox record exactly when it records a non-zero
/// id, and then at that id.
pub proof fn law_dependency_id(status: Option<ResourceStatus>)
    ensures
        (spec_dependency_id(status) is Some) <==> (status matches Some(s) && s.netbox_id matches Some(i) && i != 0),
        spec_dependency_id(status) matches Some(i) ==> status->0.netbox_id == Some(i),
{
}

/// A status is current for record `id` at `url` exactly when it records
/// that id and URL, the state `Created`, and no error.
pub proof fn law_status_current(status: Option<ResourceStatus>, id: u64, url: Seq<char>)
    ensures
        status_is_current(status, id, url) <==> (
            status matches Some(s)
            && s.netbox_id == Some(id)
            && text_value(s.netbox_url) == Some(url)
            && s.state == ResourceState::Created
            && s.error is None
        ),
{
}

/// Tags are rewritten exactly when the spec names tags and some name is on
/// one side only: every desired name must be on the record, and every name
/// on the record desired. A spec that names no tags never has them
/// rewritten.
pub proof fn law_tags_rewritten(existing: Seq<Seq<char>>, desired: Option<Seq<Seq<char>>>)
    ensures
        desired is None ==> !tags_differ_spec(existing, desired),
        desired matches Some(d) ==> (!tags_differ_spec(existing, desired) <==> (
            (forall|i: int| 0 <= i < d.len() ==> existing.contains(#[trigger] d[i]))
            && (forall|j: int| 0 <= j < existing.len() ==> d.contains(#[trigger] existing[j]))
        )),
{
    if let Some(d) = desired {
        let both = (forall|i: int| 0 <= i < d.len() ==> existing.contains(#[trigger] d[i]))
            && (forall|j: int| 0 <= j < existing.len() ==> d.contains(#[trigger] existing[j]));
        if both {
            assert forall|x: Seq<char>| existing.to_set().contains(x) <==> d.to_set().contains(x) by {
                if existing.to_set().contains(x) {
                    let j = choose|j: int| 0 <= j < existing.len() && existing[j] == x;
                    assert(d.contains(existing[j]));
                }
                if d.to_set().contains(x) {
                    let i = choose|i: int| 0 <= i < d.len() && d[i] == x;
                    assert(existing.contains(d[i]));
                }
            }
            assert(existing.to_set() =~= d.to_set());
        }
        if existing.to_set() == d.to_set() {
            assert forall|i: int| 0 <= i < d.len() implies existing.contains(#[trigger] d[i]) by {
                assert(d.to_set().contains(d[i]));
            }
            assert forall|j: int| 0 <= j < existing.len() implies d.contains(#[trigger] existing[j]) by {
                assert(existing.to_set().contains(existing[j]));
            }
        }
    }
}

/// The first position of `s` satisfying `p` exists when any does.
proof fn lemma_first_exists(s: Seq<Candidate>, p: spec_fn(Candidate) -> bool, j: int)
    requires
        0 <= j < s.len(),
        p(s[j]),
    ensures
        exists|k: int| is_first(s, p, k),
    decreases j,
{
    if exists|i: int| 0 <= i < j && p(#[trigger] s[i]) {
        let i = choose|i: int| 0 <= i < j && p(#[trigger] s[i]);
        lemma_first_exists(s, p, i);
    } else {
        assert(is_first(s, p, j));
    }
}

/// What a search for the first match yields.
proof fn lemma_first_match(s: Seq<Candidate>, p: spec_fn(Candidate) -> bool)
    ensures
        first_match(s, p) matches Some(k) ==> is_first(s, p, k),
        first_match(s, p) is None ==> forall|j: int| 0 <= j < s.len() ==> !p(#[trigger] s[j]),
{
    if first_match(s, p) is None {
        assert forall|j: int| 0 <= j < s.len() implies !p(#[trigger] s[j]) by {
            if p(s[j]) {
                lemma_first_exists(s, p, j);
            }
        }
    }
}

/// A candidate that answers to a single-pass rule: the same name (model
/// for device types, of the same manufacturer) or the same slug when the
/// resource gives one; for VLANs, the same VLAN id or the same name.
pub open spec fn answers_to(rule: MatchRule, c: Candidate) -> bool {
    match rule {
        MatchRule::NameOrSlug { name, slug } => text_value(c.name) == Some(name@) || (slug matches Some(s)
            && c.slug@ == s@),
        MatchRule::ModelOrSlug { model, manufacturer_id, slug } => (text_value(c.name) == Some(model@) && c.number
            == manufacturer_id) || (slug matches Some(s) && c.slug@ == s@),
        MatchRule::NumberOrName { number, name } => c.number == number || text_value(c.name) == Some(name@),
        MatchRule::AssetTagThenName { asset_tag, name } => text_value(c.name) == Some(name@),
    }
}

/// The record a full listing yields for a name, slug or number rule is the
/// first that answers to it, and there is none only when no record does.
pub proof fn law_listing_takes_first_answer(rule: MatchRule, s: Seq<Candidate>)
    requires
        !(rule is AssetTagThenName),
    ensures
        select_index(rule, s) matches Some(k) ==> 0 <= k < s.len() && answers_to(rule, s[k]) && forall|j: int|
            0 <= j < k ==> !answers_to(rule, #[trigger] s[j]),
        select_index(rule, s) is None ==> forall|j: int| 0 <= j < s.len() ==> !answers_to(rule, #[trigger] s[j]),
{
    let p = |c: Candidate| crate::matching::matches_rule(rule, c);
    lemma_first_match(s, p);
    assert forall|c: Candidate| #[trigger] p(c) == answers_to(rule, c) by {}
}

/// For a device, a full listing yields the first record carrying the asset
/// tag the spec gives, wherever it stands; only when none does, the first
/// record carrying the device's name; and nothing when neither is found.
pub proof fn law_listing_prefers_asset_tag(asset_tag: Option<String>, name: String, s: Seq<Candidate>)
    ensures
        ({
            let tagged = |c: Candidate| asset_tag matches Some(t) && text_value(c.asset_tag) == Some(t@);
            let named = |c: Candidate| text_value(c.name) == Some(name@);
            let r = select_index(MatchRule::AssetTagThenName { asset_tag, name }, s);
            &&& (exists|j: int| 0 <= j < s.len() && tagged(#[trigger] s[j])) ==> (r matches Some(k) && 0 <= k < s.len()
                && tagged(s[k]) && forall|j: int| 0 <= j < k ==> !tagged(#[trigger] s[j]))
            &&& (forall|j: int| 0 <= j < s.len() ==> !tagged(#[trigger] s[j])) ==> (
                (r matches Some(k) ==> 0 <= k < s.len() && named(s[k]) && forall|j: int| 0 <= j < k ==> !named(#[trigger] s[j]))
                && (r is None ==> forall|j: int| 0 <= j < s.len() ==> !named(#[trigger] s[j]))
            )
        }),
{
    let tagged = |c: Candidate| asset_tag matches Some(t) && text_value(c.asset_tag) == Some(t@);
    let named = |c: Candidate| text_value(c.name) == Some(name@);
    let p1 = |c: Candidate| crate::matching::asset_tag_is(c, asset_tag);
    let p2 = |c: Candidate| crate::matching::name_is(c, name@);
    lemma_first_match(s, p1);
    lemma_first_match(s, p2);
    assert forall|c: Candidate| #[trigger] p1(c) == tagged(c) by {}
    assert forall|c: Candidate| #[trigger] p2(c) == named(c) by {}
    if exists|j: int| 0 <= j < s.len() && tagged(#[trigger] s[j]) {
        let j = choose|j: int| 0 <= j < s.len() && tagged(#[trigger] s[j]);
        assert(p1(s[j]));
        lemma_first_exists(s, p1, j);
    }
}


/// How the kinds differ, column by column of their profiles: which resolve
/// references, compare fields, record which events, keep the status, search
/// after conflicts, and write failures into the status.
pub proof fn law_kind_profiles(k: ResourceKind)
    ensures
        ({
            let p = kind_profile(k);
            &&& p.has_dependencies <==> (k is Region || k is SiteGroup || k is Site || k is Device || k is DeviceType
                || k is Location || k is Platform || k is Vlan)
            &&& p.deps_after_fetch <==> (k is Location || k is Vlan)
            &&& p.field_drift <==> !(k is Platform || k is Role || k is Tag)
            &&& p.field_drift_event <==> !(k is Site || k is Platform || k is Role || k is Tag)
            &&& p.field_updated_event <==> !(k is Site || k is Manufacturer || k is Platform || k is Role || k is Tag)
            &&& (p.update_error is Fail <==> k is Site)
            &&& (p.update_error is FailAndReport <==> k is Manufacturer)
            &&& (p.update_error is KeepExistingAndReport <==> (k is DeviceRole || k is DeviceType))
            &&& (p.existing_tags is Never <==> (k is Site || k is Platform || k is Role || k is Tag))
            &&& (p.existing_tags is WithoutFieldUpdate <==> (k is DeviceRole || k is DeviceType))
            &&& (p.existing_status is AtEnd <==> (k is DeviceRole || k is DeviceType || k is Interface || k is Vlan))
            &&& (p.existing_status is IfNeededThenAtEnd <==> (k is Region || k is SiteGroup || k is Location
                || k is Manufacturer))
            &&& p.deleted_event <==> !(k is Site || k is Interface)
            &&& (p.lookup_pick is Last <==> (k is Interface || k is Role || k is Tag))
            &&& p.found_tags <==> (k is Region || k is SiteGroup || k is DeviceRole || k is DeviceType || k is Location
                || k is Manufacturer || k is Vlan)
            &&& p.created_event <==> !(k is Site || k is Location || k is Tag)
            &&& (p.conflict is Never <==> (k is DeviceRole || k is Interface || k is MacAddress))
            &&& (p.conflict is DeviceMessage <==> k is Device)
            &&& (p.first_query_pick is Last <==> (k is Role || k is Tag))
            &&& p.conflict_found_tags <==> k is Vlan
            &&& p.failure_event <==> !(k is Site || k is Device || k is Vlan)
            &&& p.failure_status <==> k is Site
        }),
{
}

/// The message `m` holds `needle` somewhere.
pub open spec fn mentions(m: Seq<char>, needle: Seq<char>) -> bool {
    exists|i: int| 0 <= i && i + needle.len() <= m.len() && #[trigger] m.subrange(i, i + needle.len()) == needle
}

proof fn lemma_mentions(m: Seq<char>, needle: Seq<char>)
    ensures
        crate::text::contains_text_spec(m, needle) <==> mentions(m, needle),
{
    if crate::text::contains_text_spec(m, needle) {
        let i = choose|i: int| crate::text::occurs_at(m, needle, i);
        assert(m.subrange(i, i + needle.len()) == needle);
    }
    if mentions(m, needle) {
        let i = choose|i: int| 0 <= i && i + needle.len() <= m.len() && #[trigger] m.subrange(i, i + needle.len()) == needle;
        assert(crate::text::occurs_at(m, needle, i));
    }
}

/// A create error means the record already exists exactly when NetBox
/// answers with a conflict, or with an API error whose message says the
/// record "already exists"; for devices, when the message says "already
/// exists" or mentions an "asset tag", whatever the answer.
pub proof fn law_conflicts(e: NetBoxError)
    ensures
        spec_is_conflict_error(e) <==> (e is Conflict || (e matches NetBoxError::Api(m) && mentions(m@, "already exists"@))),
        spec_is_device_conflict(e) <==> ({
            let m = match e {
                NetBoxError::Conflict(m) => m@,
                NetBoxError::Api(m) => m@,
                NetBoxError::NotFound(m) => m@,
            };
            mentions(m, "already exists"@) || mentions(m, "asset tag"@)
        }),
{
    let m = crate::engine::error_message(e);
    lemma_mentions(m, "already exists"@);
    lemma_mentions(m, "asset tag"@);
}


/// The tags a write sends are exactly the names of the spec's tag
/// references, in order; none when the spec names no tags.
pub open spec fn sends_spec_tags(tags: Option<Vec<String>>, refs: Option<Vec<ResourceReference>>) -> bool {
    match refs {
        None => tags is None,
        Some(rs) => tags matches Some(v) && v@.len() == rs@.len() && forall|i: int|
            0 <= i < rs@.len() ==> #[trigger] v@[i]@ == rs@[i].name@,
    }
}

proof fn lemma_sends_spec_tags(tags: Option<Vec<String>>, refs: Option<Vec<ResourceReference>>)
    requires
        tags_sent(tags, refs),
    ensures
        sends_spec_tags(tags, refs),
{
    if let Some(rs) = refs {
        let v = tags->0;
        assert(crate::model::texts_view(v@) == crate::decisions::reference_names(rs@));
        assert forall|i: int| 0 <= i < rs@.len() implies #[trigger] v@[i]@ == rs@[i].name@ by {
            assert(crate::model::texts_view(v@)[i] == v@[i]@);
            assert(crate::decisions::reference_names(rs@)[i] == rs@[i].name@);
        }
    }
}

/// Every update that may bring tags in line sends exactly the spec's tags.
pub proof fn law_updates_send_spec_tags(
    region: (RegionWrite, RegionSpec, Option<u64>),
    device: (DeviceUpdate, DeviceSpec, DeviceTargets),
    role: (DeviceRoleWrite, DeviceRoleSpec),
    device_type: (DeviceTypeWrite, DeviceTypeSpec, u64),
    interface: (InterfaceWrite, InterfaceSpec),
    mac: (MacAddressWrite, MacAddressSpec, u64),
    manufacturer: (ManufacturerWrite, ManufacturerSpec),
    vlan: (VlanWrite, VlanSpec, VlanTargets),
    location: (LocationWrite, LocationSpec, Option<u64>, u64, bool),
)
    ensures
        region_write_for(region.0, region.1, region.2) ==> sends_spec_tags(region.0.tags, region.1.tags),
        device_update_for(device.0, device.1, device.2) ==> sends_spec_tags(device.0.tags, device.1.tags),
        device_role_write_for(role.0, role.1) ==> sends_spec_tags(role.0.tags, role.1.tags),
        device_type_write_for(device_type.0, device_type.1, device_type.2) ==> sends_spec_tags(
            device_type.0.tags,
            device_type.1.tags,
        ),
        interface_update_for(interface.0, interface.1) ==> sends_spec_tags(interface.0.tags, interface.1.tags),
        mac_address_update_for(mac.0, mac.1, mac.2) ==> sends_spec_tags(mac.0.tags, mac.1.tags),
        manufacturer_write_for(manufacturer.0, manufacturer.1) ==> sends_spec_tags(
            manufacturer.0.tags,
            manufacturer.1.tags,
        ),
        vlan_update_for(vlan.0, vlan.1, vlan.2) ==> sends_spec_tags(vlan.0.tags, vlan.1.tags),
        location_update_for(location.0, location.1, location.2, location.3, location.4) ==> sends_spec_tags(
            location.0.tags,
            location.1.tags,
        ),
{
    if region_write_for(region.0, region.1, region.2) { lemma_sends_spec_tags(region.0.tags, region.1.tags); }
    if device_update_for(device.0, device.1, device.2) { lemma_sends_spec_tags(device.0.tags, device.1.tags); }
    if device_role_write_for(role.0, role.1) { lemma_sends_spec_tags(role.0.tags, role.1.tags); }
    if device_type_write_for(device_type.0, device_type.1, device_type.2) {
        lemma_sends_spec_tags(device_type.0.tags, device_type.1.tags);
    }
    if interface_update_for(interface.0, interface.1) { lemma_sends_spec_tags(interface.0.tags, interface.1.tags); }
    if mac_address_update_for(mac.0, mac.1, mac.2) { lemma_sends_spec_tags(mac.0.tags, mac.1.tags); }
    if manufacturer_write_for(manufacturer.0, manufacturer.1) {
        lemma_sends_spec_tags(manufacturer.0.tags, manufacturer.1.tags);
    }
    if vlan_update_for(vlan.0, vlan.1, vlan.2) { lemma_sends_spec_tags(vlan.0.tags, vlan.1.tags); }
    if location_update_for(location.0, location.1, location.2, location.3, location.4) {
        lemma_sends_spec_tags(location.0.tags, location.1.tags);
    }
}


/// A targeted query takes its first answer, or its last, and nothing from an
/// empty answer.
pub proof fn law_targeted_query_pick(n: nat)
    ensures
        pick_index(Pick::First, n) == (if n == 0 { None } else { Some(0int) }),
        pick_index(Pick::Last, n) == (if n == 0 { None } else { Some(n - 1) }),
{
}

/// The number a text of decimal digits writes.
pub open spec fn digits_value(s: Seq<char>) -> int
    decreases s.len(),
{
    if s.len() == 0 {
        0
    } else {
        10 * digits_value(s.drop_last()) + (s.last() as int - '0' as int)
    }
}

proof fn lemma_digit_value(d: nat)
    requires
        d < 10,
    ensures
        crate::decisions::digit_char(d) as int - '0' as int == d,
        '0' <= crate::decisions::digit_char(d) <= '9',
{
    assert('0' as int == 48);
    assert('1' as int == 49 && '2' as int == 50 && '3' as int == 51 && '4' as int == 52);
    assert('5' as int == 53 && '6' as int == 54 && '7' as int == 55 && '8' as int == 56);
    assert('9' as int == 57);
}

/// The decimal writing of a number is made of digits only, starts with a
/// non-zero digit unless the number is 0, and reads back as the number.
pub proof fn law_decimal_reads_back(n: nat)
    ensures
        digits_value(decimal(n)) == n,
        forall|i: int| 0 <= i < decimal(n).len() ==> '0' <= #[trigger] decimal(n)[i] <= '9',
        decimal(n).len() > 0,
        n > 0 ==> decimal(n)[0] != '0',
    decreases n,
{
    lemma_digit_value(n % 10);
    if n < 10 {
        let d = decimal(n);
        assert(d == seq![crate::decisions::digit_char(n)]);
        assert(d.drop_last() =~= Seq::<char>::empty());
        assert(d.last() == crate::decisions::digit_char(n));
        assert(n % 10 == n);
        assert(digits_value(d.drop_last()) == 0);
        assert(digits_value(d) == 10 * digits_value(d.drop_last()) + (d.last() as int - '0' as int));
    } else {
        law_decimal_reads_back(n / 10);
        let d = decimal(n);
        assert(d == decimal((n / 10) as nat).push(crate::decisions::digit_char(n % 10)));
        assert(d.drop_last() =~= decimal(n / 10));
        assert(d.last() == crate::decisions::digit_char(n % 10));
        assert(digits_value(d) == 10 * digits_value(d.drop_last()) + (d.last() as int - '0' as int));
        assert(n == 10 * (n / 10) + n % 10);
        assert(d[0] == decimal(n / 10)[0]);
    }
}

} // verus!
