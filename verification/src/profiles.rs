//! The resource kinds and the reconciliation profile of each.
use vstd::prelude::*;
use crate::engine::{ConflictDetection, ExistingStatus, Profile, TagSync, UpdateErrorPolicy};
use crate::matching::Pick;

verus! {

/// The kinds of resource the controller reconciles.
#[derive(PartialEq, Eq, Structural, Clone, Copy, Debug)]
pub enum ResourceKind {
    Region,
    SiteGroup,
    Site,
    Device,
    DeviceRole,
    DeviceType,
    Interface,
    Location,
    MacAddress,
    Manufacturer,
    Platform,
    Vlan,
    Role,
    Tag,
}

/// A profile from its choices, in the order of the fields of `Profile`.
pub open spec fn profile_spec(
    has_dependencies: bool,
    deps_after_fetch: bool,
    field_drift: bool,
    field_drift_event: bool,
    field_updated_event: bool,
    update_error: UpdateErrorPolicy,
    existing_tags: TagSync,
    existing_status: ExistingStatus,
    deleted_event: bool,
    lookup_pick: Pick,
    found_tags: bool,
    created_event: bool,
    conflict: ConflictDetection,
    first_query_pick: Pick,
    conflict_found_tags: bool,
    failure_event: bool,
    failure_status: bool,
) -> Profile {
    Profile {
        has_dependencies,
        deps_after_fetch,
        field_drift,
        field_drift_event,
        field_updated_event,
        update_error,
        existing_tags,
        existing_status,
        deleted_event,
        lookup_pick,
        found_tags,
        created_event,
        conflict,
        first_query_pick,
        conflict_found_tags,
        failure_event,
        failure_status,
    }
}

fn profile(
    has_dependencies: bool,
    deps_after_fetch: bool,
    field_drift: bool,
    field_drift_event: bool,
    field_updated_event: bool,
    update_error: UpdateErrorPolicy,
    existing_tags: TagSync,
    existing_status: ExistingStatus,
    deleted_event: bool,
    lookup_pick: Pick,
    found_tags: bool,
    created_event: bool,
    conflict: ConflictDetection,
    first_query_pick: Pick,
    conflict_found_tags: bool,
    failure_event: bool,
    failure_status: bool,
) -> (p: Profile)
    ensures
        p == profile_spec(
            has_dependencies,
            deps_after_fetch,
            field_drift,
            field_drift_event,
            field_updated_event,
            update_error,
            existing_tags,
            existing_status,
            deleted_event,
            lookup_pick,
            found_tags,
            created_event,
            conflict,
            first_query_pick,
            conflict_found_tags,
            failure_event,
            failure_status,
        ),
{
    Profile {
        has_dependencies,
        deps_after_fetch,
        field_drift,
        field_drift_event,
        field_updated_event,
        update_error,
        existing_tags,
        existing_status,
        deleted_event,
        lookup_pick,
        found_tags,
        created_event,
        conflict,
        first_query_pick,
        conflict_found_tags,
        failure_event,
        failure_status,
    }
}

/// How each kind reconciles. Regions and site groups go alike; sites fail
/// on a refused update and record create failures in their status; devices
/// recognise conflicts by message; device roles and types fold tags into
/// field updates; interfaces, MAC addresses and device roles treat every
/// create error as final; locations and VLANs resolve their dependencies
/// after the fetch; platforms, roles and tags are never compared field by
/// field.
pub open spec fn kind_profile(k: ResourceKind) -> Profile {
    match k {
        ResourceKind::Region | ResourceKind::SiteGroup => profile_spec(
            true, false, true, true, true, UpdateErrorPolicy::KeepExisting, TagSync::Always,
            ExistingStatus::IfNeededThenAtEnd, true, Pick::First, true, true, ConflictDetection::ErrorKind,
            Pick::First, false, true, false),
        ResourceKind::Site => profile_spec(
            true, false, true, false, false, UpdateErrorPolicy::Fail, TagSync::Never,
            ExistingStatus::IfNeededThenReturn, false, Pick::First, false, false, ConflictDetection::ErrorKind,
            Pick::First, false, false, true),
        ResourceKind::Device => profile_spec(
            true, false, true, true, true, UpdateErrorPolicy::KeepExisting, TagSync::Always,
            ExistingStatus::IfNeededThenReturn, true, Pick::First, false, true, ConflictDetection::DeviceMessage,
            Pick::First, false, false, false),
        ResourceKind::DeviceRole => profile_spec(
            false, false, true, true, true, UpdateErrorPolicy::KeepExistingAndReport, TagSync::WithoutFieldUpdate,
            ExistingStatus::AtEnd, true, Pick::First, true, true, ConflictDetection::Never,
            Pick::First, false, true, false),
        ResourceKind::DeviceType => profile_spec(
            true, false, true, true, true, UpdateErrorPolicy::KeepExistingAndReport, TagSync::WithoutFieldUpdate,
            ExistingStatus::AtEnd, true, Pick::First, true, true, ConflictDetection::ErrorKind,
            Pick::First, false, true, false),
        ResourceKind::Interface => profile_spec(
            false, false, true, true, true, UpdateErrorPolicy::KeepExisting, TagSync::Always,
            ExistingStatus::AtEnd, false, Pick::Last, false, true, ConflictDetection::Never,
            Pick::First, false, true, false),
        ResourceKind::Location => profile_spec(
            true, true, true, true, true, UpdateErrorPolicy::KeepExisting, TagSync::Always,
            ExistingStatus::IfNeededThenAtEnd, true, Pick::First, true, false, ConflictDetection::ErrorKind,
            Pick::First, false, true, false),
        ResourceKind::MacAddress => profile_spec(
            false, false, true, true, true, UpdateErrorPolicy::KeepExisting, TagSync::Always,
            ExistingStatus::IfNeededThenReturn, true, Pick::First, false, true, ConflictDetection::Never,
            Pick::First, false, true, false),
        ResourceKind::Manufacturer => profile_spec(
            false, false, true, true, false, UpdateErrorPolicy::FailAndReport, TagSync::Always,
            ExistingStatus::IfNeededThenAtEnd, true, Pick::First, true, true, ConflictDetection::ErrorKind,
            Pick::First, false, true, false),
        ResourceKind::Platform => profile_spec(
            true, false, false, false, false, UpdateErrorPolicy::KeepExisting, TagSync::Never,
            ExistingStatus::IfNeededThenReturn, true, Pick::First, false, true, ConflictDetection::ErrorKind,
            Pick::First, false, true, false),
        ResourceKind::Vlan => profile_spec(
            true, true, true, true, true, UpdateErrorPolicy::KeepExisting, TagSync::Always,
            ExistingStatus::AtEnd, true, Pick::First, true, true, ConflictDetection::ErrorKind,
            Pick::First, true, false, false),
        ResourceKind::Role => profile_spec(
            false, false, false, false, false, UpdateErrorPolicy::KeepExisting, TagSync::Never,
            ExistingStatus::IfNeededThenReturn, true, Pick::Last, false, true, ConflictDetection::ErrorKind,
            Pick::Last, false, true, false),
        ResourceKind::Tag => profile_spec(
            false, false, false, false, false, UpdateErrorPolicy::KeepExisting, TagSync::Never,
            ExistingStatus::IfNeededThenReturn, true, Pick::Last, false, false, ConflictDetection::ErrorKind,
            Pick::Last, false, true, false),
    }
}

/// The profile of a kind (see `kind_profile`).
pub fn profile_of(k: ResourceKind) -> (p: Profile)
    ensures
        p == kind_profile(k),
{
    match k {
        ResourceKind::Region | ResourceKind::SiteGroup => profile(
            true, false, true, true, true, UpdateErrorPolicy::KeepExisting, TagSync::Always,
            ExistingStatus::IfNeededThenAtEnd, true, Pick::First, true, true, ConflictDetection::ErrorKind,
            Pick::First, false, true, false),
        ResourceKind::Site => profile(
            true, false, true, false, false, UpdateErrorPolicy::Fail, TagSync::Never,
            ExistingStatus::IfNeededThenReturn, false, Pick::First, false, false, ConflictDetection::ErrorKind,
            Pick::First, false, false, true),
        ResourceKind::Device => profile(
            true, false, true, true, true, UpdateErrorPolicy::KeepExisting, TagSync::Always,
            ExistingStatus::IfNeededThenReturn, true, Pick::First, false, true, ConflictDetection::DeviceMessage,
            Pick::First, false, false, false),
        ResourceKind::DeviceRole => profile(
            false, false, true, true, true, UpdateErrorPolicy::KeepExistingAndReport, TagSync::WithoutFieldUpdate,
            ExistingStatus::AtEnd, true, Pick::First, true, true, ConflictDetection::Never,
            Pick::First, false, true, false),
        ResourceKind::DeviceType => profile(
            true, false, true, true, true, UpdateErrorPolicy::KeepExistingAndReport, TagSync::WithoutFieldUpdate,
            ExistingStatus::AtEnd, true, Pick::First, true, true, ConflictDetection::ErrorKind,
            Pick::First, false, true, false),
        ResourceKind::Interface => profile(
            false, false, true, true, true, UpdateErrorPolicy::KeepExisting, TagSync::Always,
            ExistingStatus::AtEnd, false, Pick::Last, false, true, ConflictDetection::Never,
            Pick::First, false, true, false),
        ResourceKind::Location => profile(
            true, true, true, true, true, UpdateErrorPolicy::KeepExisting, TagSync::Always,
            ExistingStatus::IfNeededThenAtEnd, true, Pick::First, true, false, ConflictDetection::ErrorKind,
            Pick::First, false, true, false),
        ResourceKind::MacAddress => profile(
            false, false, true, true, true, UpdateErrorPolicy::KeepExisting, TagSync::Always,
            ExistingStatus::IfNeededThenReturn, true, Pick::First, false, true, ConflictDetection::Never,
            Pick::First, false, true, false),
        ResourceKind::Manufacturer => profile(
            false, false, true, true, false, UpdateErrorPolicy::FailAndReport, TagSync::Always,
            ExistingStatus::IfNeededThenAtEnd, true, Pick::First, true, true, ConflictDetection::ErrorKind,
            Pick::First, false, true, false),
        ResourceKind::Platform => profile(
            true, false, false, false, false, UpdateErrorPolicy::KeepExisting, TagSync::Never,
            ExistingStatus::IfNeededThenReturn, true, Pick::First, false, true, ConflictDetection::ErrorKind,
            Pick::First, false, true, false),
        ResourceKind::Vlan => profile(
            true, true, true, true, true, UpdateErrorPolicy::KeepExisting, TagSync::Always,
            ExistingStatus::AtEnd, true, Pick::First, true, true, ConflictDetection::ErrorKind,
            Pick::First, true, false, false),
        ResourceKind::Role => profile(
            false, false, false, false, false, UpdateErrorPolicy::KeepExisting, TagSync::Never,
            ExistingStatus::IfNeededThenReturn, true, Pick::Last, false, true, ConflictDetection::ErrorKind,
            Pick::Last, false, true, false),
        ResourceKind::Tag => profile(
            false, false, false, false, false, UpdateErrorPolicy::KeepExisting, TagSync::Never,
            ExistingStatus::IfNeededThenReturn, true, Pick::Last, false, false, ConflictDetection::ErrorKind,
            Pick::Last, false, true, false),
    }
}

} // verus!
