//! The texts of the Kubernetes events a reconciliation records.
use vstd::prelude::*;
use vstd::string::StringExecFns;
use crate::decisions::{decimal, decimal_text, kind_noun_lower, kind_noun_lower_text, message_of};
use crate::engine::{error_message, Topic};
use crate::model::ControllerError;
use crate::profiles::ResourceKind;

verus! {

/// The Kubernetes kind of the resources of a kind.
pub open spec fn crd_kind(k: ResourceKind) -> Seq<char> {
    match k {
        ResourceKind::Region => "NetBoxRegion"@,
        ResourceKind::SiteGroup => "NetBoxSiteGroup"@,
        ResourceKind::Site => "NetBoxSite"@,
        ResourceKind::Device => "NetBoxDevice"@,
        ResourceKind::DeviceRole => "NetBoxDeviceRole"@,
        ResourceKind::DeviceType => "NetBoxDeviceType"@,
        ResourceKind::Interface => "NetBoxInterface"@,
        ResourceKind::Location => "NetBoxLocation"@,
        ResourceKind::MacAddress => "NetBoxMACAddress"@,
        ResourceKind::Manufacturer => "NetBoxManufacturer"@,
        ResourceKind::Platform => "NetBoxPlatform"@,
        ResourceKind::Vlan => "NetBoxVLAN"@,
        ResourceKind::Role => "NetBoxRole"@,
        ResourceKind::Tag => "NetBoxTag"@,
    }
}

/// The Kubernetes kind of the resources of a kind, as a text.
pub fn crd_kind_text(k: ResourceKind) -> (t: &'static str)
    ensures
        t@ == crd_kind(k),
{
    match k {
        ResourceKind::Region => "NetBoxRegion",
        ResourceKind::SiteGroup => "NetBoxSiteGroup",
        ResourceKind::Site => "NetBoxSite",
        ResourceKind::Device => "NetBoxDevice",
        ResourceKind::DeviceRole => "NetBoxDeviceRole",
        ResourceKind::DeviceType => "NetBoxDeviceType",
        ResourceKind::Interface => "NetBoxInterface",
        ResourceKind::Location => "NetBoxLocation",
        ResourceKind::MacAddress => "NetBoxMACAddress",
        ResourceKind::Manufacturer => "NetBoxManufacturer",
        ResourceKind::Platform => "NetBoxPlatform",
        ResourceKind::Vlan => "NetBoxVLAN",
        ResourceKind::Role => "NetBoxRole",
        ResourceKind::Tag => "NetBoxTag",
    }
}

/// The message an error carries.
pub open spec fn controller_error_message(e: ControllerError) -> Seq<char> {
    match e {
        ControllerError::InvalidConfig(m) => m@,
        ControllerError::NetBox(n) => error_message(n),
        ControllerError::Kube(m) => m@,
        ControllerError::TokenResolution(m) => m@,
    }
}

/// How an event names resource `name` in `namespace`: `<Kind> <ns>/<name>`.
pub open spec fn who(k: ResourceKind, namespace: Seq<char>, name: Seq<char>) -> Seq<char> {
    crd_kind(k) + " "@ + namespace + "/"@ + name
}

/// The text of an event about resource `name` (whose record is named
/// `subject` in NetBox).
pub open spec fn event_text(k: ResourceKind, namespace: Seq<char>, name: Seq<char>, subject: Seq<char>, t: Topic) -> Seq<char> {
    match t {
        Topic::FieldsDiffer => who(k, namespace, name) + " fields differ from CRD, updating to match Git"@,
        Topic::RecordDeleted => who(k, namespace, name) + " drift detected: Resource was deleted in NetBox"@,
        Topic::FieldsUpdated => "Updated "@ + who(k, namespace, name) + " in NetBox to match CRD"@,
        Topic::TagsUpdated => "Updated "@ + who(k, namespace, name) + " tags in NetBox"@,
        Topic::RecordCreated(id) => "Created "@ + kind_noun_lower(k) + " "@ + subject + " in NetBox (ID: "@ + decimal(
            id as nat,
        ) + ")"@,
        Topic::UpdateFailed(e) => "Failed to update "@ + who(k, namespace, name) + " in NetBox: "@ + error_message(e),
        Topic::CreateFailed(e) => "Failed to create "@ + kind_noun_lower(k) + " in NetBox: "@ + error_message(e),
        Topic::DependencyMissing(e) => controller_error_message(e),
    }
}

fn who_text(k: ResourceKind, namespace: &str, name: &str) -> (m: String)
    ensures
        m@ == who(k, namespace@, name@),
{
    let m = String::from_str(crd_kind_text(k));
    let m = m.concat(" ");
    let m = m.concat(namespace);
    let m = m.concat("/");
    m.concat(name)
}

fn controller_error_text(e: &ControllerError) -> (m: &String)
    ensures
        m@ == controller_error_message(*e),
{
    match e {
        ControllerError::InvalidConfig(m) => m,
        ControllerError::NetBox(n) => message_of(n),
        ControllerError::Kube(m) => m,
        ControllerError::TokenResolution(m) => m,
    }
}

/// The text of an event about resource `name` in `namespace`.
pub fn event_message(k: ResourceKind, namespace: &str, name: &str, subject: &str, t: &Topic) -> (m: String)
    ensures
        m@ == event_text(k, namespace@, name@, subject@, *t),
{
    match t {
        Topic::FieldsDiffer => who_text(k, namespace, name).concat(" fields differ from CRD, updating to match Git"),
        Topic::RecordDeleted => who_text(k, namespace, name).concat(" drift detected: Resource was deleted in NetBox"),
        Topic::FieldsUpdated => {
            let m = String::from_str("Updated ");
            let w = who_text(k, namespace, name);
            m.concat(w.as_str()).concat(" in NetBox to match CRD")
        },
        Topic::TagsUpdated => {
            let m = String::from_str("Updated ");
            let w = who_text(k, namespace, name);
            m.concat(w.as_str()).concat(" tags in NetBox")
        },
        Topic::RecordCreated(id) => {
            let d = decimal_text(*id);
            let m = String::from_str("Created ");
            let m = m.concat(kind_noun_lower_text(k));
            let m = m.concat(" ");
            let m = m.concat(subject);
            let m = m.concat(" in NetBox (ID: ");
            let m = m.concat(d.as_str());
            m.concat(")")
        },
        Topic::UpdateFailed(e) => {
            let m = String::from_str("Failed to update ");
            let w = who_text(k, namespace, name);
            let m = m.concat(w.as_str());
            let m = m.concat(" in NetBox: ");
            m.concat(message_of(e).as_str())
        },
        Topic::CreateFailed(e) => {
            let m = String::from_str("Failed to create ");
            let m = m.concat(kind_noun_lower_text(k));
            let m = m.concat(" in NetBox: ");
            m.concat(message_of(e).as_str())
        },
        Topic::DependencyMissing(e) => controller_error_text(e).clone(),
    }
}

} // verus!
