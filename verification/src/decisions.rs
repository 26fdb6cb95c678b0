//! Decisions the reconcilers take around the state machine: whether a
//! parent resource is ready, how a MAC address names its interface, which
//! address a device's primary IP is looked up by, which statuses are written
//! for deleted or failed records, and the error a failed reconciliation
//! returns.
use vstd::prelude::*;
use vstd::string::StringExecFns;
use crate::dependency::{resolve_dependency_id, spec_dependency_id};
use crate::dcim::PrimaryIpReference;
use crate::engine::{error_message, Failure};
use crate::model::{opt_view, texts_view, ControllerError, NetBoxError, ResourceReference, ResourceState, ResourceStatus, StatusPatch};
use crate::profiles::ResourceKind;
use crate::text::{chars_of, string_of_range};

verus! {

/// Drift detection is on unless the spec switches it off.
pub fn drift_detection_enabled(flag: Option<bool>) -> (r: bool)
    ensures
        r == match flag {
            Some(b) => b,
            None => true,
        },
{
    match flag {
        Some(b) => b,
        None => true,
    }
}

/// The names of the resources a list of references points at.
pub open spec fn reference_names(refs: Seq<ResourceReference>) -> Seq<Seq<char>> {
    refs.map_values(|r: ResourceReference| r.name@)
}

/// The tag names a spec asks for; `None` when the spec names no tags.
pub fn desired_tag_names(tags: &Option<Vec<ResourceReference>>) -> (r: Option<Vec<String>>)
    ensures
        match tags {
            None => r is None,
            Some(refs) => r matches Some(v) && texts_view(v@) == reference_names(refs@),
        },
{
    match tags {
        None => None,
        Some(refs) => {
            let mut v: Vec<String> = Vec::new();
            let mut i: usize = 0;
            while i < refs.len()
                invariant
                    i <= refs.len(),
                    texts_view(v@) == reference_names(refs@.subrange(0, i as int)),
                decreases refs.len() - i,
            {
                let n = refs[i].name.clone();
                let ghost old_v = v@;
                v.push(n);
                assert(texts_view(v@) =~= texts_view(old_v).push(refs@[i as int].name@));
                assert(refs@.subrange(0, i + 1) =~= refs@.subrange(0, i as int).push(refs@[i as int]));
                assert(reference_names(refs@.subrange(0, i + 1)) =~= reference_names(refs@.subrange(0, i as int)).push(
                    refs@[i as int].name@,
                ));
                i = i + 1;
            }
            assert(refs@.subrange(0, refs.len() as int) =~= refs@);
            Some(v)
        },
    }
}

/// Whether a resource another one hangs off is usable.
#[derive(Debug)]
pub enum ParentGate {
    /// It exists and is in NetBox under this id.
    Ready(u64),
    /// It exists but is not in NetBox yet: try again once it is.
    NotYetCreated,
    /// It does not exist.
    Missing,
}

/// The state of a parent resource (a device for an interface, a device or
/// an interface for a MAC address), given its status when it exists.
pub fn parent_gate(lookup: &Option<Option<ResourceStatus>>) -> (r: ParentGate)
    ensures
        match lookup {
            None => r is Missing,
            Some(st) => match spec_dependency_id(*st) {
                Some(id) => r == ParentGate::Ready(id),
                None => r is NotYetCreated,
            },
        },
{
    match lookup {
        None => ParentGate::Missing,
        Some(st) => match resolve_dependency_id(st) {
            Some(id) => ParentGate::Ready(id),
            None => ParentGate::NotYetCreated,
        },
    }
}

/// `k` is the only slash of `s`.
pub open spec fn single_slash_at(s: Seq<char>, k: int) -> bool {
    0 <= k < s.len() && s[k] == '/' && forall|j: int| 0 <= j < s.len() && j != k ==> s[j] != '/'
}

/// The device and interface names of a reference `<device>/<interface>`:
/// the text must hold exactly one slash, which separates them.
pub fn split_interface_reference(reference: &str) -> (r: Option<(String, String)>)
    ensures
        (r is Some) <==> exists|k: int| single_slash_at(reference@, k),
        r matches Some((d, i)) ==> exists|k: int|
            single_slash_at(reference@, k) && d@ == reference@.subrange(0, k) && i@ == reference@.subrange(
                k + 1,
                reference@.len() as int,
            ),
{
    let cs = chars_of(reference);
    let n = cs.len();
    let mut k: usize = 0;
    while k < n && cs[k] != '/'
        invariant
            k <= n,
            n == cs@.len(),
            cs@ == reference@,
            forall|j: int| 0 <= j < k ==> cs@[j] != '/',
        decreases n - k,
    {
        k = k + 1;
    }
    if k == n {
        assert forall|x: int| !single_slash_at(reference@, x) by {
            if 0 <= x < reference@.len() {
                assert(cs@[x] != '/');
            }
        }
        return None;
    }
    let mut j: usize = k + 1;
    while j < n
        invariant
            k < j <= n,
            n == cs@.len(),
            cs@ == reference@,
            cs@[k as int] == '/',
            forall|x: int| 0 <= x < k ==> cs@[x] != '/',
            forall|x: int| k < x < j ==> cs@[x] != '/',
        decreases n - j,
    {
        if cs[j] == '/' {
            assert forall|x: int| !single_slash_at(reference@, x) by {
                if single_slash_at(reference@, x) {
                    if x != k {
                        assert(reference@[k as int] == '/');
                    } else {
                        assert(reference@[j as int] == '/');
                    }
                }
            }
            return None;
        }
        j = j + 1;
    }
    assert(single_slash_at(reference@, k as int));
    let device = string_of_range(&cs, 0, k);
    let interface = string_of_range(&cs, k + 1, n);
    Some((device, interface))
}

/// The name of the interface resource of `<device>/<interface>`:
/// `<device>-<interface>`.
pub fn interface_resource_name(device: &str, interface: &str) -> (r: String)
    ensures
        r@ == device@ + "-"@ + interface@,
{
    let r = String::from_str(device);
    let r = r.concat("-");
    r.concat(interface)
}

/// A VLAN whose spec names a site waits, before being created, until that
/// site is in NetBox.
pub fn vlan_creation_deferred(site_named: bool, site_id: Option<u64>) -> (r: bool)
    ensures
        r == (site_named && site_id is None),
{
    site_named && site_id.is_none()
}

/// The address a device's primary IP is looked up by: the address the spec
/// gives, or else the address allocated to the claim it names
/// (`claim_address`, when the claim has one).
pub fn primary_ip_address(reference: &Option<PrimaryIpReference>, claim_address: &Option<String>) -> (r: Option<String>)
    ensures
        opt_view(r) == match reference {
            None => None,
            Some(p) => match p.ip_address {
                Some(a) => Some(a@),
                None => if p.ip_claim_ref is Some { opt_view(*claim_address) } else { None },
            },
        },
{
    match reference {
        None => None,
        Some(p) => match &p.ip_address {
            Some(a) => Some(a.clone()),
            None => if p.ip_claim_ref.is_some() {
                crate::model::copy_opt_text(claim_address)
            } else {
                None
            },
        },
    }
}

/// The status written when the record a resource pointed at has been
/// deleted from NetBox: pending, pointing at nothing, with the reason.
pub fn pending_patch(message: String) -> (p: StatusPatch)
    ensures
        p.netbox_id == 0,
        p.netbox_url@ == Seq::<char>::empty(),
        p.state == ResourceState::Pending,
        p.error == Some(message),
{
    StatusPatch { netbox_id: 0, netbox_url: String::new(), state: ResourceState::Pending, error: Some(message) }
}

/// The status written when a record could not be created.
pub fn failed_patch(message: String) -> (p: StatusPatch)
    ensures
        p.netbox_id == 0,
        p.netbox_url@ == Seq::<char>::empty(),
        p.state == ResourceState::Failed,
        p.error == Some(message),
{
    StatusPatch { netbox_id: 0, netbox_url: String::new(), state: ResourceState::Failed, error: Some(message) }
}

/// The status already records this failure, and need not be written again.
pub fn failure_already_recorded(status: &Option<ResourceStatus>, message: &String) -> (r: bool)
    ensures
        r == match status {
            Some(s) => s.state == ResourceState::Failed && opt_view(s.error) == Some(message@),
            None => false,
        },
{
    match status {
        Some(s) => {
            let failed = match s.state {
                ResourceState::Failed => true,
                _ => false,
            };
            let same = match &s.error {
                Some(e) => *e == *message,
                None => false,
            };
            failed && same
        },
        None => false,
    }
}

/// The character of a decimal digit.
pub open spec fn digit_char(d: nat) -> char {
    if d == 0 { '0' } else if d == 1 { '1' } else if d == 2 { '2' } else if d == 3 { '3' } else if d == 4 { '4' }
    else if d == 5 { '5' } else if d == 6 { '6' } else if d == 7 { '7' } else if d == 8 { '8' } else { '9' }
}

/// The decimal writing of a number.
pub open spec fn decimal(n: nat) -> Seq<char>
    decreases n,
{
    if n < 10 {
        seq![digit_char(n)]
    } else {
        decimal(n / 10).push(digit_char(n % 10))
    }
}

fn digit(d: u64) -> (c: char)
    requires
        d < 10,
    ensures
        c == digit_char(d as nat),
{
    if d == 0 { '0' } else if d == 1 { '1' } else if d == 2 { '2' } else if d == 3 { '3' } else if d == 4 { '4' }
    else if d == 5 { '5' } else if d == 6 { '6' } else if d == 7 { '7' } else if d == 8 { '8' } else { '9' }
}

/// The decimal writing of a number, as in error messages.
pub fn decimal_text(n: u64) -> (s: String)
    ensures
        s@ == decimal(n as nat),
    decreases n,
{
    let mut v: Vec<char> = Vec::new();
    if n < 10 {
        v.push(digit(n));
        let s = crate::text::string_of(&v);
        assert(v@ =~= decimal(n as nat));
        s
    } else {
        let head = decimal_text(n / 10);
        let mut cs = chars_of(head.as_str());
        cs.push(digit(n % 10));
        assert(cs@ =~= decimal(n as nat));
        crate::text::string_of(&cs)
    }
}

/// The noun error messages use for a kind.
pub open spec fn kind_noun(k: ResourceKind) -> Seq<char> {
    match k {
        ResourceKind::Region => "Region"@,
        ResourceKind::SiteGroup => "SiteGroup"@,
        ResourceKind::Site => "Site"@,
        ResourceKind::Device => "Device"@,
        ResourceKind::DeviceRole => "DeviceRole"@,
        ResourceKind::DeviceType => "DeviceType"@,
        ResourceKind::Interface => "Interface"@,
        ResourceKind::Location => "Location"@,
        ResourceKind::MacAddress => "MACAddress"@,
        ResourceKind::Manufacturer => "Manufacturer"@,
        ResourceKind::Platform => "Platform"@,
        ResourceKind::Vlan => "VLAN"@,
        ResourceKind::Role => "Role"@,
        ResourceKind::Tag => "Tag"@,
    }
}

fn kind_noun_text(k: ResourceKind) -> (t: &'static str)
    ensures
        t@ == kind_noun(k),
{
    match k {
        ResourceKind::Region => "Region",
        ResourceKind::SiteGroup => "SiteGroup",
        ResourceKind::Site => "Site",
        ResourceKind::Device => "Device",
        ResourceKind::DeviceRole => "DeviceRole",
        ResourceKind::DeviceType => "DeviceType",
        ResourceKind::Interface => "Interface",
        ResourceKind::Location => "Location",
        ResourceKind::MacAddress => "MACAddress",
        ResourceKind::Manufacturer => "Manufacturer",
        ResourceKind::Platform => "Platform",
        ResourceKind::Vlan => "VLAN",
        ResourceKind::Role => "Role",
        ResourceKind::Tag => "Tag",
    }
}

/// The lower-case noun status messages use for a kind.
pub open spec fn kind_noun_lower(k: ResourceKind) -> Seq<char> {
    match k {
        ResourceKind::Region => "region"@,
        ResourceKind::SiteGroup => "site group"@,
        ResourceKind::Site => "site"@,
        ResourceKind::Device => "device"@,
        ResourceKind::DeviceRole => "device role"@,
        ResourceKind::DeviceType => "device type"@,
        ResourceKind::Interface => "interface"@,
        ResourceKind::Location => "location"@,
        ResourceKind::MacAddress => "MAC address"@,
        ResourceKind::Manufacturer => "manufacturer"@,
        ResourceKind::Platform => "platform"@,
        ResourceKind::Vlan => "VLAN"@,
        ResourceKind::Role => "role"@,
        ResourceKind::Tag => "tag"@,
    }
}

pub fn kind_noun_lower_text(k: ResourceKind) -> (t: &'static str)
    ensures
        t@ == kind_noun_lower(k),
{
    match k {
        ResourceKind::Region => "region",
        ResourceKind::SiteGroup => "site group",
        ResourceKind::Site => "site",
        ResourceKind::Device => "device",
        ResourceKind::DeviceRole => "device role",
        ResourceKind::DeviceType => "device type",
        ResourceKind::Interface => "interface",
        ResourceKind::Location => "location",
        ResourceKind::MacAddress => "MAC address",
        ResourceKind::Manufacturer => "manufacturer",
        ResourceKind::Platform => "platform",
        ResourceKind::Vlan => "VLAN",
        ResourceKind::Role => "role",
        ResourceKind::Tag => "tag",
    }
}

/// The message of a conflict that no query resolved.
pub open spec fn conflict_unresolved_message(k: ResourceKind, subject: Seq<char>, e: NetBoxError) -> Seq<char> {
    kind_noun(k) + " "@ + subject + " already exists in NetBox but could not retrieve it: "@ + error_message(e)
}

/// The message of a refused create.
pub open spec fn create_failed_message(k: ResourceKind, e: NetBoxError) -> Seq<char> {
    "Failed to create "@ + kind_noun_lower(k) + " in NetBox: "@ + error_message(e)
}

fn unresolved_text(k: ResourceKind, subject: &str, e: &NetBoxError) -> (m: String)
    ensures
        m@ == conflict_unresolved_message(k, subject@, *e),
{
    let m = String::from_str(kind_noun_text(k));
    let m = m.concat(" ");
    let m = m.concat(subject);
    let m = m.concat(" already exists in NetBox but could not retrieve it: ");
    m.concat(message_of(e).as_str())
}

/// The error a failed create writes into the resource's status: why the
/// create was refused, or, for a conflict that no query resolved, that the
/// record exists but could not be retrieved.
pub fn failure_status_message(k: ResourceKind, subject: &str, e: &NetBoxError, unresolved: bool) -> (m: String)
    ensures
        m@ == if unresolved {
            conflict_unresolved_message(k, subject@, *e)
        } else {
            create_failed_message(k, *e)
        },
{
    if unresolved {
        unresolved_text(k, subject, e)
    } else {
        let m = String::from_str("Failed to create ");
        let m = m.concat(kind_noun_lower_text(k));
        let m = m.concat(" in NetBox: ");
        m.concat(message_of(e).as_str())
    }
}

pub fn message_of(e: &NetBoxError) -> (m: &String)
    ensures
        m@ == error_message(*e),
{
    match e {
        NetBoxError::NotFound(m) => m,
        NetBoxError::Conflict(m) => m,
        NetBoxError::Api(m) => m,
    }
}

/// The error a failed reconciliation returns. `subject` names the resource
/// in messages (its name, model, or VLAN id). A refused create of a VLAN is
/// reported as an API error carrying NetBox's message; a conflict that no
/// query resolves, as an API error saying the record exists but could not
/// be retrieved.
pub fn failure_into_error(k: ResourceKind, subject: &str, f: Failure) -> (r: ControllerError)
    ensures
        match f {
            Failure::Dependency(e) => r == e,
            Failure::Fetch(e) => r == ControllerError::NetBox(e),
            Failure::Update(e) => r == ControllerError::NetBox(e),
            Failure::Create(e) => if k == ResourceKind::Vlan {
                r matches ControllerError::NetBox(NetBoxError::Api(m))
                    && m@ == "Failed to create VLAN in NetBox: "@ + error_message(e)
            } else {
                r == ControllerError::NetBox(e)
            },
            Failure::ConflictUnresolved(e) => r matches ControllerError::NetBox(NetBoxError::Api(m))
                && m@ == conflict_unresolved_message(k, subject@, e),
            Failure::NameMissing => r matches ControllerError::InvalidConfig(m) && m@ == "Device name is required"@,
            Failure::StatusWrite(m) => r == ControllerError::Kube(m),
            Failure::UnexpectedEvent => r matches ControllerError::InvalidConfig(m)
                && m@ == "reconciliation answered with an event that does not fit its request"@,
        },
{
    match f {
        Failure::Dependency(e) => e,
        Failure::Fetch(e) => ControllerError::NetBox(e),
        Failure::Update(e) => ControllerError::NetBox(e),
        Failure::Create(e) => if k == ResourceKind::Vlan {
            let m = String::from_str("Failed to create VLAN in NetBox: ");
            let m = m.concat(message_of(&e).as_str());
            ControllerError::NetBox(NetBoxError::Api(m))
        } else {
            ControllerError::NetBox(e)
        },
        Failure::ConflictUnresolved(e) => ControllerError::NetBox(NetBoxError::Api(unresolved_text(k, subject, &e))),
        Failure::NameMissing => ControllerError::InvalidConfig(String::from_str("Device name is required")),
        Failure::StatusWrite(m) => ControllerError::Kube(m),
        Failure::UnexpectedEvent => ControllerError::InvalidConfig(
            String::from_str("reconciliation answered with an event that does not fit its request"),
        ),
    }
}


/// How a reconciliation that hangs off a parent resource begins.
#[derive(Debug)]
pub enum Gate {
    /// The parent is in NetBox under this id: reconcile.
    Proceed(u64),
    /// The parent is not in NetBox yet: end successfully, doing nothing; the
    /// resource is reconciled again once its parent is.
    Wait,
    /// End with `error`, recording a `DependencyNotFound` event when `notify`.
    Refuse { error: ControllerError, notify: bool },
}

/// A message made of four texts.
fn text4(a: &str, b: &str, c: &str, d: &str) -> (m: String)
    ensures
        m@ == a@ + b@ + c@ + d@,
{
    let m = String::from_str(a);
    let m = m.concat(b);
    let m = m.concat(c);
    m.concat(d)
}

/// How a reconciliation goes on from its parent's state: a missing parent
/// refuses with `missing` and an event; one not yet in NetBox waits; one in
/// NetBox proceeds with the parent's id.
pub open spec fn gate_spec(lookup: Option<Option<ResourceStatus>>, g: Gate, missing: Seq<char>) -> bool {
    match lookup {
        None => g matches Gate::Refuse { error: ControllerError::InvalidConfig(m), notify } && notify && m@ == missing,
        Some(st) => match spec_dependency_id(st) {
            Some(id) => g == Gate::Proceed(id),
            None => g is Wait,
        },
    }
}

fn gate(lookup: &Option<Option<ResourceStatus>>, missing: String) -> (g: Gate)
    ensures
        gate_spec(*lookup, g, missing@),
{
    match parent_gate(lookup) {
        ParentGate::Ready(id) => Gate::Proceed(id),
        ParentGate::NotYetCreated => Gate::Wait,
        ParentGate::Missing => Gate::Refuse { error: ControllerError::InvalidConfig(missing), notify: true },
    }
}

/// How the reconciliation of interface `interface` begins, given the status
/// of its device resource `device` when that resource exists.
pub fn interface_device_gate(interface: &str, device: &str, lookup: &Option<Option<ResourceStatus>>) -> (g: Gate)
    ensures
        gate_spec(*lookup, g, "Device CRD '"@ + device@ + "' not found for interface "@ + interface@),
{
    gate(lookup, text4("Device CRD '", device, "' not found for interface ", interface))
}

/// The device and interface names of the interface a MAC address resource
/// `mac` refers to; a reference without exactly one slash is refused.
pub fn mac_address_interface_parts(mac: &str, reference: &str) -> (r: Result<(String, String), ControllerError>)
    ensures
        (r is Ok) <==> exists|k: int| single_slash_at(reference@, k),
        r matches Ok((d, i)) ==> exists|k: int|
            single_slash_at(reference@, k) && d@ == reference@.subrange(0, k) && i@ == reference@.subrange(
                k + 1,
                reference@.len() as int,
            ),
        r is Err ==> (r matches Err(ControllerError::InvalidConfig(m)) && m@ == "Invalid interface format '"@
            + reference@ + "' in MAC address "@ + mac@ + ", expected '<device-name>/<interface-name>'"@),
{
    match split_interface_reference(reference) {
        Some(parts) => Ok(parts),
        None => {
            let m = text4("Invalid interface format '", reference, "' in MAC address ", mac);
            Err(ControllerError::InvalidConfig(m.concat(", expected '<device-name>/<interface-name>'")))
        },
    }
}

/// How the reconciliation of MAC address `mac` goes on once its device
/// resource `device` is looked up.
pub fn mac_address_device_gate(mac: &str, device: &str, lookup: &Option<Option<ResourceStatus>>) -> (g: Gate)
    ensures
        gate_spec(*lookup, g, "Device CRD '"@ + device@ + "' not found for MAC address "@ + mac@),
{
    gate(lookup, text4("Device CRD '", device, "' not found for MAC address ", mac))
}

/// How the reconciliation of MAC address `mac` goes on once its interface
/// resource `interface` (named `<device>-<interface>`) is looked up.
pub fn mac_address_interface_gate(mac: &str, interface: &str, lookup: &Option<Option<ResourceStatus>>) -> (g: Gate)
    ensures
        gate_spec(*lookup, g, "Interface CRD '"@ + interface@ + "' not found for MAC address "@ + mac@),
{
    gate(lookup, text4("Interface CRD '", interface, "' not found for MAC address ", mac))
}

} // verus!
