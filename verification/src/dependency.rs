//! Resolution of the references between custom resources: a referenced
//! resource stands for the NetBox record whose id its status records.
use vstd::prelude::*;
use vstd::string::StringExecFns;
use crate::model::{opt_view, ControllerError, ResourceReference, ResourceStatus};

verus! {

/// The NetBox id a resource's status points at, once the resource exists in
/// NetBox: the recorded id when there is one and it is not zero.
pub open spec fn spec_dependency_id(status: Option<ResourceStatus>) -> Option<u64> {
    match status {
        Some(s) => match s.netbox_id {
            Some(id) => if id != 0 { Some(id) } else { None },
            None => None,
        },
        None => None,
    }
}

/// The NetBox id of a referenced resource, or `None` while that resource has
/// not been created in NetBox yet.
pub fn resolve_dependency_id(status: &Option<ResourceStatus>) -> (r: Option<u64>)
    ensures
        r == spec_dependency_id(*status),
{
    match status {
        Some(s) => match s.netbox_id {
            Some(id) => if id != 0 { Some(id) } else { None },
            None => None,
        },
        None => None,
    }
}

/// A message made of `a`, `b` and `c`.
fn message3(a: &str, b: &str, c: &str) -> (m: String)
    ensures
        m@ == a@ + b@ + c@,
{
    let m = String::from_str(a);
    let m = m.concat(b);
    m.concat(c)
}

/// A message made of `a` and `b`.
fn message2(a: &str, b: &str) -> (m: String)
    ensures
        m@ == a@ + b@,
{
    let m = String::from_str(a);
    m.concat(b)
}

/// The name and namespace of a resource, which the reconcilers need to
/// address it; a resource lacking either is refused.
pub fn extract_name_and_namespace(kind: &str, name: &Option<String>, namespace: &Option<String>)
    -> (r: Result<(String, String), ControllerError>)
    ensures
        (r is Ok) <==> (name is Some && namespace is Some),
        r matches Ok((n, ns)) ==> opt_view(*name) == Some(n@) && opt_view(*namespace) == Some(ns@),
        name is None ==> (r matches Err(ControllerError::InvalidConfig(m)) && m@ == kind@ + " resource has no name"@),
        name is Some && namespace is None ==> (r matches Err(ControllerError::InvalidConfig(m))
            && m@ == kind@ + " resource has no namespace"@),
{
    match (name, namespace) {
        (Some(n), Some(ns)) => Ok((n.clone(), ns.clone())),
        (None, _) => Err(ControllerError::InvalidConfig(message2(kind, " resource has no name"))),
        (_, None) => Err(ControllerError::InvalidConfig(message2(kind, " resource has no namespace"))),
    }
}

/// A reference must point at a resource of the expected kind.
pub fn validate_reference_kind(reference: &ResourceReference, expected_kind: &str, field: &str)
    -> (r: Result<(), ControllerError>)
    ensures
        (r is Ok) <==> reference.kind@ == expected_kind@,
        r is Err ==> (r matches Err(ControllerError::InvalidConfig(m)) && m@ == field@ + " must reference a "@
            + expected_kind@),
{
    let expected = String::from_str(expected_kind);
    if reference.kind == expected {
        Ok(())
    } else {
        Err(ControllerError::InvalidConfig(message3(field, " must reference a ", expected_kind)))
    }
}

/// The NetBox id of a required dependency. `lookup` is the referenced
/// resource's status when the resource exists (`None` when it does not).
/// A missing resource, or one not yet created in NetBox, is an invalid
/// configuration.
pub fn resolve_required_dependency_id(lookup: &Option<Option<ResourceStatus>>, label: &str, dep_name: &str)
    -> (r: Result<u64, ControllerError>)
    ensures
        r matches Ok(id) ==> (lookup matches Some(st) && spec_dependency_id(*st) == Some(id)),
        (r is Err) <==> (match lookup {
            Some(st) => spec_dependency_id(*st) is None,
            None => true,
        }),
        lookup is None ==> (r matches Err(ControllerError::InvalidConfig(m)) && m@ == label@ + " not found: "@
            + dep_name@),
        lookup matches Some(st) && spec_dependency_id(*st) is None ==> (r matches Err(
            ControllerError::InvalidConfig(m),
        ) && m@ == label@ + " not ready in NetBox: "@ + dep_name@),
{
    match lookup {
        None => Err(ControllerError::InvalidConfig(message3(label, " not found: ", dep_name))),
        Some(st) => match resolve_dependency_id(st) {
            Some(id) => Ok(id),
            None => Err(ControllerError::InvalidConfig(message3(label, " not ready in NetBox: ", dep_name))),
        },
    }
}

/// The NetBox id of an optional dependency: `None` when there is no
/// reference, when the referenced resource does not exist, or when it has
/// not been created in NetBox yet.
pub fn resolve_optional_dependency_id(has_reference: bool, lookup: &Option<Option<ResourceStatus>>)
    -> (r: Option<u64>)
    ensures
        r == (if has_reference {
            match lookup {
                Some(st) => spec_dependency_id(*st),
                None => None,
            }
        } else {
            None
        }),
{
    if !has_reference {
        return None;
    }
    match lookup {
        None => None,
        Some(st) => resolve_dependency_id(st),
    }
}


// ----- the references of each kind ------------------------------------------------

/// The NetBox id a required reference resolves to: `None` when it points at
/// another kind, or at a resource that is missing or not yet in NetBox.
pub open spec fn required_value(reference: ResourceReference, kind: Seq<char>, lookup: Option<Option<ResourceStatus>>)
    -> Option<u64> {
    if reference.kind@ == kind {
        match lookup {
            Some(st) => spec_dependency_id(st),
            None => None,
        }
    } else {
        None
    }
}

/// The failure of a required reference: the wrong kind (never with an
/// event), or a missing or not yet created resource (with an event when
/// `notify`).
pub open spec fn required_failure(
    e: (ControllerError, bool),
    reference: ResourceReference,
    kind: Seq<char>,
    field: Seq<char>,
    label: Seq<char>,
    lookup: Option<Option<ResourceStatus>>,
    notify: bool,
) -> bool {
    if reference.kind@ != kind {
        e.0 matches ControllerError::InvalidConfig(m) && m@ == field + " must reference a "@ + kind && !e.1
    } else {
        match lookup {
            None => e.0 matches ControllerError::InvalidConfig(m) && m@ == label + " not found: "@ + reference.name@
                && e.1 == notify,
            Some(_) => e.0 matches ControllerError::InvalidConfig(m) && m@ == label + " not ready in NetBox: "@
                + reference.name@ && e.1 == notify,
        }
    }
}

/// The outcome of a required reference.
pub open spec fn required_outcome(
    r: Result<u64, (ControllerError, bool)>,
    reference: ResourceReference,
    kind: Seq<char>,
    field: Seq<char>,
    label: Seq<char>,
    lookup: Option<Option<ResourceStatus>>,
    notify: bool,
) -> bool {
    match required_value(reference, kind, lookup) {
        Some(id) => r matches Ok(x) && x == id,
        None => r matches Err(e) && required_failure(e, reference, kind, field, label, lookup, notify),
    }
}

/// Resolves a required reference to a resource of `kind`, given that
/// resource's status when it exists.
pub fn required_dependency(
    reference: &ResourceReference,
    kind: &str,
    field: &str,
    label: &str,
    lookup: &Option<Option<ResourceStatus>>,
    notify: bool,
) -> (r: Result<u64, (ControllerError, bool)>)
    ensures
        required_outcome(r, *reference, kind@, field@, label@, *lookup, notify),
{
    match validate_reference_kind(reference, kind, field) {
        Err(e) => Err((e, false)),
        Ok(()) => match resolve_required_dependency_id(lookup, label, reference.name.as_str()) {
            Ok(id) => Ok(id),
            Err(e) => Err((e, notify)),
        },
    }
}

/// What an optional reference resolves to: `Some(None)` without a
/// reference or when the resource is missing or not yet in NetBox; `None`
/// when it points at another kind.
pub open spec fn optional_value(
    reference: Option<ResourceReference>,
    kind: Seq<char>,
    lookup: Option<Option<ResourceStatus>>,
) -> Option<Option<u64>> {
    match reference {
        None => Some(None),
        Some(r) => if r.kind@ == kind {
            Some(
                match lookup {
                    Some(st) => spec_dependency_id(st),
                    None => None,
                },
            )
        } else {
            None
        },
    }
}

/// The failure of an optional reference: it points at another kind.
pub open spec fn optional_failure(
    e: (ControllerError, bool),
    reference: Option<ResourceReference>,
    kind: Seq<char>,
    field: Seq<char>,
) -> bool {
    e.0 matches ControllerError::InvalidConfig(m) && m@ == field + " must reference a "@ + kind && !e.1
}

/// The outcome of an optional reference.
pub open spec fn optional_outcome(
    r: Result<Option<u64>, (ControllerError, bool)>,
    reference: Option<ResourceReference>,
    kind: Seq<char>,
    field: Seq<char>,
    lookup: Option<Option<ResourceStatus>>,
) -> bool {
    match optional_value(reference, kind, lookup) {
        Some(v) => r matches Ok(x) && x == v,
        None => r matches Err(e) && optional_failure(e, reference, kind, field),
    }
}

/// Resolves an optional reference to a resource of `kind`.
pub fn optional_dependency(
    reference: &Option<ResourceReference>,
    kind: &str,
    field: &str,
    lookup: &Option<Option<ResourceStatus>>,
) -> (r: Result<Option<u64>, (ControllerError, bool)>)
    ensures
        optional_outcome(r, *reference, kind@, field@, *lookup),
{
    match reference {
        None => Ok(None),
        Some(rf) => match validate_reference_kind(rf, kind, field) {
            Err(e) => Err((e, false)),
            Ok(()) => Ok(resolve_optional_dependency_id(true, lookup)),
        },
    }
}

} // verus!
