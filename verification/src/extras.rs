//! The extras resource kinds: roles and tags. Their records are created and
//! looked up, never compared field by field.
use vstd::prelude::*;

verus! {

/// The spec of a role (an extras role, not an IPAM role).
#[derive(Debug)]
pub struct RoleSpec {
    pub name: String,
    pub slug: Option<String>,
    pub description: Option<String>,
    pub weight: Option<u16>,
    pub comments: Option<String>,
}

/// The spec of a tag.
#[derive(Debug)]
pub struct TagSpec {
    pub name: String,
    pub slug: Option<String>,
    pub color: Option<String>,
    pub description: Option<String>,
    pub comments: Option<String>,
}

} // verus!
