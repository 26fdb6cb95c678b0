//! Values shared by every reconciler: the status a custom resource carries,
//! references between resources, the NetBox record a reconciliation works
//! on, and the errors a reconciliation ends with.
use vstd::prelude::*;

verus! {

/// Lifecycle state recorded in a custom resource's status.
#[derive(PartialEq, Eq, Structural, Clone, Copy, Debug)]
pub enum ResourceState {
    Pending,
    Created,
    Failed,
}

/// The status sub-resource of a custom resource managed by the controller.
#[derive(Debug)]
pub struct ResourceStatus {
    pub netbox_id: Option<u64>,
    pub netbox_url: Option<String>,
    pub state: ResourceState,
    pub error: Option<String>,
}

/// A reference from one custom resource to another (`kind` and `name`).
#[derive(Debug)]
pub struct ResourceReference {
    pub api_group: String,
    pub kind: String,
    pub name: String,
    pub namespace: Option<String>,
}

/// The status values that a reconciliation writes back to its resource.
#[derive(Debug)]
pub struct StatusPatch {
    pub netbox_id: u64,
    pub netbox_url: String,
    pub state: ResourceState,
    pub error: Option<String>,
}

/// What a reconciliation needs of a NetBox record: its id, its API URL and
/// the names of the tags attached to it.
#[derive(Debug)]
pub struct NetBoxRecord {
    pub id: u64,
    pub url: String,
    pub tag_names: Vec<String>,
}

/// An error answered by the NetBox API.
#[derive(Debug)]
pub enum NetBoxError {
    /// The requested record does not exist.
    NotFound(String),
    /// The request conflicts with a record that already exists.
    Conflict(String),
    /// Any other answer of the API.
    Api(String),
}

/// The error a reconciliation ends with.
#[derive(Debug)]
pub enum ControllerError {
    /// The custom resource (or one it refers to) is not usable as written.
    InvalidConfig(String),
    /// NetBox refused or failed a request.
    NetBox(NetBoxError),
    /// The Kubernetes API refused or failed a request.
    Kube(String),
    /// No NetBox token could be found for the resource.
    TokenResolution(String),
}

/// The view of an optional text.
pub open spec fn opt_view(o: Option<String>) -> Option<Seq<char>> {
    match o {
        Some(s) => Some(s@),
        None => None,
    }
}

/// The views of a list of texts.
pub open spec fn texts_view(v: Seq<String>) -> Seq<Seq<char>> {
    v.map_values(|s: String| s@)
}

/// A copy of an optional text.
pub fn copy_opt_text(o: &Option<String>) -> (r: Option<String>)
    ensures
        opt_view(r) == opt_view(*o),
{
    match o {
        Some(s) => Some(s.clone()),
        None => None,
    }
}

/// Whether two optional texts are equal.
pub fn opt_text_eq(a: &Option<String>, b: &Option<String>) -> (r: bool)
    ensures
        r == (opt_view(*a) == opt_view(*b)),
{
    match (a, b) {
        (Some(x), Some(y)) => *x == *y,
        (None, None) => true,
        _ => false,
    }
}

/// A copy of a list of texts.
pub fn copy_texts(v: &Vec<String>) -> (r: Vec<String>)
    ensures
        texts_view(r@) == texts_view(v@),
{
    let mut r: Vec<String> = Vec::new();
    let mut i: usize = 0;
    while i < v.len()
        invariant
            i <= v.len(),
            texts_view(r@) == texts_view(v@.subrange(0, i as int)),
        decreases v.len() - i,
    {
        let c = v[i].clone();
        assert(c@ == v@[i as int]@);
        let ghost old_r = r@;
        r.push(c);
        assert(r@ == old_r.push(c));
        assert(texts_view(r@) =~= texts_view(old_r).push(c@));
        assert(v@.subrange(0, i + 1) =~= v@.subrange(0, i as int).push(v@[i as int]));
        assert(texts_view(v@.subrange(0, i + 1)) =~= texts_view(v@.subrange(0, i as int)).push(v@[i as int]@));
        i = i + 1;
    }
    assert(v@.subrange(0, v.len() as int) =~= v@);
    r
}

impl NetBoxRecord {
    /// The record as a value: id, URL and tag names.
    pub open spec fn view_tuple(self) -> (u64, Seq<char>, Seq<Seq<char>>) {
        (self.id, self.url@, texts_view(self.tag_names@))
    }

    /// A copy of the record.
    pub fn copy(&self) -> (r: NetBoxRecord)
        ensures
            r.view_tuple() == self.view_tuple(),
    {
        NetBoxRecord { id: self.id, url: self.url.clone(), tag_names: copy_texts(&self.tag_names) }
    }
}

} // verus!
