//! Field comparisons shared by the drift checks of all resource kinds, the
//! comparison of tag sets, and the test of whether a status must be written.
use vstd::prelude::*;
use crate::model::{opt_view, texts_view, ResourceState, ResourceStatus};

verus! {

/// An optional text where a missing value counts as the empty text.
pub open spec fn text_or_empty(o: Option<String>) -> Seq<char> {
    match o {
        Some(s) => s@,
        None => Seq::<char>::empty(),
    }
}

/// A required text field differs.
pub fn compare_string_field(desired: &String, existing: &String) -> (r: bool)
    ensures
        r == (desired@ != existing@),
{
    !(*desired == *existing)
}

/// The slug differs: the desired slug is the one given in the spec, or the
/// slug generated from the name when the spec gives none.
pub fn compare_slug_field(desired: &Option<String>, existing: &String, auto_generated: String) -> (r: bool)
    ensures
        r == (match desired {
            Some(s) => s@,
            None => auto_generated@,
        } != existing@),
{
    match desired {
        Some(s) => !(*s == *existing),
        None => !(auto_generated == *existing),
    }
}

/// An optional text field differs; a missing value and the empty text count
/// as the same value.
pub fn compare_optional_string_field(desired: &Option<String>, existing: &Option<String>) -> (r: bool)
    ensures
        r == (text_or_empty(*desired) != text_or_empty(*existing)),
{
    let e = String::new();
    let d = match desired {
        Some(s) => s,
        None => &e,
    };
    let x = match existing {
        Some(s) => s,
        None => &e,
    };
    !(*d == *x)
}

/// An optional reference to another record differs (by NetBox id).
pub fn compare_optional_dependency_id(desired: Option<u64>, existing: Option<u64>) -> (r: bool)
    ensures
        r == (desired != existing),
{
    match (desired, existing) {
        (Some(a), Some(b)) => a != b,
        (None, None) => false,
        _ => true,
    }
}

/// A required reference to another record differs (by NetBox id).
pub fn compare_required_dependency_id(desired: u64, existing: Option<u64>) -> (r: bool)
    ensures
        r == (Some(desired) != existing),
{
    compare_optional_dependency_id(Some(desired), existing)
}

/// An optional number differs.
pub fn compare_optional_number_field(desired: Option<u32>, existing: Option<u32>) -> (r: bool)
    ensures
        r == (desired != existing),
{
    match (desired, existing) {
        (Some(a), Some(b)) => a != b,
        (None, None) => false,
        _ => true,
    }
}

/// Whether a list of texts holds the given text.
pub fn texts_contain(v: &Vec<String>, s: &String) -> (r: bool)
    ensures
        r == texts_view(v@).contains(s@),
{
    let mut i: usize = 0;
    while i < v.len()
        invariant
            i <= v.len(),
            forall|k: int| 0 <= k < i ==> v@[k]@ != s@,
        decreases v.len() - i,
    {
        if v[i] == *s {
            assert(texts_view(v@)[i as int] == s@);
            return true;
        }
        i = i + 1;
    }
    assert(!texts_view(v@).contains(s@)) by {
        if texts_view(v@).contains(s@) {
            let k = choose|k: int| 0 <= k < texts_view(v@).len() && texts_view(v@)[k] == s@;
            assert(v@[k]@ == s@);
        }
    }
    false
}

/// Every text of `a` is also in `b`.
pub open spec fn texts_included(a: Seq<Seq<char>>, b: Seq<Seq<char>>) -> bool {
    forall|i: int| 0 <= i < a.len() ==> b.contains(#[trigger] a[i])
}

/// Whether every text of `a` is in `b`.
fn texts_included_exec(a: &Vec<String>, b: &Vec<String>) -> (r: bool)
    ensures
        r == texts_included(texts_view(a@), texts_view(b@)),
{
    let mut i: usize = 0;
    while i < a.len()
        invariant
            i <= a.len(),
            forall|k: int| 0 <= k < i ==> texts_view(b@).contains(#[trigger] texts_view(a@)[k]),
        decreases a.len() - i,
    {
        if !texts_contain(b, &a[i]) {
            assert(!texts_view(b@).contains(texts_view(a@)[i as int]));
            return false;
        }
        i = i + 1;
    }
    true
}

/// The tags attached to a record differ from the tags its resource asks
/// for, compared as sets of names. A resource that names no tags at all
/// leaves the tags of its record alone.
pub open spec fn tags_differ_spec(existing: Seq<Seq<char>>, desired: Option<Seq<Seq<char>>>) -> bool {
    match desired {
        None => false,
        Some(d) => existing.to_set() != d.to_set(),
    }
}

/// The view of an optional list of texts.
pub open spec fn opt_texts_view(o: Option<Vec<String>>) -> Option<Seq<Seq<char>>> {
    match o {
        Some(v) => Some(texts_view(v@)),
        None => None,
    }
}

proof fn lemma_included_iff_subset(a: Seq<Seq<char>>, b: Seq<Seq<char>>)
    ensures
        texts_included(a, b) <==> a.to_set().subset_of(b.to_set()),
{
    if texts_included(a, b) {
        assert forall|x: Seq<char>| a.to_set().contains(x) implies b.to_set().contains(x) by {
            let k = choose|k: int| 0 <= k < a.len() && a[k] == x;
            assert(b.contains(a[k]));
        }
    }
    if a.to_set().subset_of(b.to_set()) {
        assert forall|i: int| 0 <= i < a.len() implies b.contains(#[trigger] a[i]) by {
            assert(a.to_set().contains(a[i]));
        }
    }
}

/// Whether the tags of a record must be rewritten (see `tags_differ_spec`).
pub fn tags_differ(existing: &Vec<String>, desired: &Option<Vec<String>>) -> (r: bool)
    ensures
        r == tags_differ_spec(texts_view(existing@), opt_texts_view(*desired)),
{
    match desired {
        None => false,
        Some(d) => {
            let ab = texts_included_exec(existing, d);
            let ba = texts_included_exec(d, existing);
            proof {
                let ev = texts_view(existing@);
                let dv = texts_view(d@);
                lemma_included_iff_subset(ev, dv);
                lemma_included_iff_subset(dv, ev);
                if ab && ba {
                    assert(ev.to_set() =~= dv.to_set());
                }
                if ev.to_set() == dv.to_set() {
                    assert(ev.to_set().subset_of(dv.to_set()));
                    assert(dv.to_set().subset_of(ev.to_set()));
                }
            }
            !(ab && ba)
        },
    }
}

/// The status a resource must carry once its record is in NetBox: created,
/// pointing at the record, with no error.
pub open spec fn status_is_current(status: Option<ResourceStatus>, id: u64, url: Seq<char>) -> bool {
    match status {
        None => false,
        Some(s) => s.netbox_id == Some(id) && opt_view(s.netbox_url) == Some(url)
            && s.state == ResourceState::Created && s.error is None,
    }
}

/// Whether the status of a resource must be written after its record `id`
/// at `url` has been reconciled.
pub fn status_needs_update(status: &Option<ResourceStatus>, id: u64, url: &String) -> (r: bool)
    ensures
        r == !status_is_current(*status, id, url@),
{
    match status {
        None => true,
        Some(s) => {
            let id_ok = match s.netbox_id {
                Some(x) => x == id,
                None => false,
            };
            let url_ok = match &s.netbox_url {
                Some(u) => *u == *url,
                None => false,
            };
            let state_ok = match s.state {
                ResourceState::Created => true,
                _ => false,
            };
            let error_ok = s.error.is_none();
            !(id_ok && url_ok && state_ok && error_ok)
        },
    }
}

} // verus!
