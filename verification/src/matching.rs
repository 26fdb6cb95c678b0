//! Choosing a record out of a NetBox query: the first or the last answer of
//! a targeted query, or the first record of a full listing that matches the
//! resource by its identifying fields.
use vstd::prelude::*;
use crate::model::{opt_view, NetBoxRecord};

verus! {

/// A record answered by a NetBox query, with the fields by which it can be
/// recognised. `number` holds the VLAN id of a VLAN and the manufacturer id
/// of a device type; `name` holds the model of a device type.
#[derive(Debug)]
pub struct Candidate {
    pub record: NetBoxRecord,
    pub name: Option<String>,
    pub slug: String,
    pub asset_tag: Option<String>,
    pub number: u64,
}

/// How a record of a full listing is recognised as the one a resource
/// describes.
#[derive(Debug)]
pub enum MatchRule {
    /// Same name, or same slug when the resource gives one.
    NameOrSlug { name: String, slug: Option<String> },
    /// Same model of the same manufacturer, or same slug when given.
    ModelOrSlug { model: String, manufacturer_id: u64, slug: Option<String> },
    /// Same number (VLAN id), or same name.
    NumberOrName { number: u64, name: String },
    /// Same asset tag when the resource gives one; failing that, same name.
    AssetTagThenName { asset_tag: Option<String>, name: String },
}

/// Which answer of a targeted query is taken.
#[derive(Clone, Copy, Debug)]
pub enum Pick {
    First,
    Last,
}

/// The candidate carries the given name.
pub open spec fn name_is(c: Candidate, name: Seq<char>) -> bool {
    opt_view(c.name) == Some(name)
}

/// The candidate carries the given slug (never, when no slug is given).
pub open spec fn slug_is(c: Candidate, slug: Option<String>) -> bool {
    match slug {
        Some(s) => c.slug@ == s@,
        None => false,
    }
}

/// The candidate carries the given asset tag (never, when none is given).
pub open spec fn asset_tag_is(c: Candidate, tag: Option<String>) -> bool {
    match tag {
        Some(t) => opt_view(c.asset_tag) == Some(t@),
        None => false,
    }
}

/// Whether a candidate matches a single-pass rule.
pub open spec fn matches_rule(rule: MatchRule, c: Candidate) -> bool {
    match rule {
        MatchRule::NameOrSlug { name, slug } => name_is(c, name@) || slug_is(c, slug),
        MatchRule::ModelOrSlug { model, manufacturer_id, slug } =>
            (name_is(c, model@) && c.number == manufacturer_id) || slug_is(c, slug),
        MatchRule::NumberOrName { number, name } => c.number == number || name_is(c, name@),
        MatchRule::AssetTagThenName { asset_tag, name } => name_is(c, name@),
    }
}

/// `k` is the first position of `s` whose candidate satisfies `p`.
pub open spec fn is_first(s: Seq<Candidate>, p: spec_fn(Candidate) -> bool, k: int) -> bool {
    0 <= k < s.len() && p(s[k]) && forall|j: int| 0 <= j < k ==> !p(#[trigger] s[j])
}

/// The first position of `s` whose candidate satisfies `p`, if any.
pub open spec fn first_match(s: Seq<Candidate>, p: spec_fn(Candidate) -> bool) -> Option<int> {
    if exists|k: int| is_first(s, p, k) {
        Some(choose|k: int| is_first(s, p, k))
    } else {
        None
    }
}

/// The position a full listing yields for a rule: the first match, where
/// for asset tag rules a record with the same asset tag comes before one
/// with the same name.
pub open spec fn select_index(rule: MatchRule, s: Seq<Candidate>) -> Option<int> {
    match rule {
        MatchRule::AssetTagThenName { asset_tag, name } => {
            let by_tag = first_match(s, |c: Candidate| asset_tag_is(c, asset_tag));
            if by_tag is Some {
                by_tag
            } else {
                first_match(s, |c: Candidate| name_is(c, name@))
            }
        },
        _ => first_match(s, |c: Candidate| matches_rule(rule, c)),
    }
}

/// The position a targeted query yields.
pub open spec fn pick_index(pick: Pick, n: nat) -> Option<int> {
    if n == 0 {
        None
    } else {
        match pick {
            Pick::First => Some(0),
            Pick::Last => Some(n - 1),
        }
    }
}

proof fn lemma_first_unique(s: Seq<Candidate>, p: spec_fn(Candidate) -> bool, k: int)
    requires
        is_first(s, p, k),
    ensures
        first_match(s, p) == Some(k),
{
    let c = choose|j: int| is_first(s, p, j);
    assert(is_first(s, p, c));
    if c < k {
        assert(!p(s[c]));
    }
    if k < c {
        assert(!p(s[k]));
    }
}

fn opt_text_is(o: &Option<String>, t: &String) -> (r: bool)
    ensures
        r == (opt_view(*o) == Some(t@)),
{
    match o {
        Some(x) => *x == *t,
        None => false,
    }
}

fn slug_matches(c: &Candidate, slug: &Option<String>) -> (r: bool)
    ensures
        r == slug_is(*c, *slug),
{
    match slug {
        Some(s) => c.slug == *s,
        None => false,
    }
}

fn matches_rule_exec(rule: &MatchRule, c: &Candidate) -> (r: bool)
    ensures
        r == matches_rule(*rule, *c),
{
    match rule {
        MatchRule::NameOrSlug { name, slug } => opt_text_is(&c.name, name) || slug_matches(c, slug),
        MatchRule::ModelOrSlug { model, manufacturer_id, slug } =>
            (opt_text_is(&c.name, model) && c.number == *manufacturer_id) || slug_matches(c, slug),
        MatchRule::NumberOrName { number, name } => c.number == *number || opt_text_is(&c.name, name),
        MatchRule::AssetTagThenName { asset_tag, name } => opt_text_is(&c.name, name),
    }
}

fn first_asset_tag(s: &Vec<Candidate>, tag: &Option<String>) -> (r: Option<usize>)
    ensures
        match r {
            Some(k) => first_match(s@, |c: Candidate| asset_tag_is(c, *tag)) == Some(k as int),
            None => first_match(s@, |c: Candidate| asset_tag_is(c, *tag)) is None,
        },
{
    let ghost p = |c: Candidate| asset_tag_is(c, *tag);
    let t = match tag {
        Some(t) => t,
        None => {
            assert(!exists|k: int| is_first(s@, p, k));
            return None;
        },
    };
    let mut i: usize = 0;
    while i < s.len()
        invariant
            i <= s.len(),
            tag matches Some(tt) && tt == t,
            p == (|c: Candidate| asset_tag_is(c, *tag)),
            forall|j: int| 0 <= j < i ==> !p(#[trigger] s@[j]),
        decreases s.len() - i,
    {
        if opt_text_is(&s[i].asset_tag, t) {
            assert(is_first(s@, p, i as int));
            proof { lemma_first_unique(s@, p, i as int); }
            return Some(i);
        }
        i = i + 1;
    }
    assert(!exists|k: int| is_first(s@, p, k));
    None
}

fn first_name(s: &Vec<Candidate>, name: &String) -> (r: Option<usize>)
    ensures
        match r {
            Some(k) => first_match(s@, |c: Candidate| name_is(c, name@)) == Some(k as int),
            None => first_match(s@, |c: Candidate| name_is(c, name@)) is None,
        },
{
    let ghost p = |c: Candidate| name_is(c, name@);
    let mut i: usize = 0;
    while i < s.len()
        invariant
            i <= s.len(),
            p == (|c: Candidate| name_is(c, name@)),
            forall|j: int| 0 <= j < i ==> !p(#[trigger] s@[j]),
        decreases s.len() - i,
    {
        if opt_text_is(&s[i].name, name) {
            assert(is_first(s@, p, i as int));
            proof { lemma_first_unique(s@, p, i as int); }
            return Some(i);
        }
        i = i + 1;
    }
    assert(!exists|k: int| is_first(s@, p, k));
    None
}

fn first_rule_match(s: &Vec<Candidate>, rule: &MatchRule) -> (r: Option<usize>)
    ensures
        match r {
            Some(k) => first_match(s@, |c: Candidate| matches_rule(*rule, c)) == Some(k as int),
            None => first_match(s@, |c: Candidate| matches_rule(*rule, c)) is None,
        },
{
    let ghost p = |c: Candidate| matches_rule(*rule, c);
    let mut i: usize = 0;
    while i < s.len()
        invariant
            i <= s.len(),
            p == (|c: Candidate| matches_rule(*rule, c)),
            forall|j: int| 0 <= j < i ==> !p(#[trigger] s@[j]),
        decreases s.len() - i,
    {
        if matches_rule_exec(rule, &s[i]) {
            assert(is_first(s@, p, i as int));
            proof { lemma_first_unique(s@, p, i as int); }
            return Some(i);
        }
        i = i + 1;
    }
    assert(!exists|k: int| is_first(s@, p, k));
    None
}

/// The position of the record of a full listing that the rule selects.
pub fn select_candidate(rule: &MatchRule, s: &Vec<Candidate>) -> (r: Option<usize>)
    ensures
        match r {
            Some(k) => select_index(*rule, s@) == Some(k as int) && k < s.len(),
            None => select_index(*rule, s@) is None,
        },
{
    match rule {
        MatchRule::AssetTagThenName { asset_tag, name } => {
            let by_tag = first_asset_tag(s, asset_tag);
            match by_tag {
                Some(k) => Some(k),
                None => first_name(s, name),
            }
        },
        _ => first_rule_match(s, rule),
    }
}

/// The position a targeted query yields: its first or its last answer.
pub fn pick_candidate(pick: Pick, s: &Vec<Candidate>) -> (r: Option<usize>)
    ensures
        match r {
            Some(k) => pick_index(pick, s@.len()) == Some(k as int) && k < s.len(),
            None => pick_index(pick, s@.len()) is None,
        },
{
    if s.len() == 0 {
        None
    } else {
        match pick {
            Pick::First => Some(0),
            Pick::Last => Some(s.len() - 1),
        }
    }
}

} // verus!
