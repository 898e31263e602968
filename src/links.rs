//! Reading the continuation link out of a `Link` response header.

use vstd::prelude::*;
use hyperx::header::Header;

verus! {

/// The link-values of a `Link` header, each as its target and its relation
/// types written as text, or `None` where the header does not parse.
pub uninterp spec fn link_values_of(header: Seq<char>) -> Option<Seq<(Seq<char>, Seq<Seq<char>>)>>;

/// Relies on hyperx's `Link::parse_header` to split a `Link` header value into
/// link-values; each relation type is taken as text through its `Display`
/// (`RelationType::Next` is written `next`).
#[verifier::external_body]
fn parse_link_header(header: &str) -> (r: Option<Vec<(String, Vec<String>)>>)
    ensures
        r.deep_view() == link_values_of(header@),
{
    let raw = hyperx::header::Raw::from(header);
    hyperx::header::Link::parse_header(&raw).ok().map(|link| {
        link.values().iter().map(|v| {
            let rels = v.rel().map_or(Vec::new(), |rs| rs.iter().map(|r| r.to_string()).collect());
            (v.link().to_string(), rels)
        }).collect()
    })
}

/// Whether one of `rels` is the `next` relation.
pub open spec fn has_next_rel(rels: Seq<Seq<char>>) -> bool {
    exists|j: int| 0 <= j < rels.len() && rels[j] == "next"@
}

/// The target of the first link-value of `values`, from index `i` on, whose
/// relations include `next`.
pub open spec fn first_next_from(values: Seq<(Seq<char>, Seq<Seq<char>>)>, i: int) -> Option<Seq<char>>
    decreases values.len() - i,
{
    if i < 0 || i >= values.len() {
        None
    } else if has_next_rel(values[i].1) {
        Some(values[i].0)
    } else {
        first_next_from(values, i + 1)
    }
}

/// What `next_link` finds in a `Link` header value.
pub open spec fn next_link_spec(header: Option<Seq<char>>) -> Option<Seq<char>> {
    match header {
        None => None,
        Some(h) => match link_values_of(h) {
            None => None,
            Some(values) => first_next_from(values, 0),
        },
    }
}

fn is_next_rel(rels: &Vec<String>) -> (r: bool)
    ensures
        r == has_next_rel(rels.deep_view()),
{
    let next = String::from_str("next");
    let mut j: usize = 0;
    while j < rels.len()
        invariant
            j <= rels.len(),
            next@ == "next"@,
            forall|k: int| 0 <= k < j ==> rels.deep_view()[k] != "next"@,
        decreases rels.len() - j,
    {
        if rels[j] == next {
            assert(rels.deep_view()[j as int] == "next"@);
            return true;
        }
        j = j + 1;
    }
    false
}

/// The target of the first link-value whose relations include `next`.
pub fn next_link_of_values(values: &Vec<(String, Vec<String>)>) -> (r: Option<String>)
    ensures
        r.deep_view() == first_next_from(values.deep_view(), 0),
{
    let ghost vs = values.deep_view();
    let mut i: usize = 0;
    while i < values.len()
        invariant
            i <= values.len(),
            vs == values.deep_view(),
            first_next_from(vs, 0) == first_next_from(vs, i as int),
        decreases values.len() - i,
    {
        assert(vs[i as int] == values[i as int].deep_view());
        if is_next_rel(&values[i].1) {
            return Some(values[i].0.clone());
        }
        i = i + 1;
    }
    None
}

/// The URL of the next page, read from a response's `Link` header, if it
/// has one and one of its entries has the relation `next`.
pub fn next_link(header: Option<&str>) -> (r: Option<String>)
    ensures
        r.deep_view() == next_link_spec(
            match header {
                None => None,
                Some(h) => Some(h@),
            },
        ),
{
    match header {
        None => None,
        Some(h) => match parse_link_header(h) {
            None => None,
            Some(values) => next_link_of_values(&values),
        },
    }
}

} // verus!
