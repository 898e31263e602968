//! Selecting workflows by a case-insensitive fragment of their name.

use vstd::prelude::*;
use crate::model::Workflow;
use crate::text::{contains_text, contains_spec};

verus! {

/// The lowercase mapping of a text, character by character, as Unicode defines it.
pub uninterp spec fn lower_of(s: Seq<char>) -> Seq<char>;

/// Relies on `str::to_lowercase`: the result depends on the characters alone,
/// and an empty text stays empty.
#[verifier::external_body]
fn lowercase(s: &str) -> (r: String)
    ensures
        r@ == lower_of(s@),
        s@.len() == 0 ==> r@.len() == 0,
{
    s.to_lowercase()
}

/// Whether a name matches an optional filter: no filter matches every name,
/// and a filter matches the names that hold it, both in lower case.
pub open spec fn name_matches_spec(filter: Option<Seq<char>>, name: Seq<char>) -> bool {
    match filter {
        None => true,
        Some(f) => contains_spec(lower_of(name), lower_of(f)),
    }
}

/// Whether an already lowercased name holds an already lowercased filter.
pub fn name_matches_folded(filter_folded: &str, name_folded: &str) -> (r: bool)
    ensures
        r == contains_spec(name_folded@, filter_folded@),
{
    contains_text(name_folded, filter_folded)
}

/// Whether `name` matches the optional `filter`, ignoring case.
pub fn name_matches(filter: Option<&str>, name: &str) -> (r: bool)
    ensures
        r == name_matches_spec(filter.deep_view(), name@),
{
    match filter {
        None => true,
        Some(f) => {
            let f_lower = lowercase(f);
            let name_lower = lowercase(name);
            name_matches_folded(f_lower.as_str(), name_lower.as_str())
        },
    }
}

/// The workflows of `workflows` whose name matches `filter`, in their order.
pub open spec fn matching_workflows(filter: Option<Seq<char>>, workflows: Seq<Workflow>) -> Seq<Workflow> {
    workflows.filter(|w: Workflow| name_matches_spec(filter, w.name@))
}

/// Keeps the workflows whose name matches `filter`, ignoring case; without a
/// filter every workflow is kept.
pub fn filtered_workflows(filter: Option<String>, workflows: Vec<Workflow>) -> (r: Vec<Workflow>)
    ensures
        r@ == matching_workflows(filter.deep_view(), workflows@),
{
    let ghost fv = filter.deep_view();
    let ghost all = workflows@;
    let mut out: Vec<Workflow> = Vec::new();
    let mut rest = workflows;
    let mut i: usize = 0;
    let n = rest.len();
    proof {
        reveal(Seq::filter);
        assert(all.subrange(0, 0) =~= Seq::<Workflow>::empty());
        assert(all.subrange(0, all.len() as int) =~= all);
    }
    while rest.len() > 0
        invariant
            i + rest.len() == all.len(),
            all.len() == n,
            rest@ == all.subrange(i as int, all.len() as int),
            out@ == matching_workflows(fv, all.subrange(0, i as int)),
            fv == filter.deep_view(),
        decreases rest.len(),
    {
        let w = rest.remove(0);
        let keep = match &filter {
            None => name_matches(None, w.name.as_str()),
            Some(f) => name_matches(Some(f.as_str()), w.name.as_str()),
        };
        proof {
            let pre = all.subrange(0, i as int + 1);
            assert(pre.drop_last() =~= all.subrange(0, i as int));
            assert(pre.last() == w);
            assert(rest@ =~= all.subrange(i as int + 1, all.len() as int));
            reveal(Seq::filter);
        }
        if keep {
            out.push(w);
        }
        i = i + 1;
    }
    out
}

} // verus!
