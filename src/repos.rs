//! Folding code-search hits into one record per repository.

use vstd::prelude::*;
use crate::model::{CodeSearchItem, Repo};
use crate::text::{lex_less, text_less, lemma_lex_total, lemma_lex_transitive};

verus! {

/// The repository name of a hit.
pub open spec fn repo_of(item: CodeSearchItem) -> Seq<char> {
    item.repository.full_name@
}

/// The paths of the hits in `items` that belong to repository `name`, in order.
pub open spec fn paths_of(items: Seq<CodeSearchItem>, name: Seq<char>) -> Seq<Seq<char>>
    decreases items.len(),
{
    if items.len() == 0 {
        Seq::empty()
    } else if repo_of(items.last()) == name {
        paths_of(items.drop_last(), name).push(items.last().path@)
    } else {
        paths_of(items.drop_last(), name)
    }
}

/// The names of the repositories in `repos`.
pub open spec fn repo_names(repos: Seq<Repo>) -> Set<Seq<char>> {
    repos.map_values(|r: Repo| r.full_name@).to_set()
}

/// The names of the repositories that the hits of `items` belong to.
pub open spec fn hit_repos(items: Seq<CodeSearchItem>) -> Set<Seq<char>> {
    items.map_values(|it: CodeSearchItem| repo_of(it)).to_set()
}

/// `repos` holds one record per repository named in `items`, and no other,
/// in strictly ascending order of name, each with the paths of its hits in
/// the order of the hits.
pub open spec fn groups(repos: Seq<Repo>, items: Seq<CodeSearchItem>) -> bool {
    &&& forall|i: int, j: int| 0 <= i < j < repos.len() ==> lex_less(repos[i].full_name@, repos[j].full_name@)
    &&& repo_names(repos) == hit_repos(items)
    &&& forall|i: int| 0 <= i < repos.len() ==> (#[trigger] repos[i]).workflows.deep_view() == paths_of(items, repos[i].full_name@)
}

fn index_of(names: &Vec<String>, name: &String) -> (r: Option<usize>)
    ensures
        match r {
            Some(j) => j < names.len() && names@[j as int]@ == name@,
            None => forall|j: int| 0 <= j < names.len() ==> names@[j]@ != name@,
        },
{
    let mut j: usize = 0;
    while j < names.len()
        invariant
            j <= names.len(),
            forall|i: int| 0 <= i < j ==> names@[i]@ != name@,
        decreases names.len() - j,
    {
        if names[j] == *name {
            return Some(j);
        }
        j = j + 1;
    }
    None
}

fn paths_in(items: &Vec<CodeSearchItem>, name: &String) -> (r: Vec<String>)
    ensures
        r.deep_view() == paths_of(items@, name@),
{
    let mut out: Vec<String> = Vec::new();
    let mut k: usize = 0;
    proof {
        assert(items@.subrange(0, 0) =~= Seq::<CodeSearchItem>::empty());
        assert(out.deep_view() =~= Seq::<Seq<char>>::empty());
    }
    while k < items.len()
        invariant
            k <= items.len(),
            out.deep_view() == paths_of(items@.subrange(0, k as int), name@),
        decreases items.len() - k,
    {
        let ghost before = out.deep_view();
        let ghost pre = items@.subrange(0, k as int + 1);
        proof {
            assert(pre.drop_last() =~= items@.subrange(0, k as int));
            assert(pre.last() == items@[k as int]);
        }
        if items[k].repository.full_name == *name {
            out.push(items[k].path.clone());
            assert(out.deep_view() =~= before.push(items@[k as int].path@));
        }
        k = k + 1;
    }
    assert(items@.subrange(0, items.len() as int) =~= items@);
    out
}

/// The texts of `names`.
pub open spec fn name_set(names: Seq<String>) -> Set<Seq<char>> {
    names.map_values(|n: String| n@).to_set()
}

/// The distinct repository names of `items`, in ascending order.
fn sorted_names(items: &Vec<CodeSearchItem>) -> (names: Vec<String>)
    ensures
        forall|i: int, j: int| 0 <= i < j < names.len() ==> lex_less(names@[i]@, names@[j]@),
        name_set(names@) == hit_repos(items@),
{
    let mut names: Vec<String> = Vec::new();
    let mut k: usize = 0;
    proof {
        assert(items@.subrange(0, 0).map_values(|it: CodeSearchItem| repo_of(it)) =~= Seq::<Seq<char>>::empty());
        assert(names@.map_values(|n: String| n@) =~= Seq::<Seq<char>>::empty());
    }
    while k < items.len()
        invariant
            k <= items.len(),
            forall|i: int, j: int| 0 <= i < j < names.len() ==> lex_less(names@[i]@, names@[j]@),
            name_set(names@) == hit_repos(items@.subrange(0, k as int)),
        decreases items.len() - k,
    {
        let name = &items[k].repository.full_name;
        let ghost x = name@;
        let ghost old_names = names@;
        proof {
            let f = |it: CodeSearchItem| repo_of(it);
            assert(items@.subrange(0, k as int + 1).map_values(f) =~= items@.subrange(0, k as int).map_values(f).push(x));
            items@.subrange(0, k as int).map_values(f).lemma_push_to_set_commute(x);
        }
        let mut j: usize = 0;
        loop
            invariant
                j <= names.len(),
                names@ == old_names,
                x == name@,
                forall|t: int| 0 <= t < j ==> lex_less(#[trigger] names@[t]@, x),
            ensures
                j <= names.len(),
                names@ == old_names,
                forall|t: int| 0 <= t < j ==> lex_less(#[trigger] names@[t]@, x),
                j == names.len() || !lex_less(names@[j as int]@, x),
            decreases names.len() - j,
        {
            if j >= names.len() {
                break;
            }
            if !text_less(names[j].as_str(), name.as_str()) {
                break;
            }
            j = j + 1;
        }
        let present = j < names.len() && names[j] == *name;
        if present {
            proof {
                let g = |n: String| n@;
                assert(names@.map_values(g)[j as int] == x);
                assert(name_set(names@).contains(x));
                assert(name_set(names@).insert(x) =~= name_set(names@));
            }
        } else {
            proof {
                if j < names.len() {
                    assert(!lex_less(names@[j as int]@, x));
                    lemma_lex_total(names@[j as int]@, x);
                    assert forall|t: int| j < t < names.len() implies lex_less(x, #[trigger] names@[t]@) by {
                        lemma_lex_transitive(x, names@[j as int]@, names@[t]@);
                    }
                }
            }
            names.insert(j, name.clone());
            proof {
                let g = |n: String| n@;
                let before = old_names.map_values(g);
                let after = names@.map_values(g);
                assert forall|a: int, b: int| 0 <= a < b < names.len() implies lex_less(names@[a]@, names@[b]@) by {
                    if b < j {
                    } else if b == j {
                    } else if a < j {
                        assert(names@[b] == old_names[b - 1]);
                        assert(lex_less(x, old_names[b - 1]@));
                        lemma_lex_transitive(names@[a]@, x, names@[b]@);
                    } else if a == j {
                        assert(names@[b] == old_names[b - 1]);
                    } else {
                        assert(names@[a] == old_names[a - 1]);
                        assert(names@[b] == old_names[b - 1]);
                    }
                }
                assert forall|n: Seq<char>| after.to_set().contains(n) <==> before.to_set().insert(x).contains(n) by {
                    if after.contains(n) {
                        let t = choose|t: int| 0 <= t < after.len() && after[t] == n;
                        if t < j {
                            assert(before[t] == n);
                        } else if t > j {
                            assert(before[t - 1] == n);
                        }
                    }
                    if before.contains(n) {
                        let t = choose|t: int| 0 <= t < before.len() && before[t] == n;
                        if t < j {
                            assert(after[t] == n);
                        } else {
                            assert(after[t + 1] == n);
                        }
                    }
                    if n == x {
                        assert(after[j as int] == n);
                    }
                }
                assert(after.to_set() =~= before.to_set().insert(x));
            }
        }
        k = k + 1;
    }
    assert(items@.subrange(0, items.len() as int) =~= items@);
    names
}

/// Groups code-search hits by repository: one `Repo` per distinct repository
/// name, in order of first appearance, holding the paths of its hits.
pub fn group_repos(items: &Vec<CodeSearchItem>) -> (r: Vec<Repo>)
    ensures
        groups(r@, items@),
{
    let names = sorted_names(items);
    let mut repos: Vec<Repo> = Vec::new();
    let mut i: usize = 0;
    while i < names.len()
        invariant
            i <= names.len(),
            repos.len() == i,
            forall|j: int| 0 <= j < i ==> (#[trigger] repos@[j]).full_name@ == names@[j]@,
            forall|j: int| 0 <= j < i ==> (#[trigger] repos@[j]).workflows.deep_view() == paths_of(items@, names@[j]@),
        decreases names.len() - i,
    {
        let workflows = paths_in(items, &names[i]);
        repos.push(Repo { full_name: names[i].clone(), workflows });
        i = i + 1;
    }
    proof {
        assert forall|i: int, j: int| 0 <= i < j < repos.len() implies lex_less(repos@[i].full_name@, repos@[j].full_name@) by {
            assert(repos@[i].full_name@ == names@[i]@);
            assert(repos@[j].full_name@ == names@[j]@);
        }
        let rn = repos@.map_values(|r: Repo| r.full_name@);
        assert(rn =~= names@.map_values(|n: String| n@));
    }
    repos
}

} // verus!
