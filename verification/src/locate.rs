//! Repository discovery over a model of the searched directory tree: the
//! parent of every directory named `.git` lying at most three levels
//! below the root is a repository root. The caller reads the real
//! filesystem into a `DirTree` (unreadable entries simply do not appear)
//! and joins the returned component paths back into filesystem paths.
use vstd::prelude::*;

use crate::strutil::str_eq;

verus! {

/// How many levels below the root the search descends.
pub const MAX_SEARCH_DEPTH: u64 = 3;

/// One directory of the searched tree: its name and its subdirectories.
/// Files play no part in discovery and are not modeled.
pub struct DirTree {
    pub name: String,
    pub subdirs: Vec<DirTree>,
}

/// The directory name that marks a git working copy.
pub open spec fn git_dir_name() -> Seq<char> {
    seq!['.', 'g', 'i', 't']
}

/// The repository paths contributed by the directories `ts`, in traversal
/// order. `prefix` is the component path of their common parent and
/// `budget` how many more levels may be examined: the directories `ts`
/// themselves when `budget >= 1`, their children when `budget >= 2`, and
/// so on.
pub open spec fn repos_in(ts: Seq<DirTree>, prefix: Seq<Seq<char>>, budget: nat) -> Seq<
    Seq<Seq<char>>,
>
    decreases budget, ts.len(),
{
    if ts.len() == 0 || budget == 0 {
        Seq::empty()
    } else {
        (if ts[0].name@ == git_dir_name() {
            seq![prefix]
        } else {
            Seq::empty()
        }) + repos_in(ts[0].subdirs@, prefix.push(ts[0].name@), (budget - 1) as nat) + repos_in(
            ts.drop_first(),
            prefix,
            budget,
        )
    }
}

/// The repository paths contributed by the single directory `c`.
pub open spec fn dir_contrib(c: DirTree, prefix: Seq<Seq<char>>, budget: nat) -> Seq<
    Seq<Seq<char>>,
> {
    (if c.name@ == git_dir_name() {
        seq![prefix]
    } else {
        Seq::empty()
    }) + repos_in(c.subdirs@, prefix.push(c.name@), (budget - 1) as nat)
}

/// How many `.git` directories lie within `budget` levels of `ts`.
pub open spec fn git_count(ts: Seq<DirTree>, budget: nat) -> nat
    decreases budget, ts.len(),
{
    if ts.len() == 0 || budget == 0 {
        0
    } else {
        (if ts[0].name@ == git_dir_name() {
            1nat
        } else {
            0nat
        }) + git_count(ts[0].subdirs@, (budget - 1) as nat) + git_count(ts.drop_first(), budget)
    }
}

/// Whether some `.git` directory within `budget` levels of `ts` has the
/// directory at component path `p` as its parent; `prefix` is the path
/// of the parent of `ts`.
pub open spec fn parent_of_git(
    ts: Seq<DirTree>,
    prefix: Seq<Seq<char>>,
    p: Seq<Seq<char>>,
    budget: nat,
) -> bool
    decreases budget, ts.len(),
{
    if ts.len() == 0 || budget == 0 {
        false
    } else {
        (ts[0].name@ == git_dir_name() && p == prefix) || parent_of_git(
            ts[0].subdirs@,
            prefix.push(ts[0].name@),
            p,
            (budget - 1) as nat,
        ) || parent_of_git(ts.drop_first(), prefix, p, budget)
    }
}

proof fn lemma_contains_concat<A>(a: Seq<A>, b: Seq<A>, x: A)
    ensures
        (a + b).contains(x) == (a.contains(x) || b.contains(x)),
{
    if a.contains(x) {
        let i = choose|i: int| 0 <= i < a.len() && a[i] == x;
        assert((a + b)[i] == x);
    }
    if b.contains(x) {
        let i = choose|i: int| 0 <= i < b.len() && b[i] == x;
        assert((a + b)[a.len() + i] == x);
    }
    if (a + b).contains(x) {
        let i = choose|i: int| 0 <= i < (a + b).len() && (a + b)[i] == x;
        if i < a.len() {
            assert(a[i] == x);
        } else {
            assert(b[i - a.len()] == x);
        }
    }
}

proof fn lemma_repos_in_push(ts: Seq<DirTree>, c: DirTree, prefix: Seq<Seq<char>>, budget: nat)
    requires
        budget >= 1,
    ensures
        repos_in(ts.push(c), prefix, budget) == repos_in(ts, prefix, budget) + dir_contrib(
            c,
            prefix,
            budget,
        ),
    decreases ts.len(),
{
    let whole = ts.push(c);
    if ts.len() == 0 {
        assert(whole[0] == c);
        assert(whole.drop_first() =~= Seq::<DirTree>::empty());
        assert(repos_in(Seq::<DirTree>::empty(), prefix, budget) =~= Seq::<Seq<Seq<char>>>::empty());
        assert(repos_in(whole, prefix, budget) =~= dir_contrib(c, prefix, budget));
        assert(repos_in(ts, prefix, budget) + dir_contrib(c, prefix, budget) =~= dir_contrib(
            c,
            prefix,
            budget,
        ));
    } else {
        assert(whole[0] == ts[0]);
        assert(whole.drop_first() =~= ts.drop_first().push(c));
        lemma_repos_in_push(ts.drop_first(), c, prefix, budget);
        assert(repos_in(whole, prefix, budget) =~= repos_in(ts, prefix, budget) + dir_contrib(
            c,
            prefix,
            budget,
        ));
    }
}

/// Law: the locator yields exactly one entry per `.git` directory within
/// the searched depth — no more, no fewer — whatever the prefix.
pub proof fn lemma_locator_count(ts: Seq<DirTree>, prefix: Seq<Seq<char>>, budget: nat)
    ensures
        repos_in(ts, prefix, budget).len() == git_count(ts, budget),
    decreases budget, ts.len(),
{
    if ts.len() == 0 || budget == 0 {
    } else {
        lemma_locator_count(ts[0].subdirs@, prefix.push(ts[0].name@), (budget - 1) as nat);
        lemma_locator_count(ts.drop_first(), prefix, budget);
    }
}

/// Law: a component path is returned by the locator if and only if it is
/// the parent of some `.git` directory within the searched depth. In
/// particular, a `.git` directory deeper than the search bound never
/// produces an entry.
pub proof fn lemma_locator_entries(
    ts: Seq<DirTree>,
    prefix: Seq<Seq<char>>,
    p: Seq<Seq<char>>,
    budget: nat,
)
    ensures
        repos_in(ts, prefix, budget).contains(p) == parent_of_git(ts, prefix, p, budget),
    decreases budget, ts.len(),
{
    if ts.len() == 0 || budget == 0 {
    } else {
        let head: Seq<Seq<Seq<char>>> = if ts[0].name@ == git_dir_name() {
            seq![prefix]
        } else {
            Seq::empty()
        };
        let mid = repos_in(ts[0].subdirs@, prefix.push(ts[0].name@), (budget - 1) as nat);
        let rest = repos_in(ts.drop_first(), prefix, budget);
        lemma_contains_concat(head + mid, rest, p);
        lemma_contains_concat(head, mid, p);
        if head.contains(p) {
            let i = choose|i: int| 0 <= i < head.len() && head[i] == p;
            assert(head[0] == prefix);
        }
        if ts[0].name@ == git_dir_name() && p == prefix {
            assert(head[0] == p);
        }
        lemma_locator_entries(ts[0].subdirs@, prefix.push(ts[0].name@), p, (budget - 1) as nat);
        lemma_locator_entries(ts.drop_first(), prefix, p, budget);
    }
}

/// Law: a tree with no `.git` directory within the searched depth yields
/// no entries, whatever lies deeper.
pub proof fn lemma_locator_empty(ts: Seq<DirTree>, prefix: Seq<Seq<char>>, budget: nat)
    requires
        git_count(ts, budget) == 0,
    ensures
        repos_in(ts, prefix, budget) == Seq::<Seq<Seq<char>>>::empty(),
{
    lemma_locator_count(ts, prefix, budget);
    assert(repos_in(ts, prefix, budget) =~= Seq::<Seq<Seq<char>>>::empty());
}

fn clone_path(p: &Vec<String>) -> (r: Vec<String>)
    ensures
        r.deep_view() == p.deep_view(),
{
    let mut r: Vec<String> = Vec::new();
    let mut i: usize = 0;
    while i < p.len()
        invariant
            0 <= i <= p@.len(),
            r@.len() == i,
            forall|j: int| 0 <= j < i ==> (#[trigger] r@[j])@ == p@[j]@,
        decreases p@.len() - i,
    {
        let x = p[i].clone();
        r.push(x);
        i += 1;
    }
    proof {
        assert forall|j: int| 0 <= j < p@.len() implies r.deep_view()[j] == p.deep_view()[j] by {
            assert(r@[j]@ == p@[j]@);
        }
        assert(r.deep_view() =~= p.deep_view());
    }
    r
}

fn collect_repos(ts: &Vec<DirTree>, prefix: &mut Vec<String>, budget: u64, out: &mut Vec<
    Vec<String>,
>)
    ensures
        final(prefix)@ == old(prefix)@,
        final(out).deep_view() == old(out).deep_view() + repos_in(
            ts@,
            old(prefix).deep_view(),
            budget as nat,
        ),
    decreases budget,
{
    proof {
        reveal_strlit(".git");
        assert(".git"@ =~= git_dir_name());
    }
    if budget == 0 {
        proof {
            assert(out.deep_view() + repos_in(ts@, prefix.deep_view(), 0) =~= out.deep_view());
        }
        return ;
    }
    let ghost pre = prefix@;
    let ghost pre_deep = prefix.deep_view();
    let ghost base = out.deep_view();
    proof {
        assert(ts@.take(0) =~= Seq::<DirTree>::empty());
        assert(repos_in(Seq::<DirTree>::empty(), pre_deep, budget as nat)
            =~= Seq::<Seq<Seq<char>>>::empty());
        assert(out.deep_view() =~= base + repos_in(ts@.take(0), pre_deep, budget as nat));
    }
    let mut idx: usize = 0;
    while idx < ts.len()
        invariant
            1 <= budget,
            0 <= idx <= ts@.len(),
            prefix@ == pre,
            prefix.deep_view() == pre_deep,
            out.deep_view() == base + repos_in(ts@.take(idx as int), pre_deep, budget as nat),
        decreases ts@.len() - idx,
    {
        proof {
            reveal_strlit(".git");
            assert(".git"@ =~= git_dir_name());
        }
        let c = &ts[idx];
        let ghost mark = out.deep_view();
        let ghost mark_v = out@;
        if str_eq(c.name.as_str(), ".git") {
            let path = clone_path(prefix);
            out.push(path);
            proof {
                assert forall|j: int| 0 <= j < mark.len() implies out.deep_view()[j] == mark[j] by {
                    assert(out@[j] == mark_v[j]);
                }
                assert(out.deep_view()[mark.len() as int] == pre_deep);
                assert(out.deep_view() =~= mark.push(pre_deep));
                assert(mark.push(pre_deep) =~= mark + seq![pre_deep]);
                assert(out.deep_view() == mark + (if c.name@ == git_dir_name() {
                    seq![pre_deep]
                } else {
                    Seq::<Seq<Seq<char>>>::empty()
                }));
            }
        } else {
            proof {
                assert(mark + Seq::<Seq<Seq<char>>>::empty() =~= mark);
                assert(out.deep_view() == mark + (if c.name@ == git_dir_name() {
                    seq![pre_deep]
                } else {
                    Seq::<Seq<Seq<char>>>::empty()
                }));
            }
        }
        let ghost pref_v = prefix@;
        prefix.push(c.name.clone());
        proof {
            assert forall|j: int| 0 <= j < pre_deep.len() implies prefix.deep_view()[j] == pre_deep[j]
                by {
                assert(prefix@[j] == pref_v[j]);
            }
            assert(prefix.deep_view()[pre_deep.len() as int] == c.name@);
            assert(prefix.deep_view() =~= pre_deep.push(c.name@));
        }
        collect_repos(&c.subdirs, prefix, budget - 1, out);
        let ghost pushed_v = prefix@;
        let _ = prefix.pop();
        proof {
            assert(prefix@ =~= pre);
            assert forall|j: int| 0 <= j < pre.len() implies prefix.deep_view()[j] == pre_deep[j] by {
                assert(prefix@[j] == pre[j]);
                assert(pre_deep[j] == pre[j]@);
            }
            assert(prefix.deep_view() =~= pre_deep);
            assert(ts@.take(idx + 1) =~= ts@.take(idx as int).push(ts@[idx as int]));
            lemma_repos_in_push(ts@.take(idx as int), ts@[idx as int], pre_deep, budget as nat);
            assert(out.deep_view() =~= base + repos_in(ts@.take(idx + 1), pre_deep, budget as nat));
        }
        idx += 1;
    }
    proof {
        assert(ts@.take(ts@.len() as int) =~= ts@);
    }
}

/// Collects the component path, relative to `root`, of every directory
/// that directly contains a `.git` directory lying at most
/// `MAX_SEARCH_DEPTH` levels below the root, in traversal order. An
/// empty path denotes the root itself.
pub fn find_git_repositories(root: &DirTree) -> (r: Vec<Vec<String>>)
    ensures
        r.deep_view() == repos_in(root.subdirs@, Seq::empty(), MAX_SEARCH_DEPTH as nat),
{
    let mut out: Vec<Vec<String>> = Vec::new();
    let mut prefix: Vec<String> = Vec::new();
    proof {
        assert(prefix.deep_view() =~= Seq::<Seq<char>>::empty());
        assert(out.deep_view() =~= Seq::<Seq<Seq<char>>>::empty());
    }
    collect_repos(&root.subdirs, &mut prefix, MAX_SEARCH_DEPTH, &mut out);
    proof {
        assert(Seq::<Seq<Seq<char>>>::empty() + repos_in(
            root.subdirs@,
            Seq::empty(),
            MAX_SEARCH_DEPTH as nat,
        ) =~= repos_in(root.subdirs@, Seq::empty(), MAX_SEARCH_DEPTH as nat));
    }
    out
}

} // verus!
