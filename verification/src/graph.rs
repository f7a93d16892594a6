//! The commit graph as far as a pull reasons about it: which commit is an
//! ancestor of which, and what a merge base is.

use vstd::prelude::*;

verus! {

/// A commit graph: for each commit, by its id, the ids of its parents.
pub struct CommitGraph {
    pub parents: Map<Seq<char>, Seq<Seq<char>>>,
}

/// `parent` is a parent of `child`.
pub open spec fn is_parent(g: CommitGraph, child: Seq<char>, parent: Seq<char>) -> bool {
    g.parents.dom().contains(child) && g.parents[child].contains(parent)
}

/// `line` leads from a commit to one of its parents, from there to one of
/// that commit's parents, and so on.
pub open spec fn is_lineage(g: CommitGraph, line: Seq<Seq<char>>) -> bool {
    &&& line.len() > 0
    &&& forall|i: int| 0 <= i < line.len() - 1 ==> is_parent(g, #[trigger] line[i], line[i + 1])
}

/// `ancestor` is `commit` itself or is reached from it over parents.
pub open spec fn is_ancestor(g: CommitGraph, ancestor: Seq<char>, commit: Seq<char>) -> bool {
    exists|line: Seq<Seq<char>>|
        #[trigger] is_lineage(g, line) && line.first() == commit && line.last() == ancestor
}

/// `c` is an ancestor of both `x` and `y`.
pub open spec fn is_common_ancestor(
    g: CommitGraph,
    c: Seq<char>,
    x: Seq<char>,
    y: Seq<char>,
) -> bool {
    is_ancestor(g, c, x) && is_ancestor(g, c, y)
}

/// `m` is a merge base of `x` and `y`: a common ancestor that is an ancestor
/// of no other common ancestor.
pub open spec fn is_merge_base(g: CommitGraph, m: Seq<char>, x: Seq<char>, y: Seq<char>) -> bool {
    &&& is_common_ancestor(g, m, x, y)
    &&& forall|c: Seq<char>|
        #[trigger] is_common_ancestor(g, c, x, y) && is_ancestor(g, m, c) ==> c == m
}

/// Every commit counts among its own ancestors.
pub proof fn lemma_commit_is_its_own_ancestor(g: CommitGraph, commit: Seq<char>)
    ensures
        is_ancestor(g, commit, commit),
{
    let line = seq![commit];
    assert(is_lineage(g, line));
    assert(line.first() == commit && line.last() == commit);
}

/// Where the local head is an ancestor of the fetched commit, the local head
/// is their merge base, and the only one. Where a merge base is the local
/// head, the local head is an ancestor of the fetched commit.
pub proof fn law_merge_base_tells_ancestry(
    g: CommitGraph,
    local: Seq<char>,
    fetched: Seq<char>,
    base: Seq<char>,
)
    requires
        is_merge_base(g, base, local, fetched),
    ensures
        is_ancestor(g, local, fetched) <==> base == local,
{
    lemma_commit_is_its_own_ancestor(g, local);
    if is_ancestor(g, local, fetched) {
        assert(is_common_ancestor(g, local, local, fetched));
        assert(is_ancestor(g, base, local));
    }
}

} // verus!
