//! Commit history as a graph, and the ancestry relation that merge analysis
//! rests on.
//!
//! A commit is named by the position at which it entered the history; the
//! parents of a commit entered before it, so the graph has no cycle.

use crate::analysis::MergeAnalysisResult;
use vstd::prelude::*;

verus! {

/// A history is well formed when every parent of a commit entered the
/// history before that commit.
pub open spec fn well_formed(g: Seq<Seq<usize>>) -> bool {
    forall|c: int, k: int| 0 <= c < g.len() && 0 <= k < g[c].len() ==> (#[trigger] g[c][k]) < c
}

/// Whether commit `a` is `b` itself or can be reached from `b` by following
/// parent links.
pub open spec fn is_ancestor(g: Seq<Seq<usize>>, a: int, b: int) -> bool
    decreases b,
{
    a == b || (0 <= b < g.len() && exists|k: int|
        0 <= k < g[b].len() && (#[trigger] g[b][k]) < b && is_ancestor(g, a, g[b][k] as int))
}

/// An ancestor never entered the history after its descendant.
pub proof fn lemma_ancestor_not_later(g: Seq<Seq<usize>>, a: int, b: int)
    requires
        is_ancestor(g, a, b),
    ensures
        a <= b,
    decreases b,
{
    if a != b {
        let k = choose|k: int|
            0 <= k < g[b].len() && (#[trigger] g[b][k]) < b && is_ancestor(g, a, g[b][k] as int);
        lemma_ancestor_not_later(g, a, g[b][k] as int);
    }
}

/// Ancestry is transitive.
pub proof fn lemma_ancestor_transitive(g: Seq<Seq<usize>>, a: int, b: int, c: int)
    requires
        is_ancestor(g, a, b),
        is_ancestor(g, b, c),
    ensures
        is_ancestor(g, a, c),
    decreases c,
{
    if b != c {
        let k = choose|k: int|
            0 <= k < g[c].len() && (#[trigger] g[c][k]) < c && is_ancestor(g, b, g[c][k] as int);
        lemma_ancestor_transitive(g, a, b, g[c][k] as int);
    }
}

/// Two commits that are ancestors of each other are the same commit.
pub proof fn lemma_ancestor_antisymmetric(g: Seq<Seq<usize>>, a: int, b: int)
    requires
        is_ancestor(g, a, b),
        is_ancestor(g, b, a),
    ensures
        a == b,
{
    lemma_ancestor_not_later(g, a, b);
    lemma_ancestor_not_later(g, b, a);
}

/// How the local tip relates to the fetched upstream tip: unborn without a
/// local tip, up to date when the local tip is the upstream tip or descends
/// from it, a fast-forward when the upstream tip descends from the local tip,
/// and a normal merge otherwise.
pub open spec fn analysis_of(
    g: Seq<Seq<usize>>,
    local: Option<usize>,
    fetched: usize,
) -> MergeAnalysisResult {
    match local {
        None => MergeAnalysisResult::Unborn,
        Some(l) => if is_ancestor(g, fetched as int, l as int) {
            MergeAnalysisResult::UpToDate
        } else if is_ancestor(g, l as int, fetched as int) {
            MergeAnalysisResult::FastForward
        } else {
            MergeAnalysisResult::Normal
        },
    }
}

/// A tip compared with itself is up to date.
pub proof fn lemma_same_tip_is_up_to_date(g: Seq<Seq<usize>>, tip: usize)
    ensures
        analysis_of(g, Some(tip), tip) == MergeAnalysisResult::UpToDate,
{
}

/// An upstream tip that can be reached from the local tip by one or more
/// further commits is a fast-forward.
pub proof fn lemma_descendant_is_fast_forward(g: Seq<Seq<usize>>, local: usize, fetched: usize)
    requires
        is_ancestor(g, local as int, fetched as int),
        local != fetched,
    ensures
        analysis_of(g, Some(local), fetched) == MergeAnalysisResult::FastForward,
{
    if is_ancestor(g, fetched as int, local as int) {
        lemma_ancestor_antisymmetric(g, local as int, fetched as int);
    }
}

/// Two tips of which neither is an ancestor of the other need a normal merge.
pub proof fn lemma_diverged_is_normal(g: Seq<Seq<usize>>, local: usize, fetched: usize)
    requires
        !is_ancestor(g, local as int, fetched as int),
        !is_ancestor(g, fetched as int, local as int),
    ensures
        analysis_of(g, Some(local), fetched) == MergeAnalysisResult::Normal,
{
}

/// A fast-forward is found only where the upstream tip is a descendant of the
/// local tip and another commit than it: never for an earlier commit or one
/// off the local line.
pub proof fn lemma_fast_forward_only_to_descendant(
    g: Seq<Seq<usize>>,
    local: Option<usize>,
    fetched: usize,
)
    requires
        analysis_of(g, local, fetched) == MergeAnalysisResult::FastForward,
    ensures
        local is Some,
        is_ancestor(g, local->0 as int, fetched as int),
        local->0 < fetched,
        !is_ancestor(g, fetched as int, local->0 as int),
{
    lemma_ancestor_not_later(g, local->0 as int, fetched as int);
}

/// The commits of a repository with their parent links.
pub struct History {
    parents: Vec<Vec<usize>>,
}

impl History {
    /// The parent lists, one for each commit in order of entry.
    pub closed spec fn graph(&self) -> Seq<Seq<usize>> {
        Seq::new(self.parents@.len(), |c: int| self.parents@[c]@)
    }

    /// Every parent of a commit entered the history before that commit.
    pub open spec fn wf(&self) -> bool {
        well_formed(self.graph())
    }

    /// A history without commits.
    pub fn new() -> (h: History)
        ensures
            h.graph() == Seq::<Seq<usize>>::empty(),
            h.wf(),
    {
        let h = History { parents: Vec::new() };
        assert(h.graph() =~= Seq::<Seq<usize>>::empty());
        h
    }

    /// The number of commits.
    pub fn len(&self) -> (n: usize)
        ensures
            n == self.graph().len(),
    {
        self.parents.len()
    }

    /// Enters a commit with the given parents and returns its name, or
    /// returns `None` and changes nothing when a parent is not in the
    /// history.
    pub fn add_commit(&mut self, parents: Vec<usize>) -> (r: Option<usize>)
        requires
            old(self).wf(),
        ensures
            final(self).wf(),
            (forall|k: int| 0 <= k < parents@.len() ==> parents@[k] < old(self).graph().len())
                ==> r == Some(old(self).graph().len() as usize)
                && final(self).graph() == old(self).graph().push(parents@),
            (exists|k: int| 0 <= k < parents@.len() && parents@[k] >= old(self).graph().len())
                ==> r is None && final(self).graph() == old(self).graph(),
    {
        let n = self.parents.len();
        let mut k: usize = 0;
        while k < parents.len()
            invariant
                k <= parents.len(),
                n == self.parents@.len(),
                *self == *old(self),
                old(self).wf(),
                forall|j: int| 0 <= j < k ==> parents@[j] < n,
            decreases parents.len() - k,
        {
            if parents[k] >= n {
                return None;
            }
            k += 1;
        }
        let ghost before = self.graph();
        self.parents.push(parents);
        assert(self.graph() =~= before.push(parents@));
        Some(n)
    }

    /// Whether commit `a` is `b` itself or an ancestor of `b`.
    pub fn is_ancestor(&self, a: usize, b: usize) -> (r: bool)
        requires
            self.wf(),
        ensures
            r == is_ancestor(self.graph(), a as int, b as int),
    {
        let ghost g = self.graph();
        if a == b {
            return true;
        }
        if b >= self.parents.len() {
            return false;
        }
        if a > b {
            proof {
                if is_ancestor(g, a as int, b as int) {
                    lemma_ancestor_not_later(g, a as int, b as int);
                }
            }
            return false;
        }
        // reached[j - a] tells whether `a` is an ancestor of commit j.
        let mut reached: Vec<bool> = Vec::new();
        let mut j: usize = a;
        while j <= b
            invariant
                a <= j <= b + 1,
                b < usize::MAX,
                b < self.parents@.len(),
                g == self.graph(),
                well_formed(g),
                reached@.len() == j - a,
                forall|t: int| a <= t < j ==> reached@[t - a] == is_ancestor(g, a as int, t),
            decreases b + 1 - j,
        {
            let ps = &self.parents[j];
            assert(ps@ == g[j as int]);
            let mut found = j == a;
            let mut k: usize = 0;
            while k < ps.len()
                invariant
                    k <= ps.len(),
                    a <= j <= b,
                    b < g.len(),
                    ps@ == g[j as int],
                    well_formed(g),
                    reached@.len() == j - a,
                    forall|t: int| a <= t < j ==> reached@[t - a] == is_ancestor(g, a as int, t),
                    found == (j == a || exists|i: int|
                        0 <= i < k && (#[trigger] g[j as int][i]) < j && is_ancestor(
                            g,
                            a as int,
                            g[j as int][i] as int,
                        )),
                decreases ps.len() - k,
            {
                let p = ps[k];
                assert(p == g[j as int][k as int]);
                assert(p < j);
                if p >= a {
                    if reached[p - a] {
                        found = true;
                    }
                } else {
                    proof {
                        if is_ancestor(g, a as int, p as int) {
                            lemma_ancestor_not_later(g, a as int, p as int);
                        }
                    }
                }
                k += 1;
            }
            reached.push(found);
            j += 1;
        }
        reached[b - a]
    }

    /// Compares the local branch tip, if the branch has one, with the
    /// fetched upstream tip.
    pub fn analyze(&self, local: Option<usize>, fetched: usize) -> (r: MergeAnalysisResult)
        requires
            self.wf(),
        ensures
            r == analysis_of(self.graph(), local, fetched),
    {
        match local {
            None => MergeAnalysisResult::Unborn,
            Some(l) => {
                if self.is_ancestor(fetched, l) {
                    MergeAnalysisResult::UpToDate
                } else if self.is_ancestor(l, fetched) {
                    MergeAnalysisResult::FastForward
                } else {
                    MergeAnalysisResult::Normal
                }
            },
        }
    }
}

} // verus!
