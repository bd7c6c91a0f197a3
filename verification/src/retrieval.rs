//! Ranking: which candidates a search selects, and in which order.

use vstd::prelude::*;
use crate::models::{node_views, MedicalNode, NodeView, SearchStrategy};
use crate::text::{
    contains, is_substring, lowercase_of, same, split_words, texts, to_lowercase, words_of,
};

verus! {

/// What ranking knows of one node. A candidate that is not eligible is
/// never selected.
#[derive(Debug)]
pub struct Candidate {
    pub eligible: bool,
    pub relevance: usize,
    pub created_at: i64,
    pub layer: u8,
    pub record_type: String,
}

/// A candidate as plain values.
pub ghost struct CandidateView {
    pub eligible: bool,
    pub relevance: usize,
    pub created_at: i64,
    pub layer: u8,
    pub record_type: Seq<char>,
}

impl View for Candidate {
    type V = CandidateView;

    open spec fn view(&self) -> CandidateView {
        CandidateView {
            eligible: self.eligible,
            relevance: self.relevance,
            created_at: self.created_at,
            layer: self.layer,
            record_type: self.record_type@,
        }
    }
}

/// The candidates of a list as plain values.
pub open spec fn candidate_views(c: Seq<Candidate>) -> Seq<CandidateView> {
    c.map_values(|x: Candidate| x@)
}

/// Positions as integers.
pub open spec fn positions(picked: Seq<usize>) -> Seq<int> {
    picked.map_values(|x: usize| x as int)
}

/// By what candidates are ranked.
#[derive(Debug, Clone, Copy, PartialEq, Eq, Structural)]
pub enum Ranking {
    /// By a search strategy.
    Strategy(SearchStrategy),
    /// As context: lower layers first, within a layer the newest first.
    Hierarchy,
}

/// The weight of relevance in the balance of maximal marginal relevance.
pub const RELEVANCE_WEIGHT: i128 = 7;

/// The weight of redundancy in the balance of maximal marginal relevance.
pub const REDUNDANCY_WEIGHT: i128 = 3;

/// How many of the candidates at `picked` have the record type of the
/// candidate at `i`.
pub open spec fn same_type_count(c: Seq<CandidateView>, picked: Seq<int>, i: int) -> nat
    decreases picked.len(),
{
    if picked.len() == 0 {
        0
    } else {
        same_type_count(c, picked.drop_last(), i) + if c[picked.last()].record_type
            == c[i].record_type {
            1nat
        } else {
            0nat
        }
    }
}

/// What selecting the candidate at `i` is worth after those at `picked`: a
/// pair that is compared by its first part, then by its second.
///
/// - Keyword ranking goes by relevance.
/// - Recency goes by the instant of creation, then by relevance.
/// - Diversity prefers a record type that has not been selected yet, then
///   goes by relevance.
/// - Maximal marginal relevance weighs relevance against the number of
///   selected candidates of the same record type.
/// - Context goes by layer, lower first, then by the instant of creation.
pub open spec fn gain(rank: Ranking, c: Seq<CandidateView>, picked: Seq<int>, i: int) -> (int, int) {
    match rank {
        Ranking::Strategy(SearchStrategy::BM25) => (c[i].relevance as int, 0),
        Ranking::Strategy(SearchStrategy::Recency) => (
            c[i].created_at as int,
            c[i].relevance as int,
        ),
        Ranking::Strategy(SearchStrategy::Diversity) => (
            if same_type_count(c, picked, i) == 0 {
                1
            } else {
                0
            },
            c[i].relevance as int,
        ),
        Ranking::Strategy(SearchStrategy::MMR) => (
            RELEVANCE_WEIGHT * c[i].relevance - REDUNDANCY_WEIGHT * same_type_count(c, picked, i),
            0,
        ),
        Ranking::Hierarchy => (-(c[i].layer as int), c[i].created_at as int),
    }
}

/// The pair `a` ranks above the pair `b`.
pub open spec fn better(a: (int, int), b: (int, int)) -> bool {
    a.0 > b.0 || (a.0 == b.0 && a.1 > b.1)
}

/// The candidate at `i` can still be selected after those at `picked`.
pub open spec fn free(c: Seq<CandidateView>, picked: Seq<int>, i: int) -> bool {
    0 <= i < c.len() && c[i].eligible && !picked.contains(i)
}

/// The candidate at `i` is the one to select after those at `picked`: no
/// free candidate is worth more, and of those worth as much it stands
/// first.
pub open spec fn is_best(rank: Ranking, c: Seq<CandidateView>, picked: Seq<int>, i: int) -> bool {
    &&& free(c, picked, i)
    &&& forall|j: int| #[trigger]
        free(c, picked, j) ==> !better(gain(rank, c, picked, j), gain(rank, c, picked, i)) && (gain(
            rank,
            c,
            picked,
            j,
        ) == gain(rank, c, picked, i) ==> i <= j)
}

/// `picked` is the selection of at most `limit` candidates: each position
/// holds the best candidate after those before it, and the selection ends
/// early only where no free candidate is left.
pub open spec fn is_selection(rank: Ranking, c: Seq<CandidateView>, limit: nat, picked: Seq<int>) -> bool {
    &&& picked.len() <= limit
    &&& forall|p: int| 0 <= p < picked.len() ==> is_best(rank, c, picked.take(p), #[trigger] picked[p])
    &&& picked.len() < limit ==> forall|j: int| !#[trigger] free(c, picked, j)
}

/// A selection holds no candidate twice and only eligible ones.
pub proof fn selection_is_duplicate_free(
    rank: Ranking,
    c: Seq<CandidateView>,
    limit: nat,
    picked: Seq<int>,
)
    requires
        is_selection(rank, c, limit, picked),
    ensures
        forall|p: int| 0 <= p < picked.len() ==> 0 <= #[trigger] picked[p] < c.len() && c[picked[p]].eligible,
        forall|p: int, q: int| 0 <= p < q < picked.len() ==> picked[p] != picked[q],
{
    assert forall|p: int, q: int| 0 <= p < q < picked.len() implies picked[p] != picked[q] by {
        assert(is_best(rank, c, picked.take(q), picked[q]));
        assert(picked.take(q)[p] == picked[p]);
        assert(picked.take(q).contains(picked[p]));
    }
    assert forall|p: int| 0 <= p < picked.len() implies 0 <= #[trigger] picked[p] < c.len()
        && c[picked[p]].eligible by {
        assert(is_best(rank, c, picked.take(p), picked[p]));
    }
}

/// Two selections of the same candidates under the same ranking and limit
/// are the same: the rules leave no choice.
pub proof fn selection_is_unique(
    rank: Ranking,
    c: Seq<CandidateView>,
    limit: nat,
    a: Seq<int>,
    b: Seq<int>,
)
    requires
        is_selection(rank, c, limit, a),
        is_selection(rank, c, limit, b),
    ensures
        a == b,
{
    let n = if a.len() <= b.len() { a.len() } else { b.len() };
    assert forall|p: int| 0 <= p <= n implies a.take(p) == #[trigger] b.take(p) by {
        same_prefix(rank, c, limit, a, b, p);
    }
    if a.len() < b.len() {
        assert(a.take(n as int) == a);
        assert(is_best(rank, c, b.take(n as int), b[n as int]));
        assert(free(c, a, b[n as int]));
    } else if b.len() < a.len() {
        assert(b.take(n as int) == b);
        assert(is_best(rank, c, a.take(n as int), a[n as int]));
        assert(free(c, b, a[n as int]));
    } else {
        assert(a.take(n as int) == a);
        assert(b.take(n as int) == b);
    }
}

/// Two selections agree on every front part that both have.
proof fn same_prefix(rank: Ranking, c: Seq<CandidateView>, limit: nat, a: Seq<int>, b: Seq<int>, p: int)
    requires
        is_selection(rank, c, limit, a),
        is_selection(rank, c, limit, b),
        0 <= p <= a.len(),
        p <= b.len(),
    ensures
        a.take(p) == b.take(p),
    decreases p,
{
    if p == 0 {
        assert(a.take(0) =~= b.take(0));
    } else {
        same_prefix(rank, c, limit, a, b, p - 1);
        let before = a.take(p - 1);
        assert(is_best(rank, c, a.take(p - 1), a[p - 1]));
        assert(is_best(rank, c, b.take(p - 1), b[p - 1]));
        assert(free(c, before, a[p - 1]));
        assert(free(c, before, b[p - 1]));
        assert(a[p - 1] == b[p - 1]);
        assert(a.take(p) =~= a.take(p - 1).push(a[p - 1]));
        assert(b.take(p) =~= b.take(p - 1).push(b[p - 1]));
    }
}

/// How many of the candidates at `picked` have the record type of the
/// candidate at `i`.
fn count_same_type(c: &[Candidate], picked: &Vec<usize>, i: usize) -> (r: usize)
    requires
        i < c@.len(),
        forall|p: int| 0 <= p < picked@.len() ==> (#[trigger] picked@[p]) < c@.len(),
    ensures
        r == same_type_count(candidate_views(c@), positions(picked@), i as int),
        r <= picked@.len(),
{
    let ghost cv = candidate_views(c@);
    let ghost pos = positions(picked@);
    let mut count: usize = 0;
    let mut p: usize = 0;
    while p < picked.len()
        invariant
            p <= picked@.len(),
            i < c@.len(),
            cv == candidate_views(c@),
            pos == positions(picked@),
            forall|q: int| 0 <= q < picked@.len() ==> (#[trigger] picked@[q]) < c@.len(),
            count == same_type_count(cv, pos.take(p as int), i as int),
            count <= p,
        decreases picked.len() - p,
    {
        proof {
            assert(pos.take(p as int + 1).drop_last() == pos.take(p as int));
            assert(pos.take(p as int + 1).last() == picked@[p as int] as int);
            assert(cv[picked@[p as int] as int] == c@[picked@[p as int] as int]@);
            assert(cv[i as int] == c@[i as int]@);
        }
        if c[picked[p]].record_type == c[i].record_type {
            count = count + 1;
        }
        p = p + 1;
    }
    proof {
        assert(pos.take(picked@.len() as int) == pos);
    }
    count
}

/// What selecting the candidate at `i` is worth after those at `picked`.
fn gain_of(rank: Ranking, c: &[Candidate], picked: &Vec<usize>, i: usize) -> (r: (i128, i128))
    requires
        i < c@.len(),
        forall|p: int| 0 <= p < picked@.len() ==> (#[trigger] picked@[p]) < c@.len(),
    ensures
        (r.0 as int, r.1 as int) == gain(rank, candidate_views(c@), positions(picked@), i as int),
{
    proof {
        assert(candidate_views(c@)[i as int] == c@[i as int]@);
    }
    match rank {
        Ranking::Strategy(SearchStrategy::BM25) => (c[i].relevance as i128, 0),
        Ranking::Strategy(SearchStrategy::Recency) => (
            c[i].created_at as i128,
            c[i].relevance as i128,
        ),
        Ranking::Strategy(SearchStrategy::Diversity) => {
            let seen = count_same_type(c, picked, i);
            (
                if seen == 0 {
                    1
                } else {
                    0
                },
                c[i].relevance as i128,
            )
        },
        Ranking::Strategy(SearchStrategy::MMR) => {
            let seen = count_same_type(c, picked, i);
            (RELEVANCE_WEIGHT * (c[i].relevance as i128) - REDUNDANCY_WEIGHT * (seen as i128), 0)
        },
        Ranking::Hierarchy => (-(c[i].layer as i128), c[i].created_at as i128),
    }
}

/// Selects at most `limit` of the candidates `c` under `rank` and returns
/// their positions in the order of selection.
pub fn select(rank: Ranking, c: &[Candidate], limit: usize) -> (r: Vec<usize>)
    ensures
        is_selection(rank, candidate_views(c@), limit as nat, positions(r@)),
        forall|p: int| 0 <= p < r@.len() ==> (#[trigger] r@[p]) < c@.len(),
{
    let ghost cv = candidate_views(c@);
    let n = c.len();
    let mut used: Vec<bool> = Vec::new();
    let mut k: usize = 0;
    while k < n
        invariant
            k <= n,
            used@.len() == k,
            forall|i: int| 0 <= i < k ==> !(#[trigger] used@[i]),
        decreases n - k,
    {
        used.push(false);
        k = k + 1;
    }
    let mut picked: Vec<usize> = Vec::new();
    let mut done = false;
    while picked.len() < limit && !done
        invariant
            n == c@.len(),
            cv == candidate_views(c@),
            used@.len() == n,
            picked@.len() <= limit,
            forall|i: int| 0 <= i < n ==> (#[trigger] used@[i]) == positions(picked@).contains(i),
            forall|p: int| 0 <= p < picked@.len() ==> (#[trigger] picked@[p]) < n,
            forall|p: int|
                0 <= p < picked@.len() ==> is_best(
                    rank,
                    cv,
                    positions(picked@).take(p),
                    #[trigger] positions(picked@)[p],
                ),
            done ==> forall|j: int| !#[trigger] free(cv, positions(picked@), j),
            picked@.len() <= n,
            positions(picked@).no_duplicates(),
        decreases (if done { 0int } else { 1int }) + n - picked@.len(),
    {
        let ghost pos = positions(picked@);
        let mut best: Option<usize> = None;
        let mut best_gain: (i128, i128) = (0, 0);
        let mut i: usize = 0;
        while i < n
            invariant
                i <= n,
                n == c@.len(),
                cv == candidate_views(c@),
                used@.len() == n,
                pos == positions(picked@),
                forall|q: int| 0 <= q < n ==> (#[trigger] used@[q]) == pos.contains(q),
                forall|p: int| 0 <= p < picked@.len() ==> (#[trigger] picked@[p]) < n,
                best is None ==> forall|j: int| 0 <= j < i ==> !#[trigger] free(cv, pos, j),
                best matches Some(b) ==> {
                    &&& b < i
                    &&& free(cv, pos, b as int)
                    &&& (best_gain.0 as int, best_gain.1 as int) == gain(rank, cv, pos, b as int)
                    &&& forall|j: int|
                        0 <= j < i && #[trigger] free(cv, pos, j) ==> !better(
                            gain(rank, cv, pos, j),
                            gain(rank, cv, pos, b as int),
                        ) && (gain(rank, cv, pos, j) == gain(rank, cv, pos, b as int) ==> b <= j)
                },
            decreases n - i,
        {
            proof {
                assert(cv[i as int] == c@[i as int]@);
            }
            if c[i].eligible && !used[i] {
                let g = gain_of(rank, c, &picked, i);
                let wins = match best {
                    None => true,
                    Some(_) => g.0 > best_gain.0 || (g.0 == best_gain.0 && g.1 > best_gain.1),
                };
                if wins {
                    best = Some(i);
                    best_gain = g;
                }
            }
            i = i + 1;
        }
        match best {
            None => {
                done = true;
            },
            Some(b) => {
                proof {
                    assert(is_best(rank, cv, pos, b as int));
                    assert(!pos.contains(b as int));
                    assert forall|p: int| 0 <= p < pos.len() implies 0 <= #[trigger] pos[p]
                        < n by {
                        assert(pos[p] == picked@[p]);
                    }
                    selection_fits(n as int, pos, b as int);
                }
                picked.push(b);
                used.set(b, true);
                proof {
                    let now = positions(picked@);
                    assert(now =~= pos.push(b as int));
                    assert forall|p: int| 0 <= p < picked@.len() implies is_best(
                        rank,
                        cv,
                        now.take(p),
                        #[trigger] now[p],
                    ) by {
                        if p < pos.len() {
                            assert(now.take(p) =~= pos.take(p));
                            assert(now[p] == pos[p]);
                        } else {
                            assert(now.take(p) =~= pos);
                        }
                    }
                    assert forall|q: int| 0 <= q < n implies (#[trigger] used@[q]) == now.contains(
                        q,
                    ) by {
                        if q == b {
                            assert(now[pos.len() as int] == q);
                        } else if pos.contains(q) {
                            let w = choose|w: int| 0 <= w < pos.len() && pos[w] == q;
                            assert(now[w] == q);
                        } else if now.contains(q) {
                            let w = choose|w: int| 0 <= w < now.len() && now[w] == q;
                            assert(pos[w] == q);
                        }
                    }
                }
            },
        }
    }
    picked
}

/// How many of `words` are a part of `content`.
pub open spec fn overlap(words: Seq<Seq<char>>, content: Seq<char>) -> nat
    decreases words.len(),
{
    if words.len() == 0 {
        0
    } else {
        overlap(words.drop_last(), content) + if is_substring(words.last(), content) {
            1nat
        } else {
            0nat
        }
    }
}

/// The relevance of a content for a query: how many of the query's words
/// occur in the content, both taken in lower case.
pub open spec fn relevance_of(query: Seq<char>, content: Seq<char>) -> nat {
    overlap(words_of(lowercase_of(query)), lowercase_of(content))
}

/// The candidate that stands for a node in a search for `query`. It is
/// eligible where it is relevant at all and, with `base_only`, lies on
/// layer 0.
pub open spec fn candidate_for(node: NodeView, query: Seq<char>, base_only: bool) -> CandidateView {
    CandidateView {
        eligible: relevance_of(query, node.content) >= 1 && (base_only ==> node.metadata.layer
            == 0),
        relevance: relevance_of(query, node.content) as usize,
        created_at: node.metadata.created_at,
        layer: node.metadata.layer,
        record_type: node.metadata.record_type,
    }
}

/// The candidates that stand for `nodes` in a search for `query`.
pub open spec fn search_candidates(nodes: Seq<NodeView>, query: Seq<char>, base_only: bool) -> Seq<
    CandidateView,
> {
    nodes.map_values(|n: NodeView| candidate_for(n, query, base_only))
}

/// How many of `words` are a part of `content`.
fn count_overlap(words: &Vec<String>, content: &str) -> (r: usize)
    ensures
        r == overlap(texts(words@), content@),
        r <= words@.len(),
{
    let ghost w = texts(words@);
    let mut count: usize = 0;
    let mut k: usize = 0;
    while k < words.len()
        invariant
            k <= words@.len(),
            w == texts(words@),
            count == overlap(w.take(k as int), content@),
            count <= k,
        decreases words.len() - k,
    {
        proof {
            assert(w.take(k as int + 1).drop_last() == w.take(k as int));
            assert(w.take(k as int + 1).last() == words@[k as int]@);
        }
        if contains(content, words[k].as_str()) {
            count = count + 1;
        }
        k = k + 1;
    }
    proof {
        assert(w.take(words@.len() as int) == w);
    }
    count
}

/// The candidates that stand for `nodes` in a search for `query`.
pub fn candidates(nodes: &[MedicalNode], query: &str, base_only: bool) -> (r: Vec<Candidate>)
    ensures
        r@.len() == nodes@.len(),
        candidate_views(r@) == search_candidates(node_views(nodes@), query@, base_only),
{
    let lowered = to_lowercase(query);
    let words = split_words(lowered.as_str());
    let mut out: Vec<Candidate> = Vec::new();
    let mut i: usize = 0;
    while i < nodes.len()
        invariant
            i <= nodes.len(),
            out@.len() == i,
            texts(words@) == words_of(lowercase_of(query@)),
            forall|j: int|
                0 <= j < i ==> (#[trigger] out@[j])@ == candidate_for(nodes@[j]@, query@, base_only),
        decreases nodes.len() - i,
    {
        let content = to_lowercase(nodes[i].content.as_str());
        let relevance = count_overlap(&words, content.as_str());
        out.push(
            Candidate {
                eligible: relevance >= 1 && (!base_only || nodes[i].metadata.layer == 0),
                relevance,
                created_at: nodes[i].metadata.created_at,
                layer: nodes[i].metadata.layer,
                record_type: nodes[i].metadata.record_type.clone(),
            },
        );
        i = i + 1;
    }
    proof {
        assert(candidate_views(out@) =~= search_candidates(node_views(nodes@), query@, base_only));
    }
    out
}

/// The node at `i` summarizes the node named `target` within `hops`
/// steps along the references from a summary to what it summarizes.
pub open spec fn reaches(nodes: Seq<NodeView>, i: int, target: Seq<char>, hops: nat) -> bool
    decreases hops,
{
    &&& hops > 0
    &&& 0 <= i < nodes.len()
    &&& (nodes[i].metadata.sources().contains(target) || exists|j: int|
        0 <= j < nodes.len() && nodes[i].metadata.sources().contains((#[trigger] nodes[j]).id)
            && reaches(nodes, j, target, (hops - 1) as nat))
}

/// Whether the node at `i` names `target` among what it summarizes, or
/// names a node that `marks` marks.
fn next_mark(nodes: &[MedicalNode], marks: &Vec<bool>, target: &str, i: usize) -> (r: bool)
    requires
        i < nodes@.len(),
        marks@.len() == nodes@.len(),
    ensures
        r == (node_views(nodes@)[i as int].metadata.sources().contains(target@) || exists|j: int|
            0 <= j < nodes@.len() && node_views(nodes@)[i as int].metadata.sources().contains(
                (#[trigger] node_views(nodes@)[j]).id,
            ) && marks@[j]),
{
    let ghost nv = node_views(nodes@);
    let ghost sources = nv[i as int].metadata.sources();
    proof {
        assert(nv[i as int] == nodes@[i as int]@);
    }
    match &nodes[i].metadata.summary_of {
        None => {
            proof {
                assert(sources.len() == 0);
            }
            false
        },
        Some(ids) => {
            proof {
                assert(sources == texts(ids@));
            }
            let mut k: usize = 0;
            while k < ids.len()
                invariant
                    k <= ids@.len(),
                    i < nodes@.len(),
                    marks@.len() == nodes@.len(),
                    nv == node_views(nodes@),
                    sources == texts(ids@),
                    sources == nv[i as int].metadata.sources(),
                    forall|q: int| 0 <= q < k ==> (#[trigger] sources[q]) != target@,
                    forall|q: int, j: int|
                        0 <= q < k && 0 <= j < nodes@.len() ==> !((#[trigger] sources[q])
                            == (#[trigger] nv[j]).id && marks@[j]),
                decreases ids.len() - k,
            {
                proof {
                    assert(sources[k as int] == ids@[k as int]@);
                }
                if same(ids[k].as_str(), target) {
                    proof {
                        assert(sources.len() == ids@.len());
                        assert(sources[k as int] == target@);
                        assert(sources.contains(target@));
                    }
                    return true;
                }
                let mut j: usize = 0;
                while j < nodes.len()
                    invariant
                        j <= nodes@.len(),
                        k < ids@.len(),
                        marks@.len() == nodes@.len(),
                        nv == node_views(nodes@),
                        sources == texts(ids@),
                        i < nodes@.len(),
                        sources == nv[i as int].metadata.sources(),
                        forall|p: int|
                            0 <= p < j ==> !(sources[k as int] == (#[trigger] nv[p]).id
                                && marks@[p]),
                    decreases nodes.len() - j,
                {
                    proof {
                        assert(nv[j as int] == nodes@[j as int]@);
                    }
                    if marks[j] && nodes[j].id == ids[k] {
                        proof {
                            assert(sources.len() == ids@.len());
                            assert(sources[k as int] == nv[j as int].id);
                            assert(sources.contains(nv[j as int].id));
                        }
                        return true;
                    }
                    j = j + 1;
                }
                k = k + 1;
            }
            proof {
                assert(!sources.contains(target@));
                assert forall|j: int| 0 <= j < nodes@.len() implies !(sources.contains(
                    (#[trigger] nv[j]).id,
                ) && marks@[j]) by {
                    if sources.contains(nv[j].id) {
                        let q = choose|q: int| 0 <= q < sources.len() && sources[q] == nv[j].id;
                        assert(!(sources[q] == nv[j].id && marks@[j]));
                    }
                }
            }
            false
        },
    }
}

/// For each node, whether it summarizes the node named `target` within
/// `max_hops` steps.
pub fn reach_marks(nodes: &[MedicalNode], target: &str, max_hops: u8) -> (r: Vec<bool>)
    ensures
        r@.len() == nodes@.len(),
        forall|i: int|
            0 <= i < nodes@.len() ==> (#[trigger] r@[i]) == reaches(
                node_views(nodes@),
                i,
                target@,
                max_hops as nat,
            ),
{
    let ghost nv = node_views(nodes@);
    let n = nodes.len();
    let mut marks: Vec<bool> = Vec::new();
    let mut i: usize = 0;
    while i < n
        invariant
            i <= n,
            marks@.len() == i,
            forall|q: int| 0 <= q < i ==> !(#[trigger] marks@[q]),
        decreases n - i,
    {
        marks.push(false);
        i = i + 1;
    }
    let mut hop: u8 = 0;
    while hop < max_hops
        invariant
            hop <= max_hops,
            n == nodes@.len(),
            nv == node_views(nodes@),
            marks@.len() == n,
            forall|q: int| 0 <= q < n ==> (#[trigger] marks@[q]) == reaches(nv, q, target@, hop as nat),
        decreases max_hops - hop,
    {
        let mut next: Vec<bool> = Vec::new();
        let mut i: usize = 0;
        while i < n
            invariant
                i <= n,
                hop < max_hops,
                n == nodes@.len(),
                nv == node_views(nodes@),
                marks@.len() == n,
                next@.len() == i,
                forall|q: int|
                    0 <= q < n ==> (#[trigger] marks@[q]) == reaches(nv, q, target@, hop as nat),
                forall|q: int|
                    0 <= q < i ==> (#[trigger] next@[q]) == reaches(
                        nv,
                        q,
                        target@,
                        (hop + 1) as nat,
                    ),
            decreases n - i,
        {
            let m = next_mark(nodes, &marks, target, i);
            proof {
                let via_marks = exists|j: int|
                    0 <= j < n && nv[i as int].metadata.sources().contains((#[trigger] nv[j]).id)
                        && marks@[j];
                let via_reach = exists|j: int|
                    0 <= j < n && nv[i as int].metadata.sources().contains((#[trigger] nv[j]).id)
                        && reaches(nv, j, target@, hop as nat);
                if via_marks {
                    let j = choose|j: int|
                        0 <= j < n && nv[i as int].metadata.sources().contains(
                            (#[trigger] nv[j]).id,
                        ) && marks@[j];
                    assert(reaches(nv, j, target@, hop as nat));
                }
                if via_reach {
                    let j = choose|j: int|
                        0 <= j < n && nv[i as int].metadata.sources().contains(
                            (#[trigger] nv[j]).id,
                        ) && reaches(nv, j, target@, hop as nat);
                    assert(marks@[j]);
                }
                assert(via_marks == via_reach);
                assert(((hop + 1) as nat - 1) as nat == hop as nat);
            }
            next.push(m);
            i = i + 1;
        }
        marks = next;
        hop = hop + 1;
    }
    marks
}

/// Positions that are all different and lie below `n` are fewer than `n`
/// as long as one position below `n` is not among them.
proof fn selection_fits(n: int, picked: Seq<int>, b: int)
    requires
        0 <= b < n,
        !picked.contains(b),
        picked.no_duplicates(),
        forall|p: int| 0 <= p < picked.len() ==> 0 <= #[trigger] picked[p] < n,
    ensures
        picked.len() < n,
        picked.push(b).no_duplicates(),
{
    let all = picked.push(b);
    assert forall|i: int, j: int| 0 <= i < all.len() && 0 <= j < all.len() && i != j implies all[i]
        != all[j] by {
        if i < picked.len() && j < picked.len() {
            assert(picked[i] != picked[j]);
        } else if i < picked.len() {
            assert(picked.contains(picked[i]));
        } else {
            assert(picked.contains(picked[j]));
        }
    }
    all.unique_seq_to_set();
    vstd::set_lib::lemma_int_range(0, n);
    assert forall|x: int| all.to_set().contains(x) implies vstd::set_lib::set_int_range(
        0,
        n,
    ).contains(x) by {
        let w = choose|w: int| 0 <= w < all.len() && all[w] == x;
        if w < picked.len() {
            assert(all[w] == picked[w]);
        }
    }
    vstd::set_lib::lemma_len_subset(all.to_set(), vstd::set_lib::set_int_range(0, n));
}

} // verus!
