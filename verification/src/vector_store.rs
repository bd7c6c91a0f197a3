//! The hierarchy engine: it creates nodes under the hierarchy rules and
//! reads them back by layer.

use vstd::prelude::*;
use crate::clock::now_millis;
use crate::database::{hierarchy_ok, holds_id, metadata_ok, reference_ok, DatabaseManager};
use crate::error::OrionError;
use crate::models::{
    node_views, ContextNode, MedicalNode, MetadataView, MultiHopResult, NodeMetadata, NodeView,
    SearchStrategy,
};
use crate::retrieval::{
    candidate_views, candidates, is_selection, positions, reach_marks, reaches, relevance_of,
    search_candidates, select, Candidate, CandidateView, Ranking,
};
use crate::search::{classify, strategy_for};
use crate::text::{lowercase_of, texts, to_lowercase};

verus! {

/// Calls `uuid::Uuid::new_v4` and `to_string` on what it gives. Trusted:
/// the result is a random identifier in hyphenated form, which takes 36
/// characters. The call stops the program where the system has no source
/// of randomness.
#[verifier::external_body]
pub(crate) fn fresh_id() -> (r: String)
    ensures
        r@.len() == 36,
{
    uuid::Uuid::new_v4().to_string()
}

/// The nodes of `nodes` that lie on `layer`, in their order.
pub open spec fn on_layer(nodes: Seq<NodeView>, layer: u8) -> Seq<NodeView>
    decreases nodes.len(),
{
    if nodes.len() == 0 {
        Seq::empty()
    } else if nodes.last().metadata.layer == layer {
        on_layer(nodes.drop_last(), layer).push(nodes.last())
    } else {
        on_layer(nodes.drop_last(), layer)
    }
}

/// The metadata of a summary node created at `now` for `patient`.
pub open spec fn summary_metadata(
    now: i64,
    node_type: Seq<char>,
    patient: Seq<char>,
    layer: u8,
    sources: Seq<Seq<char>>,
) -> MetadataView {
    MetadataView {
        created_at: now,
        record_type: node_type,
        patient_id: patient,
        layer,
        summary_of: Some(sources),
    }
}

/// The engine: the store it writes to and the patient on whose behalf it
/// creates summaries.
#[derive(Debug)]
pub struct VectorStoreService {
    db_manager: DatabaseManager,
    patient_id: String,
}

impl VectorStoreService {
    /// The store.
    pub closed spec fn store(&self) -> DatabaseManager {
        self.db_manager
    }

    /// The patient on whose behalf summaries are created.
    pub closed spec fn patient(&self) -> Seq<char> {
        self.patient_id@
    }

    /// The store's nodes, `None` before the store is initialized.
    pub open spec fn nodes(&self) -> Option<Seq<NodeView>> {
        self.store().table()
    }

    /// The store obeys the hierarchy rules.
    pub open spec fn wf(&self) -> bool {
        self.store().wf()
    }

    /// An engine over `db_manager` for the patient `default`.
    pub fn new(db_manager: DatabaseManager) -> (r: Self)
        ensures
            r.store() == db_manager,
            r.patient() == "default"@,
    {
        VectorStoreService { db_manager, patient_id: String::from_str("default") }
    }

    /// An engine over `db_manager` for the patient `patient_id`.
    pub fn for_patient(db_manager: DatabaseManager, patient_id: String) -> (r: Self)
        ensures
            r.store() == db_manager,
            r.patient() == patient_id@,
    {
        VectorStoreService { db_manager, patient_id }
    }

    /// Initializes the store with a fresh, empty table.
    pub fn init(&mut self) -> (r: Result<(), OrionError>)
        ensures
            r is Ok,
            final(self).nodes() == Some(Seq::<NodeView>::empty()),
            final(self).wf(),
            final(self).patient() == old(self).patient(),
    {
        self.db_manager.init()
    }

    /// Whether the store is initialized.
    pub fn is_initialized(&self) -> (r: bool)
        ensures
            r == self.nodes() is Some,
    {
        self.db_manager.is_initialized()
    }

    /// Whether `meta` is acceptable to `nodes`.
    fn accepts(nodes: &Vec<MedicalNode>, meta: &NodeMetadata) -> (r: bool)
        ensures
            r == metadata_ok(node_views(nodes@), meta@),
    {
        let ghost table = node_views(nodes@);
        match &meta.summary_of {
            None => meta.layer == 0,
            Some(ids) => {
                if meta.layer > 0 && ids.len() == 0 {
                    return false;
                }
                let mut k: usize = 0;
                while k < ids.len()
                    invariant
                        k <= ids.len(),
                        table == node_views(nodes@),
                        meta.summary_of == Some(*ids),
                        forall|q: int|
                            0 <= q < k ==> reference_ok(table, meta@, #[trigger] meta@.sources()[q]),
                    decreases ids.len() - k,
                {
                    let mut found = false;
                    let mut j: usize = 0;
                    while j < nodes.len() && !found
                        invariant
                            j <= nodes.len(),
                            k < ids.len(),
                            table == node_views(nodes@),
                            found ==> reference_ok(table, meta@, ids@[k as int]@),
                            !found ==> forall|p: int|
                                0 <= p < j ==> !((#[trigger] table[p]).id == ids@[k as int]@
                                    && table[p].metadata.layer < meta.layer
                                    && table[p].metadata.patient_id == meta.patient_id@),
                        decreases nodes.len() - j + (if found { 0int } else { 1int }),
                    {
                        let node = &nodes[j];
                        if node.id == ids[k] && node.metadata.layer < meta.layer
                            && node.metadata.patient_id == meta.patient_id {
                            proof {
                                assert(table[j as int] == nodes@[j as int]@);
                            }
                            found = true;
                        } else {
                            proof {
                                assert(table[j as int] == nodes@[j as int]@);
                            }
                            j = j + 1;
                        }
                    }
                    if !found {
                        proof {
                            assert(meta@.sources()[k as int] == ids@[k as int]@);
                            assert(!reference_ok(table, meta@, meta@.sources()[k as int]));
                        }
                        return false;
                    }
                    proof {
                        assert(meta@.sources()[k as int] == ids@[k as int]@);
                    }
                    k = k + 1;
                }
                true
            },
        }
    }

    /// Whether some node of `nodes` has the identifier `id`.
    fn knows(nodes: &Vec<MedicalNode>, id: &String) -> (r: bool)
        ensures
            r == holds_id(node_views(nodes@), id@),
    {
        let ghost table = node_views(nodes@);
        let mut j: usize = 0;
        while j < nodes.len()
            invariant
                j <= nodes.len(),
                table == node_views(nodes@),
                forall|p: int| 0 <= p < j ==> (#[trigger] table[p]).id != id@,
            decreases nodes.len() - j,
        {
            if nodes[j].id == *id {
                proof {
                    assert(table[j as int] == nodes@[j as int]@);
                }
                return true;
            }
            proof {
                assert(table[j as int] == nodes@[j as int]@);
            }
            j = j + 1;
        }
        false
    }

    /// Creates a node under the identifier `id`. It fails, and changes
    /// nothing, before the store is initialized, where the metadata breaks
    /// the hierarchy rules, and where the identifier is taken already.
    pub fn add_node_with_id(
        &mut self,
        id: String,
        content: &str,
        metadata: NodeMetadata,
        embedding: Option<Vec<u32>>,
    ) -> (r: Result<String, OrionError>)
        requires
            old(self).wf(),
        ensures
            final(self).wf(),
            final(self).patient() == old(self).patient(),
            creation_outcome(
                old(self).nodes(),
                content@,
                metadata@,
                bits_of(embedding),
                r,
                final(self).nodes(),
            ),
            r is Ok <==> (old(self).nodes() matches Some(nodes) && metadata_ok(nodes, metadata@)
                && !holds_id(nodes, id@)),
            r matches Ok(out) ==> out@ == id@,
    {
        let (acceptable, known) = match self.db_manager.get_db() {
            Ok(nodes) => (Self::accepts(nodes, &metadata), Self::knows(nodes, &id)),
            Err(e) => {
                return Err(e);
            },
        };
        if !acceptable {
            let reason = match &metadata.summary_of {
                Some(ids) => if metadata.layer > 0 && ids.len() == 0 {
                    "summary_of must not be empty above layer 0"
                } else {
                    "summary_of must reference existing nodes of a lower layer and the same patient"
                },
                None => "summary_of must not be empty above layer 0",
            };
            return Err(OrionError::InvalidInput(String::from_str(reason)));
        }
        if known {
            return Err(OrionError::Database(String::from_str("Database record already exists")));
        }
        let out = id.clone();
        let node = MedicalNode { id, content: String::from_str(content), metadata, embedding };
        self.db_manager.insert(node);
        Ok(out)
    }

    /// Creates a node under a fresh random identifier and returns the
    /// identifier. It fails, and changes nothing, before the store is
    /// initialized and where the metadata breaks the hierarchy rules; a
    /// fresh identifier that is taken already is the only other failure.
    pub fn add_node(&mut self, content: &str, metadata: NodeMetadata, embedding: Option<Vec<u32>>) -> (r:
        Result<String, OrionError>)
        requires
            old(self).wf(),
        ensures
            final(self).wf(),
            final(self).patient() == old(self).patient(),
            creation_outcome(
                old(self).nodes(),
                content@,
                metadata@,
                bits_of(embedding),
                r,
                final(self).nodes(),
            ),
    {
        self.add_node_with_id(fresh_id(), content, metadata, embedding)
    }

    /// Creates a summary node on `layer` that summarizes `source_node_ids`,
    /// for the engine's patient, created at `now`.
    pub fn create_summary_node_at(
        &mut self,
        now: i64,
        summary_content: String,
        source_node_ids: Vec<String>,
        layer: u8,
        node_type: &str,
    ) -> (r: Result<String, OrionError>)
        requires
            old(self).wf(),
        ensures
            final(self).wf(),
            final(self).patient() == old(self).patient(),
            creation_outcome(
                old(self).nodes(),
                summary_content@,
                summary_metadata(now, node_type@, old(self).patient(), layer, texts(source_node_ids@)),
                None,
                r,
                final(self).nodes(),
            ),
    {
        let metadata = NodeMetadata {
            created_at: now,
            record_type: String::from_str(node_type),
            patient_id: self.patient_id.clone(),
            layer,
            summary_of: Some(source_node_ids),
        };
        self.add_node(summary_content.as_str(), metadata, None)
    }

    /// Creates a summary node on `layer` that summarizes `source_node_ids`,
    /// for the engine's patient, created at the instant that the clock
    /// gives.
    pub fn create_summary_node(
        &mut self,
        summary_content: String,
        source_node_ids: Vec<String>,
        layer: u8,
        node_type: &str,
    ) -> (r: Result<String, OrionError>)
        requires
            old(self).wf(),
        ensures
            final(self).wf(),
            final(self).patient() == old(self).patient(),
            exists|now: i64|
                creation_outcome(
                    old(self).nodes(),
                    summary_content@,
                    #[trigger] summary_metadata(
                        now,
                        node_type@,
                        old(self).patient(),
                        layer,
                        texts(source_node_ids@),
                    ),
                    None,
                    r,
                    final(self).nodes(),
                ),
    {
        self.create_summary_node_at(now_millis(), summary_content, source_node_ids, layer, node_type)
    }

    /// The direct results for `query`: the identifiers of at most `limit`
    /// relevant nodes, selected and ordered under `strategy`.
    pub fn search_with_reranking(&self, query: &str, limit: usize, strategy: SearchStrategy) -> (r:
        Result<Vec<String>, OrionError>)
        ensures
            r is Ok <==> self.nodes() is Some,
            r matches Ok(found) ==> is_search_result(
                self.nodes()->0,
                query@,
                limit as nat,
                strategy,
                texts(found@),
            ),
            r matches Err(e) ==> e matches OrionError::Database(m) && m@
                == "Database not initialized"@,
    {
        let nodes = self.db_manager.get_db()?;
        let ghost nv = node_views(nodes@);
        let c = candidates(nodes.as_slice(), query, false);
        let picked = select(Ranking::Strategy(strategy), c.as_slice(), limit);
        let mut found: Vec<String> = Vec::new();
        let mut p: usize = 0;
        while p < picked.len()
            invariant
                p <= picked@.len(),
                found@.len() == p,
                nv == node_views(nodes@),
                forall|q: int| 0 <= q < picked@.len() ==> (#[trigger] picked@[q]) < nodes@.len(),
                forall|q: int| 0 <= q < p ==> (#[trigger] found@[q])@ == nv[picked@[q] as int].id,
            decreases picked.len() - p,
        {
            proof {
                assert(nv[picked@[p as int] as int] == nodes@[picked@[p as int] as int]@);
            }
            found.push(nodes[picked[p]].id.clone());
            p = p + 1;
        }
        proof {
            assert(texts(found@) =~= ids_at(nv, positions(picked@)));
        }
        Ok(found)
    }

    /// The candidates for the context of one hit: a node is eligible where
    /// `marks` marks it and `taken` does not.
    fn context_pool(nodes: &Vec<MedicalNode>, marks: &Vec<bool>, taken: &Vec<bool>) -> (r: Vec<
        Candidate,
    >)
        requires
            marks@.len() == nodes@.len(),
            taken@.len() == nodes@.len(),
        ensures
            r@.len() == nodes@.len(),
            forall|i: int|
                0 <= i < nodes@.len() ==> (#[trigger] r@[i])@ == context_candidate(
                    nodes@[i]@,
                    marks@[i] && !taken@[i],
                ),
    {
        let mut out: Vec<Candidate> = Vec::new();
        let mut i: usize = 0;
        while i < nodes.len()
            invariant
                i <= nodes@.len(),
                out@.len() == i,
                marks@.len() == nodes@.len(),
                taken@.len() == nodes@.len(),
                forall|j: int|
                    0 <= j < i ==> (#[trigger] out@[j])@ == context_candidate(
                        nodes@[j]@,
                        marks@[j] && !taken@[j],
                    ),
            decreases nodes.len() - i,
        {
            out.push(
                Candidate {
                    eligible: marks[i] && !taken[i],
                    relevance: 0,
                    created_at: nodes[i].metadata.created_at,
                    layer: nodes[i].metadata.layer,
                    record_type: nodes[i].metadata.record_type.clone(),
                },
            );
            i = i + 1;
        }
        out
    }

    /// The context entries for the nodes at `picked`, which are marked in
    /// `taken` as used.
    fn take_context(nodes: &Vec<MedicalNode>, picked: &Vec<usize>, taken: &mut Vec<bool>) -> (r: Vec<
        ContextNode,
    >)
        requires
            old(taken)@.len() == nodes@.len(),
            forall|q: int| 0 <= q < picked@.len() ==> (#[trigger] picked@[q]) < nodes@.len(),
        ensures
            final(taken)@.len() == nodes@.len(),
            forall|i: int|
                0 <= i < nodes@.len() ==> (#[trigger] final(taken)@[i]) == (old(taken)@[i]
                    || positions(picked@).contains(i)),
            context_shows(node_views(nodes@), r@, positions(picked@)),
    {
        let ghost nv = node_views(nodes@);
        let ghost pos = positions(picked@);
        let mut context: Vec<ContextNode> = Vec::new();
        let mut q: usize = 0;
        while q < picked.len()
            invariant
                q <= picked@.len(),
                context@.len() == q,
                nv == node_views(nodes@),
                pos == positions(picked@),
                taken@.len() == nodes@.len(),
                forall|w: int| 0 <= w < picked@.len() ==> (#[trigger] picked@[w]) < nodes@.len(),
                forall|i: int|
                    0 <= i < nodes@.len() ==> (#[trigger] taken@[i]) == (old(taken)@[i]
                        || pos.take(q as int).contains(i)),
                forall|w: int|
                    0 <= w < q ==> context_entry_shows(nv[pos[w]], #[trigger] context@[w]),
            decreases picked.len() - q,
        {
            let at = picked[q];
            proof {
                assert(nv[at as int] == nodes@[at as int]@);
                assert(pos[q as int] == at as int);
            }
            context.push(
                ContextNode {
                    node_id: nodes[at].id.clone(),
                    content: nodes[at].content.clone(),
                    layer: nodes[at].metadata.layer,
                },
            );
            let ghost before = taken@;
            taken.set(at, true);
            proof {
                assert(pos.take(q as int + 1) =~= pos.take(q as int).push(at as int));
                assert forall|i: int| 0 <= i < nodes@.len() implies (#[trigger] taken@[i]) == (old(
                    taken,
                )@[i] || pos.take(q as int + 1).contains(i)) by {
                    if i == at {
                        assert(pos.take(q as int + 1)[q as int] == i);
                    } else {
                        assert(taken@[i] == before[i]);
                        let cur = pos.take(q as int);
                        let nxt = pos.take(q as int + 1);
                        if cur.contains(i) {
                            let w = choose|w: int| 0 <= w < cur.len() && cur[w] == i;
                            assert(nxt[w] == i);
                        }
                        if nxt.contains(i) {
                            let w = choose|w: int| 0 <= w < nxt.len() && nxt[w] == i;
                            assert(cur[w] == i);
                        }
                    }
                }
            }
            q = q + 1;
        }
        proof {
            assert(pos.take(picked@.len() as int) == pos);
        }
        context
    }

    /// The hierarchical results for `query`: at most `top_k` relevant
    /// layer-0 nodes, selected under the strategy that fits the query, each
    /// with the nodes that summarize it within `max_hops` steps, lower
    /// layers first and within a layer the newest first. A node that stands
    /// in one hit's context stands in no later one.
    pub fn multi_hop_search(&self, query: &str, max_hops: u8, top_k: usize) -> (r: Result<
        Vec<MultiHopResult>,
        OrionError,
    >)
        ensures
            r is Ok <==> self.nodes() is Some,
            r matches Ok(found) ==> is_multi_hop_result(
                self.nodes()->0,
                query@,
                max_hops as nat,
                top_k as nat,
                found@,
            ),
            r matches Err(e) ==> e matches OrionError::Database(m) && m@
                == "Database not initialized"@,
    {
        let nodes = self.db_manager.get_db()?;
        let ghost nv = node_views(nodes@);
        let n = nodes.len();
        let lowered = to_lowercase(query);
        let strategy = classify(lowered.as_str());
        let c = candidates(nodes.as_slice(), query, true);
        let hits = select(Ranking::Strategy(strategy), c.as_slice(), top_k);
        let mut taken: Vec<bool> = Vec::new();
        let mut i: usize = 0;
        while i < n
            invariant
                i <= n,
                taken@.len() == i,
                forall|q: int| 0 <= q < i ==> !(#[trigger] taken@[q]),
            decreases n - i,
        {
            taken.push(false);
            i = i + 1;
        }
        let mut found: Vec<MultiHopResult> = Vec::new();
        let ghost mut contexts: Seq<Seq<int>> = Seq::empty();
        let mut p: usize = 0;
        while p < hits.len()
            invariant
                p <= hits@.len(),
                n == nodes@.len(),
                nv == node_views(nodes@),
                found@.len() == p,
                contexts.len() == p,
                taken@.len() == n,
                c@.len() == n,
                candidate_views(c@) == search_candidates(nv, query@, true),
                forall|q: int| 0 <= q < hits@.len() ==> (#[trigger] hits@[q]) < n,
                forall|i: int| 0 <= i < n ==> (#[trigger] taken@[i]) == taken_by(contexts, i),
                forall|w: int|
                    0 <= w < p ==> is_selection(
                        Ranking::Hierarchy,
                        context_candidates(nv, nv[hits@[w] as int].id, max_hops as nat, contexts.take(w)),
                        n as nat,
                        #[trigger] contexts[w],
                    ),
                forall|w: int|
                    0 <= w < p ==> hit_shows(nv, query@, hits@[w] as int, contexts[w], #[trigger] found@[w]),
            decreases hits.len() - p,
        {
            let h = hits[p];
            proof {
                assert(nv[h as int] == nodes@[h as int]@);
                assert(candidate_views(c@)[h as int] == c@[h as int]@);
            }
            let marks = reach_marks(nodes.as_slice(), nodes[h].id.as_str(), max_hops);
            let pool = Self::context_pool(nodes, &marks, &taken);
            proof {
                assert(candidate_views(pool@) =~= context_candidates(
                    nv,
                    nv[h as int].id,
                    max_hops as nat,
                    contexts,
                )) by {
                    assert forall|i: int| 0 <= i < n implies candidate_views(pool@)[i]
                        == context_candidates(nv, nv[h as int].id, max_hops as nat, contexts)[i] by {
                        assert(nv[i] == nodes@[i]@);
                    }
                }
            }
            let picked = select(Ranking::Hierarchy, pool.as_slice(), n);
            let ghost taken_before = taken@;
            let context = Self::take_context(nodes, &picked, &mut taken);
            found.push(
                MultiHopResult {
                    node_id: nodes[h].id.clone(),
                    content: nodes[h].content.clone(),
                    layer: nodes[h].metadata.layer,
                    context,
                    relevance_score: c[h].relevance as u64,
                },
            );
            proof {
                let pos = positions(picked@);
                let grown = contexts.push(pos);
                assert forall|w: int| 0 <= w < p + 1 implies is_selection(
                    Ranking::Hierarchy,
                    context_candidates(nv, nv[hits@[w] as int].id, max_hops as nat, grown.take(w)),
                    n as nat,
                    #[trigger] grown[w],
                ) by {
                    if w < p {
                        assert(grown.take(w) =~= contexts.take(w));
                        assert(grown[w] == contexts[w]);
                    } else {
                        assert(grown.take(w) =~= contexts);
                    }
                }
                assert forall|i: int| 0 <= i < n implies (#[trigger] taken@[i]) == taken_by(
                    grown,
                    i,
                ) by {
                    if taken_by(contexts, i) {
                        let (a, b) = choose|a: int, b: int|
                            0 <= a < contexts.len() && 0 <= b < contexts[a].len()
                                && #[trigger] contexts[a][b] == i;
                        assert(grown[a][b] == i);
                    }
                    if pos.contains(i) {
                        let b = choose|b: int| 0 <= b < pos.len() && pos[b] == i;
                        assert(grown[p as int][b] == i);
                    }
                    if taken_by(grown, i) {
                        let (a, b) = choose|a: int, b: int|
                            0 <= a < grown.len() && 0 <= b < grown[a].len()
                                && #[trigger] grown[a][b] == i;
                        if a < p {
                            assert(contexts[a][b] == i);
                        } else {
                            assert(pos[b] == i);
                        }
                    }
                }
                assert forall|w: int| 0 <= w < p + 1 implies hit_shows(
                    nv,
                    query@,
                    hits@[w] as int,
                    grown[w],
                    #[trigger] found@[w],
                ) by {
                    if w < p {
                        assert(grown[w] == contexts[w]);
                    }
                }
                contexts = grown;
            }
            p = p + 1;
        }
        proof {
            assert(is_multi_hop(
                nv,
                query@,
                max_hops as nat,
                top_k as nat,
                positions(hits@),
                contexts,
            )) by {
                assert forall|w: int| 0 <= w < positions(hits@).len() implies is_selection(
                    Ranking::Hierarchy,
                    context_candidates(
                        nv,
                        nv[positions(hits@)[w]].id,
                        max_hops as nat,
                        contexts.take(w),
                    ),
                    nv.len(),
                    #[trigger] contexts[w],
                ) by {
                    assert(positions(hits@)[w] == hits@[w] as int);
                }
            }
            assert(shows(nv, query@, found@, positions(hits@), contexts)) by {
                assert forall|w: int| 0 <= w < found@.len() implies hit_shows(
                    nv,
                    query@,
                    positions(hits@)[w],
                    contexts[w],
                    #[trigger] found@[w],
                ) by {
                    assert(positions(hits@)[w] == hits@[w] as int);
                }
            }
        }
        Ok(found)
    }

    /// The nodes on `layer`, in the order in which they were created.
    pub fn get_nodes_by_layer(&self, layer: u8) -> (r: Result<Vec<MedicalNode>, OrionError>)
        ensures
            r is Ok <==> self.nodes() is Some,
            r matches Ok(found) ==> node_views(found@) == on_layer(self.nodes()->0, layer),
            r matches Err(e) ==> e matches OrionError::Database(m) && m@
                == "Database not initialized"@,
    {
        let nodes = self.db_manager.get_db()?;
        let ghost table = node_views(nodes@);
        let mut found: Vec<MedicalNode> = Vec::new();
        let mut i: usize = 0;
        while i < nodes.len()
            invariant
                i <= nodes.len(),
                table == node_views(nodes@),
                node_views(found@) == on_layer(table.take(i as int), layer),
            decreases nodes.len() - i,
        {
            proof {
                assert(table.take(i as int + 1).drop_last() == table.take(i as int));
                assert(table.take(i as int + 1).last() == nodes@[i as int]@);
            }
            if nodes[i].metadata.layer == layer {
                let ghost before = found@;
                let copy = nodes[i].duplicate();
                found.push(copy);
                proof {
                    assert(node_views(found@) =~= node_views(before).push(copy@));
                }
            }
            i = i + 1;
        }
        proof {
            assert(table.take(nodes.len() as int) == table);
        }
        Ok(found)
    }
}

/// The identifiers of the nodes at `picked`.
pub open spec fn ids_at(nodes: Seq<NodeView>, picked: Seq<int>) -> Seq<Seq<char>> {
    picked.map_values(|i: int| nodes[i].id)
}

/// `ids` are the direct results of a search for `query` in `nodes`: the
/// identifiers of the selection of at most `limit` relevant nodes under
/// `strategy`.
pub open spec fn is_search_result(
    nodes: Seq<NodeView>,
    query: Seq<char>,
    limit: nat,
    strategy: SearchStrategy,
    ids: Seq<Seq<char>>,
) -> bool {
    exists|picked: Seq<int>| #[trigger]
        is_selection(
            Ranking::Strategy(strategy),
            search_candidates(nodes, query, false),
            limit,
            picked,
        ) && ids == ids_at(nodes, picked)
}

/// The candidate that stands for a node when a hit's context is put in
/// order.
pub open spec fn context_candidate(node: NodeView, eligible: bool) -> CandidateView {
    CandidateView {
        eligible,
        relevance: 0,
        created_at: node.metadata.created_at,
        layer: node.metadata.layer,
        record_type: node.metadata.record_type,
    }
}

/// The node at `i` stands in one of `contexts`.
pub open spec fn taken_by(contexts: Seq<Seq<int>>, i: int) -> bool {
    exists|p: int, q: int|
        0 <= p < contexts.len() && 0 <= q < contexts[p].len() && #[trigger] contexts[p][q] == i
}

/// The candidates for the context of the hit named `target`: a node is
/// eligible where it summarizes the hit within `hops` steps and stands in
/// none of the `earlier` contexts.
pub open spec fn context_candidates(
    nodes: Seq<NodeView>,
    target: Seq<char>,
    hops: nat,
    earlier: Seq<Seq<int>>,
) -> Seq<CandidateView> {
    Seq::new(
        nodes.len(),
        |i: int| context_candidate(nodes[i], reaches(nodes, i, target, hops) && !taken_by(earlier, i)),
    )
}

/// `hits` and `contexts` are the positions of a multi-hop search: the hits
/// are the selection of at most `top_k` relevant layer-0 nodes under the
/// query's strategy, and each hit's context is the selection, in the order
/// of the hierarchy, of all the nodes that summarize it within `max_hops`
/// steps and stand in no earlier context.
pub open spec fn is_multi_hop(
    nodes: Seq<NodeView>,
    query: Seq<char>,
    max_hops: nat,
    top_k: nat,
    hits: Seq<int>,
    contexts: Seq<Seq<int>>,
) -> bool {
    &&& is_selection(
        Ranking::Strategy(strategy_for(lowercase_of(query))),
        search_candidates(nodes, query, true),
        top_k,
        hits,
    )
    &&& contexts.len() == hits.len()
    &&& forall|p: int|
        0 <= p < hits.len() ==> is_selection(
            Ranking::Hierarchy,
            context_candidates(nodes, nodes[hits[p]].id, max_hops, contexts.take(p)),
            nodes.len(),
            #[trigger] contexts[p],
        )
}

/// `entry` shows `node`.
pub open spec fn context_entry_shows(node: NodeView, entry: ContextNode) -> bool {
    entry.node_id@ == node.id && entry.content@ == node.content && entry.layer
        == node.metadata.layer
}

/// `context` shows the nodes at `picked`, in their order.
pub open spec fn context_shows(nodes: Seq<NodeView>, context: Seq<ContextNode>, picked: Seq<int>) -> bool {
    context.len() == picked.len() && forall|q: int|
        0 <= q < context.len() ==> context_entry_shows(nodes[picked[q]], #[trigger] context[q])
}

/// `result` shows the hit at `hit` with the context at `context`.
pub open spec fn hit_shows(
    nodes: Seq<NodeView>,
    query: Seq<char>,
    hit: int,
    context: Seq<int>,
    result: MultiHopResult,
) -> bool {
    &&& result.node_id@ == nodes[hit].id
    &&& result.content@ == nodes[hit].content
    &&& result.layer == nodes[hit].metadata.layer
    &&& result.relevance_score == relevance_of(query, nodes[hit].content) as usize as u64
    &&& context_shows(nodes, result.context@, context)
}

/// `results` show the hits at `hits` with the contexts at `contexts`.
pub open spec fn shows(
    nodes: Seq<NodeView>,
    query: Seq<char>,
    results: Seq<MultiHopResult>,
    hits: Seq<int>,
    contexts: Seq<Seq<int>>,
) -> bool {
    results.len() == hits.len() && forall|p: int|
        0 <= p < results.len() ==> hit_shows(nodes, query, hits[p], contexts[p], #[trigger] results[p])
}

/// `results` are the hierarchical results of a search for `query` in
/// `nodes`.
pub open spec fn is_multi_hop_result(
    nodes: Seq<NodeView>,
    query: Seq<char>,
    max_hops: nat,
    top_k: nat,
    results: Seq<MultiHopResult>,
) -> bool {
    exists|hits: Seq<int>, contexts: Seq<Seq<int>>| #[trigger]
        is_multi_hop(nodes, query, max_hops, top_k, hits, contexts) && shows(
            nodes,
            query,
            results,
            hits,
            contexts,
        )
}

/// In the results of a multi-hop search over a table that obeys the
/// hierarchy rules no node stands twice: the hits differ from one another,
/// no context node is a hit, and no context node stands in two places.
pub proof fn multi_hop_shows_each_node_once(
    nodes: Seq<NodeView>,
    query: Seq<char>,
    max_hops: nat,
    top_k: nat,
    hits: Seq<int>,
    contexts: Seq<Seq<int>>,
)
    requires
        hierarchy_ok(nodes),
        is_multi_hop(nodes, query, max_hops, top_k, hits, contexts),
    ensures
        forall|p: int, r: int|
            0 <= p < hits.len() && 0 <= r < hits.len() && p != r ==> nodes[#[trigger] hits[p]].id
                != nodes[#[trigger] hits[r]].id,
        forall|p: int, q: int, r: int|
            0 <= p < contexts.len() && 0 <= q < contexts[p].len() && 0 <= r < hits.len()
                ==> nodes[#[trigger] contexts[p][q]].id != nodes[#[trigger] hits[r]].id,
        forall|p: int, q: int, r: int, s: int|
            0 <= p < contexts.len() && 0 <= q < contexts[p].len() && 0 <= r < contexts.len() && 0
                <= s < contexts[r].len() && (p != r || q != s) ==> nodes[#[trigger] contexts[p][q]].id
                != nodes[#[trigger] contexts[r][s]].id,
{
    let strategy = Ranking::Strategy(strategy_for(lowercase_of(query)));
    let pool = search_candidates(nodes, query, true);
    crate::retrieval::selection_is_duplicate_free(strategy, pool, top_k, hits);
    assert forall|p: int, q: int| 0 <= p < contexts.len() && 0 <= q < contexts[p].len() implies {
        let i = #[trigger] contexts[p][q];
        &&& 0 <= i < nodes.len()
        &&& nodes[i].metadata.layer != 0
        &&& !taken_by(contexts.take(p), i)
    } by {
        let i = contexts[p][q];
        let target = nodes[hits[p]].id;
        let cc = context_candidates(nodes, target, max_hops, contexts.take(p));
        crate::retrieval::selection_is_duplicate_free(Ranking::Hierarchy, cc, nodes.len(), contexts[p]);
        assert(cc[i].eligible);
        assert(reaches(nodes, i, target, max_hops));
        if nodes[i].metadata.layer == 0 {
            crate::database::base_nodes_have_no_sources(nodes, i);
        }
    }
    assert forall|r: int| 0 <= r < hits.len() implies 0 <= #[trigger] hits[r] < nodes.len()
        && nodes[hits[r]].metadata.layer == 0 by {
        assert(pool[hits[r]].eligible);
    }
    assert forall|p: int, q: int, r: int, s: int|
        0 <= p < contexts.len() && 0 <= q < contexts[p].len() && 0 <= r < contexts.len() && 0 <= s
            < contexts[r].len() && (p != r || q != s) implies #[trigger] contexts[p][q]
        != #[trigger] contexts[r][s] by {
        if p == r {
            let target = nodes[hits[p]].id;
            let cc = context_candidates(nodes, target, max_hops, contexts.take(p));
            crate::retrieval::selection_is_duplicate_free(
                Ranking::Hierarchy,
                cc,
                nodes.len(),
                contexts[p],
            );
        } else if p < r {
            if contexts[p][q] == contexts[r][s] {
                assert(contexts.take(r)[p][q] == contexts[r][s]);
                assert(taken_by(contexts.take(r), contexts[r][s]));
            }
        } else {
            if contexts[p][q] == contexts[r][s] {
                assert(contexts.take(p)[r][s] == contexts[p][q]);
                assert(taken_by(contexts.take(p), contexts[p][q]));
            }
        }
    }
    assert forall|a: int, b: int| 0 <= a < nodes.len() && 0 <= b < nodes.len() && a != b implies (
    #[trigger] nodes[a]).id != (#[trigger] nodes[b]).id by {
        if a < b {
        } else {
            assert(nodes[b].id != nodes[a].id);
        }
    }
}

/// A hit's context is in the order of the hierarchy: a node of a lower
/// layer stands before one of a higher layer, and within a layer a newer
/// node stands before an older one.
pub proof fn context_is_ordered(
    nodes: Seq<NodeView>,
    query: Seq<char>,
    max_hops: nat,
    top_k: nat,
    hits: Seq<int>,
    contexts: Seq<Seq<int>>,
    p: int,
    q: int,
    s: int,
)
    requires
        is_multi_hop(nodes, query, max_hops, top_k, hits, contexts),
        0 <= p < contexts.len(),
        0 <= q < s < contexts[p].len(),
    ensures
        nodes[contexts[p][q]].metadata.layer <= nodes[contexts[p][s]].metadata.layer,
        nodes[contexts[p][q]].metadata.layer == nodes[contexts[p][s]].metadata.layer
            ==> nodes[contexts[p][q]].metadata.created_at
            >= nodes[contexts[p][s]].metadata.created_at,
{
    let target = nodes[hits[p]].id;
    let cc = context_candidates(nodes, target, max_hops, contexts.take(p));
    let picked = contexts[p];
    crate::retrieval::selection_is_duplicate_free(Ranking::Hierarchy, cc, nodes.len(), picked);
    assert(crate::retrieval::is_best(Ranking::Hierarchy, cc, picked.take(q), picked[q]));
    if picked.take(q).contains(picked[s]) {
        let w = choose|w: int| 0 <= w < picked.take(q).len() && picked.take(q)[w] == picked[s];
        assert(picked[w] == picked[s]);
    }
    assert(crate::retrieval::free(cc, picked.take(q), picked[s]));
}

/// An embedding as plain values.
pub open spec fn bits_of(embedding: Option<Vec<u32>>) -> Option<Seq<u32>> {
    match embedding {
        Some(e) => Some(e@),
        None => None,
    }
}

/// What creating a node with `content`, `meta` and `embedding` comes to,
/// for a store that held `before` and holds `after`. It succeeds only on
/// an initialized store whose nodes accept the metadata; the new node then
/// stands at the end under an identifier that no other node has. It fails
/// without a change: before initialization, on metadata that the nodes
/// refuse, and otherwise only where the identifier was taken.
pub open spec fn creation_outcome(
    before: Option<Seq<NodeView>>,
    content: Seq<char>,
    meta: MetadataView,
    embedding: Option<Seq<u32>>,
    r: Result<String, OrionError>,
    after: Option<Seq<NodeView>>,
) -> bool {
    match r {
        Ok(id) => {
            &&& before is Some
            &&& metadata_ok(before->0, meta)
            &&& !holds_id(before->0, id@)
            &&& after == Some(before->0.push(NodeView { id: id@, content, metadata: meta, embedding }))
        },
        Err(e) => {
            &&& after == before
            &&& match before {
                None => e matches OrionError::Database(m) && m@ == "Database not initialized"@,
                Some(nodes) => if !metadata_ok(nodes, meta) {
                    e matches OrionError::InvalidInput(m) && m@ == invalid_reason(meta)
                } else {
                    e matches OrionError::Database(m) && m@ == "Database record already exists"@
                },
            }
        },
    }
}

/// Why a node's metadata is refused.
pub open spec fn invalid_reason(meta: MetadataView) -> Seq<char> {
    if meta.layer > 0 && meta.sources().len() == 0 {
        "summary_of must not be empty above layer 0"@
    } else {
        "summary_of must reference existing nodes of a lower layer and the same patient"@
    }
}

} // verus!
