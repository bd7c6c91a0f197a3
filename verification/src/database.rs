//! The node store: an in-memory table of nodes that exists once it has
//! been initialized.

use vstd::prelude::*;
use crate::error::OrionError;
use crate::models::{node_views, MedicalNode, MetadataView, NodeView};

verus! {

/// Some node of `nodes` has the identifier `id`.
pub open spec fn holds_id(nodes: Seq<NodeView>, id: Seq<char>) -> bool {
    exists|j: int| 0 <= j < nodes.len() && (#[trigger] nodes[j]).id == id
}

/// `id` names a node of `nodes` that lies on a lower layer than `meta` and
/// belongs to the same patient.
pub open spec fn reference_ok(nodes: Seq<NodeView>, meta: MetadataView, id: Seq<char>) -> bool {
    exists|j: int|
        0 <= j < nodes.len() && (#[trigger] nodes[j]).id == id && nodes[j].metadata.layer
            < meta.layer && nodes[j].metadata.patient_id == meta.patient_id
}

/// A node with the metadata `meta` may join `nodes`: above layer 0 it
/// summarizes something, and whatever it summarizes is a node of `nodes`
/// on a lower layer and of the same patient.
pub open spec fn metadata_ok(nodes: Seq<NodeView>, meta: MetadataView) -> bool {
    &&& meta.layer > 0 ==> meta.sources().len() > 0
    &&& forall|k: int|
        0 <= k < meta.sources().len() ==> reference_ok(nodes, meta, #[trigger] meta.sources()[k])
}

/// The hierarchy rules for a table: no identifier occurs twice, and each
/// node was acceptable to the nodes that stood before it.
pub open spec fn hierarchy_ok(nodes: Seq<NodeView>) -> bool {
    &&& forall|i: int, j: int|
        0 <= i < j < nodes.len() ==> (#[trigger] nodes[i]).id != (#[trigger] nodes[j]).id
    &&& forall|i: int|
        0 <= i < nodes.len() ==> metadata_ok(nodes.take(i), (#[trigger] nodes[i]).metadata)
}

/// The store. Before `init` it holds no table.
#[derive(Debug)]
pub struct DatabaseManager {
    db: Option<Vec<MedicalNode>>,
}

impl DatabaseManager {
    /// The table's nodes in the order in which they were created, `None`
    /// before initialization.
    pub closed spec fn table(&self) -> Option<Seq<NodeView>> {
        match self.db {
            Some(nodes) => Some(node_views(nodes@)),
            None => None,
        }
    }

    /// The table obeys the hierarchy rules.
    pub open spec fn wf(&self) -> bool {
        self.table() matches Some(nodes) ==> hierarchy_ok(nodes)
    }

    /// A store without a table.
    pub fn new() -> (r: Self)
        ensures
            r.table() is None,
            r.wf(),
    {
        DatabaseManager { db: None }
    }

    /// Opens a fresh, empty table.
    pub fn init(&mut self) -> (r: Result<(), OrionError>)
        ensures
            r is Ok,
            final(self).table() == Some(Seq::<NodeView>::empty()),
            final(self).wf(),
    {
        self.db = Some(Vec::new());
        proof {
            assert(node_views(Seq::<MedicalNode>::empty()) =~= Seq::<NodeView>::empty());
        }
        Ok(())
    }

    /// The table, or an error before initialization.
    pub fn get_db(&self) -> (r: Result<&Vec<MedicalNode>, OrionError>)
        ensures
            r is Ok <==> self.table() is Some,
            r matches Ok(nodes) ==> Some(node_views(nodes@)) == self.table(),
            r matches Err(e) ==> e matches OrionError::Database(m) && m@
                == "Database not initialized"@,
    {
        match &self.db {
            Some(nodes) => Ok(nodes),
            None => Err(OrionError::Database(String::from_str("Database not initialized"))),
        }
    }

    /// Whether the table exists.
    pub fn is_initialized(&self) -> (r: bool)
        ensures
            r == self.table() is Some,
    {
        self.db.is_some()
    }

    /// Appends a node that the hierarchy rules accept.
    pub(crate) fn insert(&mut self, node: MedicalNode)
        requires
            old(self).wf(),
            old(self).table() matches Some(nodes) && !holds_id(nodes, node@.id) && metadata_ok(
                nodes,
                node@.metadata,
            ),
        ensures
            final(self).wf(),
            final(self).table() == Some(old(self).table()->0.push(node@)),
    {
        let ghost before = self.table()->0;
        let mut nodes = match self.db.take() {
            Some(nodes) => nodes,
            None => Vec::new(),
        };
        nodes.push(node);
        proof {
            let after = node_views(nodes@);
            assert(after =~= before.push(node@));
            assert forall|i: int| 0 <= i < after.len() implies metadata_ok(
                after.take(i),
                (#[trigger] after[i]).metadata,
            ) by {
                if i < before.len() {
                    assert(after.take(i) =~= before.take(i));
                } else {
                    assert(after.take(i) =~= before);
                }
            }
            assert forall|i: int, j: int| 0 <= i < j < after.len() implies (#[trigger] after[i]).id
                != (#[trigger] after[j]).id by {
                if j == before.len() {
                    assert(before[i].id == after[i].id);
                }
            }
        }
        self.db = Some(nodes);
    }
}

impl Default for DatabaseManager {
    fn default() -> (r: Self)
        ensures
            r.table() is None,
            r.wf(),
    {
        DatabaseManager::new()
    }
}

/// In a table that obeys the hierarchy rules, every node above layer 0
/// summarizes at least one node, and every identifier that a node
/// summarizes names a node of the table on a strictly lower layer and of
/// the same patient.
pub proof fn summaries_point_down(nodes: Seq<NodeView>, i: int, k: int)
    requires
        hierarchy_ok(nodes),
        0 <= i < nodes.len(),
    ensures
        nodes[i].metadata.layer >= 1 ==> nodes[i].metadata.sources().len() > 0,
        0 <= k < nodes[i].metadata.sources().len() ==> reference_ok(
            nodes,
            nodes[i].metadata,
            nodes[i].metadata.sources()[k],
        ),
{
    assert(metadata_ok(nodes.take(i), nodes[i].metadata));
    if 0 <= k < nodes[i].metadata.sources().len() {
        let id = nodes[i].metadata.sources()[k];
        assert(reference_ok(nodes.take(i), nodes[i].metadata, id));
        let j = choose|j: int|
            0 <= j < nodes.take(i).len() && (#[trigger] nodes.take(i)[j]).id == id && nodes.take(
                i,
            )[j].metadata.layer < nodes[i].metadata.layer && nodes.take(i)[j].metadata.patient_id
                == nodes[i].metadata.patient_id;
        assert(nodes.take(i)[j] == nodes[j]);
    }
}

/// A node on layer 0 summarizes nothing.
pub proof fn base_nodes_have_no_sources(nodes: Seq<NodeView>, i: int)
    requires
        hierarchy_ok(nodes),
        0 <= i < nodes.len(),
        nodes[i].metadata.layer == 0,
    ensures
        nodes[i].metadata.sources().len() == 0,
{
    assert(metadata_ok(nodes.take(i), nodes[i].metadata));
    if nodes[i].metadata.sources().len() > 0 {
        assert(reference_ok(nodes.take(i), nodes[i].metadata, nodes[i].metadata.sources()[0]));
    }
}

} // verus!
