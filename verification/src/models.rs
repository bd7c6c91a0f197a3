//! The data model: nodes, search results and reports.

use vstd::prelude::*;

verus! {

/// What is recorded about a node beside its content. Instants are
/// milliseconds since the Unix epoch, UTC.
#[derive(Debug, Clone)]
pub struct NodeMetadata {
    pub created_at: i64,
    pub record_type: String,
    pub patient_id: String,
    pub layer: u8,
    pub summary_of: Option<Vec<String>>,
}

/// A node's metadata as plain values.
pub ghost struct MetadataView {
    pub created_at: i64,
    pub record_type: Seq<char>,
    pub patient_id: Seq<char>,
    pub layer: u8,
    pub summary_of: Option<Seq<Seq<char>>>,
}

impl MetadataView {
    /// The identifiers that the node summarizes, none where the field is
    /// absent.
    pub open spec fn sources(&self) -> Seq<Seq<char>> {
        match self.summary_of {
            Some(ids) => ids,
            None => Seq::empty(),
        }
    }
}

impl View for NodeMetadata {
    type V = MetadataView;

    open spec fn view(&self) -> MetadataView {
        MetadataView {
            created_at: self.created_at,
            record_type: self.record_type@,
            patient_id: self.patient_id@,
            layer: self.layer,
            summary_of: match self.summary_of {
                Some(ids) => Some(crate::text::texts(ids@)),
                None => None,
            },
        }
    }
}

/// How search results are ranked.
#[derive(Debug, Clone, Copy, PartialEq, Eq, Structural)]
pub enum SearchStrategy {
    /// Keyword matching for specific medical terms.
    BM25,
    /// Newest records first.
    Recency,
    /// As much variety as possible.
    Diversity,
    /// Maximal marginal relevance: relevance balanced against redundancy.
    MMR,
}

impl SearchStrategy {
    /// The explanation shown to the user for each strategy.
    pub open spec fn explanation(&self) -> Seq<char> {
        match self {
            SearchStrategy::BM25 =>
                "Usando BM25: Tu consulta contiene términos médicos específicos. Esta estrategia prioriza coincidencias exactas de palabras clave."@,
            SearchStrategy::Recency =>
                "Usando Recency: Tu consulta busca información reciente. Esta estrategia prioriza los registros más nuevos."@,
            SearchStrategy::Diversity =>
                "Usando Diversity: Tu consulta es exploratoria. Esta estrategia maximiza la variedad de resultados."@,
            SearchStrategy::MMR =>
                "Usando MMR (Maximal Marginal Relevance): Esta estrategia balancea relevancia y diversidad para resultados óptimos."@,
        }
    }

    /// The name under which a strategy is listed.
    pub open spec fn label(&self) -> Seq<char> {
        match self {
            SearchStrategy::BM25 => "bm25"@,
            SearchStrategy::Recency => "recency"@,
            SearchStrategy::Diversity => "diversity"@,
            SearchStrategy::MMR => "mmr"@,
        }
    }

    /// Why this strategy was chosen, in words for the user.
    pub fn explain(&self) -> (r: &'static str)
        ensures
            r@ == self.explanation(),
    {
        match self {
            SearchStrategy::BM25 =>
                "Usando BM25: Tu consulta contiene términos médicos específicos. Esta estrategia prioriza coincidencias exactas de palabras clave.",
            SearchStrategy::Recency =>
                "Usando Recency: Tu consulta busca información reciente. Esta estrategia prioriza los registros más nuevos.",
            SearchStrategy::Diversity =>
                "Usando Diversity: Tu consulta es exploratoria. Esta estrategia maximiza la variedad de resultados.",
            SearchStrategy::MMR =>
                "Usando MMR (Maximal Marginal Relevance): Esta estrategia balancea relevancia y diversidad para resultados óptimos.",
        }
    }

    /// The strategy's name in lower case.
    pub fn name(&self) -> (r: &'static str)
        ensures
            r@ == self.label(),
    {
        match self {
            SearchStrategy::BM25 => "bm25",
            SearchStrategy::Recency => "recency",
            SearchStrategy::Diversity => "diversity",
            SearchStrategy::MMR => "mmr",
        }
    }
}

/// The four labels differ from one another.
pub proof fn labels_are_distinct(a: SearchStrategy, b: SearchStrategy)
    requires
        a != b,
    ensures
        a.label() != b.label(),
{
    reveal_strlit("bm25");
    reveal_strlit("recency");
    reveal_strlit("diversity");
    reveal_strlit("mmr");
    assert(a.label().len() != b.label().len() || a.label()[0] != b.label()[0]);
}

/// A node reached from a hit by walking the hierarchy.
#[derive(Debug, Clone)]
pub struct ContextNode {
    pub node_id: String,
    pub content: String,
    pub layer: u8,
}

/// A retrieval hit with the nodes reached from it. The score is an
/// integer: a larger one is a better match.
#[derive(Debug, Clone)]
pub struct MultiHopResult {
    pub node_id: String,
    pub content: String,
    pub layer: u8,
    pub context: Vec<ContextNode>,
    pub relevance_score: u64,
}

/// The direct and the hierarchical results of one query.
#[derive(Debug, Clone)]
pub struct SmartSearchResult {
    pub query: String,
    pub strategy: SearchStrategy,
    pub direct_results: Vec<String>,
    pub hierarchical_results: Vec<MultiHopResult>,
    pub search_time: i64,
}

impl SmartSearchResult {
    /// Some hit carries at least one context node.
    pub open spec fn some_context(&self) -> bool {
        exists|i: int|
            0 <= i < self.hierarchical_results@.len()
                && (#[trigger] self.hierarchical_results@[i]).context@.len() > 0
    }

    /// The number of direct and hierarchical results together.
    pub fn total_results(&self) -> (r: usize)
        requires
            self.direct_results@.len() + self.hierarchical_results@.len() <= usize::MAX,
        ensures
            r == self.direct_results@.len() + self.hierarchical_results@.len(),
    {
        self.direct_results.len() + self.hierarchical_results.len()
    }

    /// Whether any hit carries hierarchical context.
    pub fn has_hierarchical_context(&self) -> (r: bool)
        ensures
            r == self.some_context(),
    {
        let mut i: usize = 0;
        while i < self.hierarchical_results.len()
            invariant
                i <= self.hierarchical_results@.len(),
                forall|j: int| 0 <= j < i ==> (#[trigger] self.hierarchical_results@[j]).context@.len() == 0,
            decreases self.hierarchical_results.len() - i,
        {
            if self.hierarchical_results[i].context.len() > 0 {
                return true;
            }
            i = i + 1;
        }
        false
    }
}

/// The period that a summary covers.
#[derive(Debug, Clone, Copy, PartialEq, Eq, Structural)]
pub enum SummaryType {
    Weekly,
    Monthly,
    Quarterly,
}

impl SummaryType {
    /// The word for the period.
    pub open spec fn word(&self) -> Seq<char> {
        match self {
            SummaryType::Weekly => "semanal"@,
            SummaryType::Monthly => "mensual"@,
            SummaryType::Quarterly => "trimestral"@,
        }
    }

    /// The word for the period, as a string slice.
    pub fn as_str(&self) -> (r: &'static str)
        ensures
            r@ == self.word(),
    {
        match self {
            SummaryType::Weekly => "semanal",
            SummaryType::Monthly => "mensual",
            SummaryType::Quarterly => "trimestral",
        }
    }

    /// The word for the period, as an owned string.
    pub fn to_string(&self) -> (r: String)
        ensures
            r@ == self.word(),
    {
        String::from_str(self.as_str())
    }
}

/// What the summary pipeline reports for one period.
#[derive(Debug, Clone)]
pub struct HealthSummaryReport {
    pub period: String,
    pub total_records: usize,
    pub summary_node_id: Option<String>,
    pub key_insights: Vec<String>,
    pub recommendations: Vec<String>,
    pub used_llm: bool,
}

/// One node of the memory. An embedding is held as the bit patterns of its
/// single-precision components; the library stores it and never reads it.
#[derive(Debug, Clone)]
pub struct MedicalNode {
    pub id: String,
    pub content: String,
    pub metadata: NodeMetadata,
    pub embedding: Option<Vec<u32>>,
}

/// A node as plain values.
pub ghost struct NodeView {
    pub id: Seq<char>,
    pub content: Seq<char>,
    pub metadata: MetadataView,
    pub embedding: Option<Seq<u32>>,
}

impl View for MedicalNode {
    type V = NodeView;

    open spec fn view(&self) -> NodeView {
        NodeView {
            id: self.id@,
            content: self.content@,
            metadata: self.metadata@,
            embedding: match self.embedding {
                Some(e) => Some(e@),
                None => None,
            },
        }
    }
}

/// The nodes of a list as plain values.
pub open spec fn node_views(nodes: Seq<MedicalNode>) -> Seq<NodeView> {
    nodes.map_values(|n: MedicalNode| n@)
}

impl NodeMetadata {
    /// A copy of the metadata.
    pub fn duplicate(&self) -> (r: NodeMetadata)
        ensures
            r@ == self@,
    {
        NodeMetadata {
            created_at: self.created_at,
            record_type: self.record_type.clone(),
            patient_id: self.patient_id.clone(),
            layer: self.layer,
            summary_of: match &self.summary_of {
                Some(ids) => Some(crate::text::copy_all(ids.as_slice())),
                None => None,
            },
        }
    }
}

impl MedicalNode {
    /// A copy of the node.
    pub fn duplicate(&self) -> (r: MedicalNode)
        ensures
            r@ == self@,
    {
        MedicalNode {
            id: self.id.clone(),
            content: self.content.clone(),
            metadata: self.metadata.duplicate(),
            embedding: match &self.embedding {
                Some(e) => Some(copy_bits(e)),
                None => None,
            },
        }
    }
}

/// A copy of an embedding.
fn copy_bits(bits: &Vec<u32>) -> (r: Vec<u32>)
    ensures
        r@ == bits@,
{
    let mut out: Vec<u32> = Vec::new();
    let mut i: usize = 0;
    while i < bits.len()
        invariant
            i <= bits.len(),
            out@ == bits@.take(i as int),
        decreases bits.len() - i,
    {
        out.push(bits[i]);
        proof {
            assert(out@ =~= bits@.take(i as int + 1));
        }
        i = i + 1;
    }
    proof {
        assert(bits@.take(bits.len() as int) == bits@);
    }
    out
}

} // verus!
