//! Query classification and the search that is built on it.

use vstd::prelude::*;
use crate::clock::now_millis;
use crate::error::OrionError;
use crate::models::{labels_are_distinct, SearchStrategy, SmartSearchResult};
use crate::text::{contains, is_substring, lowercase_of, slices, texts, to_lowercase};
use crate::vector_store::{is_multi_hop_result, is_search_result, VectorStoreService};

verus! {

/// The medical vocabulary.
pub open spec fn medical_terms() -> Seq<Seq<char>> {
    seq![
        "diagnóstico"@,
        "síntoma"@,
        "medicamento"@,
        "tratamiento"@,
        "prescripción"@,
        "dosis"@,
        "análisis"@,
        "resultado"@,
        "diabetes"@,
        "hipertensión"@,
        "alergia"@,
        "dolor"@,
    ]
}

/// The vocabulary of time and recency.
pub open spec fn temporal_keywords() -> Seq<Seq<char>> {
    seq![
        "reciente"@,
        "último"@,
        "actual"@,
        "hoy"@,
        "ayer"@,
        "esta semana"@,
        "este mes"@,
        "nuevo"@,
    ]
}

/// The vocabulary of exploration and breadth.
pub open spec fn exploratory_keywords() -> Seq<Seq<char>> {
    seq![
        "todos"@,
        "diferentes"@,
        "variedad"@,
        "tipos"@,
        "opciones"@,
        "alternativas"@,
        "qué más"@,
    ]
}

/// Some word of `words` is a part of `text`.
pub open spec fn mentions_any(text: Seq<char>, words: Seq<Seq<char>>) -> bool {
    exists|i: int| 0 <= i < words.len() && is_substring(#[trigger] words[i], text)
}

/// The strategy for a query that has been put in lower case: the medical
/// vocabulary decides first, then the temporal, then the exploratory.
pub open spec fn strategy_for(lowered: Seq<char>) -> SearchStrategy {
    if mentions_any(lowered, medical_terms()) {
        SearchStrategy::BM25
    } else if mentions_any(lowered, temporal_keywords()) {
        SearchStrategy::Recency
    } else if mentions_any(lowered, exploratory_keywords()) {
        SearchStrategy::Diversity
    } else {
        SearchStrategy::MMR
    }
}

/// A medical term decides for BM25 whatever else the query holds.
pub proof fn medical_terms_come_first(lowered: Seq<char>)
    requires
        mentions_any(lowered, medical_terms()),
    ensures
        strategy_for(lowered) == SearchStrategy::BM25,
{
}

/// Without a medical term, a temporal word decides for recency whether or
/// not the query is exploratory too.
pub proof fn temporal_words_come_second(lowered: Seq<char>)
    requires
        !mentions_any(lowered, medical_terms()),
        mentions_any(lowered, temporal_keywords()),
    ensures
        strategy_for(lowered) == SearchStrategy::Recency,
{
}

/// Without a medical term and a temporal word, an exploratory word decides
/// for diversity.
pub proof fn exploratory_words_come_third(lowered: Seq<char>)
    requires
        !mentions_any(lowered, medical_terms()),
        !mentions_any(lowered, temporal_keywords()),
        mentions_any(lowered, exploratory_keywords()),
    ensures
        strategy_for(lowered) == SearchStrategy::Diversity,
{
}

/// A query that holds no word of the three vocabularies gets MMR.
pub proof fn no_vocabulary_means_mmr(lowered: Seq<char>)
    requires
        !mentions_any(lowered, medical_terms()),
        !mentions_any(lowered, temporal_keywords()),
        !mentions_any(lowered, exploratory_keywords()),
    ensures
        strategy_for(lowered) == SearchStrategy::MMR,
{
}

/// Whether some word of `words` is a part of `text`.
fn mentions(text: &str, words: &Vec<&'static str>) -> (r: bool)
    ensures
        r == mentions_any(text@, slices(words@)),
{
    let mut i: usize = 0;
    while i < words.len()
        invariant
            i <= words.len(),
            forall|j: int| 0 <= j < i ==> !is_substring(#[trigger] slices(words@)[j], text@),
        decreases words.len() - i,
    {
        if contains(text, words[i]) {
            proof {
                assert(slices(words@)[i as int] == words@[i as int]@);
            }
            return true;
        }
        proof {
            assert(slices(words@)[i as int] == words@[i as int]@);
        }
        i = i + 1;
    }
    false
}

/// The strategy for a query that is in lower case already.
pub fn classify(lowered: &str) -> (r: SearchStrategy)
    ensures
        r == strategy_for(lowered@),
{
    let medical: Vec<&'static str> = vec![
        "diagnóstico",
        "síntoma",
        "medicamento",
        "tratamiento",
        "prescripción",
        "dosis",
        "análisis",
        "resultado",
        "diabetes",
        "hipertensión",
        "alergia",
        "dolor",
    ];
    proof {
        assert(slices(medical@) =~= medical_terms());
    }
    if mentions(lowered, &medical) {
        return SearchStrategy::BM25;
    }
    let temporal: Vec<&'static str> = vec![
        "reciente",
        "último",
        "actual",
        "hoy",
        "ayer",
        "esta semana",
        "este mes",
        "nuevo",
    ];
    proof {
        assert(slices(temporal@) =~= temporal_keywords());
    }
    if mentions(lowered, &temporal) {
        return SearchStrategy::Recency;
    }
    let exploratory: Vec<&'static str> = vec![
        "todos",
        "diferentes",
        "variedad",
        "tipos",
        "opciones",
        "alternativas",
        "qué más",
    ];
    proof {
        assert(slices(exploratory@) =~= exploratory_keywords());
    }
    if mentions(lowered, &exploratory) {
        return SearchStrategy::Diversity;
    }
    SearchStrategy::MMR
}

/// The strategies in the order in which a comparison lists them.
pub open spec fn comparison_order() -> Seq<SearchStrategy> {
    seq![
        SearchStrategy::BM25,
        SearchStrategy::MMR,
        SearchStrategy::Diversity,
        SearchStrategy::Recency,
    ]
}

/// What a comparison lists for one strategy's outcome: the results, or one
/// line that reports the failure.
pub open spec fn entry_lines(outcome: Result<Vec<String>, OrionError>) -> Seq<Seq<char>> {
    match outcome {
        Ok(found) => texts(found@),
        Err(e) => seq!["Error: "@ + e.message()],
    }
}

/// What a comparison lists for a search under `strategy`: the direct
/// results, or the failure's line before the store is initialized.
pub open spec fn comparison_lines(
    engine: VectorStoreService,
    query: Seq<char>,
    limit: nat,
    strategy: SearchStrategy,
    lines: Seq<Seq<char>>,
) -> bool {
    match engine.nodes() {
        Some(nodes) => is_search_result(nodes, query, limit, strategy, lines),
        None => lines == seq!["Error: "@ + ("Database error: "@ + "Database not initialized"@)],
    }
}

/// Search with a strategy that is chosen from the query.
#[derive(Debug)]
pub struct SmartSearch {
    vector_store: VectorStoreService,
}

impl SmartSearch {
    /// The engine that is searched.
    pub closed spec fn engine(&self) -> VectorStoreService {
        self.vector_store
    }

    /// A search over `vector_store`.
    pub fn new(vector_store: VectorStoreService) -> (r: Self)
        ensures
            r.engine() == vector_store,
    {
        SmartSearch { vector_store }
    }

    /// The strategy that fits `query`: the query is put in lower case and
    /// classified by the three vocabularies in their fixed order.
    pub fn determine_optimal_strategy(query: &str) -> (r: SearchStrategy)
        ensures
            r == strategy_for(lowercase_of(query@)),
    {
        let lower_query = to_lowercase(query);
        classify(lower_query.as_str())
    }

    /// The comparison's entry for one strategy: its name and either its
    /// results or one line that reports its failure.
    pub fn comparison_entry(strategy: SearchStrategy, outcome: Result<Vec<String>, OrionError>) -> (r:
        (String, Vec<String>))
        ensures
            r.0@ == strategy.label(),
            texts(r.1@) == entry_lines(outcome),
    {
        let name = String::from_str(strategy.name());
        match outcome {
            Ok(found) => (name, found),
            Err(e) => {
                let mut line = String::from_str("Error: ");
                let message = e.to_string();
                line.append(message.as_str());
                let mut lines: Vec<String> = Vec::new();
                lines.push(line);
                proof {
                    assert(texts(lines@) =~= seq!["Error: "@ + e.message()]);
                }
                (name, lines)
            },
        }
    }

    /// Puts the outcomes of the four strategies side by side, in the
    /// comparison's order. A failure becomes a line of its entry and
    /// never ends the comparison.
    pub fn collect_comparison(
        bm25: Result<Vec<String>, OrionError>,
        mmr: Result<Vec<String>, OrionError>,
        diversity: Result<Vec<String>, OrionError>,
        recency: Result<Vec<String>, OrionError>,
    ) -> (r: Vec<(String, Vec<String>)>)
        ensures
            r@.len() == 4,
            forall|i: int| 0 <= i < 4 ==> (#[trigger] r@[i]).0@ == comparison_order()[i].label(),
            texts(r@[0].1@) == entry_lines(bm25),
            texts(r@[1].1@) == entry_lines(mmr),
            texts(r@[2].1@) == entry_lines(diversity),
            texts(r@[3].1@) == entry_lines(recency),
            forall|i: int, j: int| 0 <= i < j < 4 ==> (#[trigger] r@[i]).0@ != (#[trigger] r@[j]).0@,
    {
        let mut entries: Vec<(String, Vec<String>)> = Vec::new();
        entries.push(Self::comparison_entry(SearchStrategy::BM25, bm25));
        entries.push(Self::comparison_entry(SearchStrategy::MMR, mmr));
        entries.push(Self::comparison_entry(SearchStrategy::Diversity, diversity));
        entries.push(Self::comparison_entry(SearchStrategy::Recency, recency));
        proof {
            labels_are_distinct(SearchStrategy::BM25, SearchStrategy::MMR);
            labels_are_distinct(SearchStrategy::BM25, SearchStrategy::Diversity);
            labels_are_distinct(SearchStrategy::BM25, SearchStrategy::Recency);
            labels_are_distinct(SearchStrategy::MMR, SearchStrategy::Diversity);
            labels_are_distinct(SearchStrategy::MMR, SearchStrategy::Recency);
            labels_are_distinct(SearchStrategy::Diversity, SearchStrategy::Recency);
        }
        entries
    }

    /// Runs the search once under each strategy and lists the four
    /// outcomes by the strategies' names. It never fails: a strategy's
    /// failure is reported in that strategy's entry.
    pub fn compare_strategies(&self, query: &str, limit: usize) -> (r: Result<
        Vec<(String, Vec<String>)>,
        OrionError,
    >)
        ensures
            r matches Ok(entries) && entries@.len() == 4 && (forall|i: int|
                0 <= i < 4 ==> (#[trigger] entries@[i]).0@ == comparison_order()[i].label()
                    && comparison_lines(
                    self.engine(),
                    query@,
                    limit as nat,
                    comparison_order()[i],
                    texts(entries@[i].1@),
                )) && (forall|
                i: int,
                j: int,
            |
                0 <= i < j < 4 ==> (#[trigger] entries@[i]).0@ != (#[trigger] entries@[j]).0@),
    {
        let bm25 = self.vector_store.search_with_reranking(query, limit, SearchStrategy::BM25);
        let mmr = self.vector_store.search_with_reranking(query, limit, SearchStrategy::MMR);
        let diversity = self.vector_store.search_with_reranking(
            query,
            limit,
            SearchStrategy::Diversity,
        );
        let recency = self.vector_store.search_with_reranking(query, limit, SearchStrategy::Recency);
        let entries = Self::collect_comparison(bm25, mmr, diversity, recency);
        proof {
            let e = self.engine();
            let l = limit as nat;
            assert(comparison_lines(e, query@, l, SearchStrategy::BM25, entry_lines(bm25)));
            assert(comparison_lines(e, query@, l, SearchStrategy::MMR, entry_lines(mmr)));
            assert(comparison_lines(e, query@, l, SearchStrategy::Diversity, entry_lines(diversity)));
            assert(comparison_lines(e, query@, l, SearchStrategy::Recency, entry_lines(recency)));
            assert forall|i: int| 0 <= i < 4 implies comparison_lines(
                e,
                query@,
                l,
                comparison_order()[i],
                texts((#[trigger] entries@[i]).1@),
            ) by {
                if i == 0 {
                } else if i == 1 {
                } else if i == 2 {
                } else {
                }
            }
        }
        Ok(entries)
    }

    /// Searches for `query` under the strategy that fits it and gathers
    /// the direct and the hierarchical results, stamped with the current
    /// instant. It fails only before the store is initialized.
    pub fn execute(&self, query: &str, limit: usize) -> (r: Result<SmartSearchResult, OrionError>)
        ensures
            r is Ok <==> self.engine().nodes() is Some,
            r matches Ok(found) ==> found.query@ == query@ && found.strategy == strategy_for(
                lowercase_of(query@),
            ) && is_search_result(
                self.engine().nodes()->0,
                query@,
                limit as nat,
                found.strategy,
                texts(found.direct_results@),
            ) && is_multi_hop_result(
                self.engine().nodes()->0,
                query@,
                2,
                3,
                found.hierarchical_results@,
            ),
            r matches Err(e) ==> e matches OrionError::Database(m) && m@
                == "Database not initialized"@,
    {
        let strategy = Self::determine_optimal_strategy(query);
        let direct_results = self.vector_store.search_with_reranking(query, limit, strategy)?;
        let hierarchical_results = self.vector_store.multi_hop_search(query, 2, 3)?;
        Ok(
            SmartSearchResult {
                query: String::from_str(query),
                strategy,
                direct_results,
                hierarchical_results,
                search_time: now_millis(),
            },
        )
    }
}

} // verus!
