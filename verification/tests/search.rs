use orion_health::database::DatabaseManager;
use orion_health::error::OrionError;
use orion_health::models::{MultiHopResult, NodeMetadata, SearchStrategy, SmartSearchResult};
use orion_health::retrieval::{candidates, reach_marks, select, Candidate, Ranking};
use orion_health::search::{classify, SmartSearch};
use orion_health::vector_store::VectorStoreService;

fn meta(layer: u8, created_at: i64, record_type: &str, sources: Option<Vec<String>>) -> NodeMetadata {
    NodeMetadata {
        created_at,
        record_type: record_type.to_string(),
        patient_id: "default".to_string(),
        layer,
        summary_of: sources,
    }
}

fn ready() -> VectorStoreService {
    let mut manager = DatabaseManager::new();
    manager.init().unwrap();
    VectorStoreService::new(manager)
}

fn sample() -> (VectorStoreService, Vec<String>) {
    let mut store = ready();
    let n1 = store.add_node("Dolor de cabeza leve", meta(0, 5000, "symptom", None), None).unwrap();
    let n2 = store
        .add_node("DOLOR de cabeza intenso y fiebre", meta(0, 2000, "symptom", None), None)
        .unwrap();
    let n3 = store.add_node("Metformina para diabetes", meta(0, 3000, "medication", None), None).unwrap();
    let n4 = store.add_node("Fiebre y dolor", meta(0, 100, "vital_sign", None), None).unwrap();
    (store, vec![n1, n2, n3, n4])
}

#[test]
fn medical_terms_win_over_everything() {
    assert_eq!(SmartSearch::determine_optimal_strategy("dolor"), SearchStrategy::BM25);
    assert_eq!(
        SmartSearch::determine_optimal_strategy("Tengo DIABETES, lo más reciente de todos"),
        SearchStrategy::BM25
    );
    assert_eq!(SmartSearch::determine_optimal_strategy("Mi último DIAGNÓSTICO"), SearchStrategy::BM25);
}

#[test]
fn temporal_words_win_over_exploratory_ones() {
    assert_eq!(SmartSearch::determine_optimal_strategy("lo más reciente"), SearchStrategy::Recency);
    assert_eq!(
        SmartSearch::determine_optimal_strategy("TODOS los registros de ESTA SEMANA"),
        SearchStrategy::Recency
    );
    assert_eq!(SmartSearch::determine_optimal_strategy("ÚLTIMO registro"), SearchStrategy::Recency);
}

#[test]
fn exploratory_words_give_diversity_and_the_rest_mmr() {
    assert_eq!(SmartSearch::determine_optimal_strategy("¿QUÉ MÁS hay?"), SearchStrategy::Diversity);
    assert_eq!(SmartSearch::determine_optimal_strategy("muéstrame las opciones"), SearchStrategy::Diversity);
    assert_eq!(SmartSearch::determine_optimal_strategy("hola"), SearchStrategy::MMR);
    assert_eq!(SmartSearch::determine_optimal_strategy(""), SearchStrategy::MMR);
}

#[test]
fn the_same_query_gets_the_same_strategy() {
    for q in ["dolor hoy", "ayer", "tipos", "nada", "Alergia y variedad"] {
        assert_eq!(
            SmartSearch::determine_optimal_strategy(q),
            SmartSearch::determine_optimal_strategy(q)
        );
    }
}

#[test]
fn classify_takes_the_text_as_it_stands() {
    assert_eq!(classify("dolor"), SearchStrategy::BM25);
    assert_eq!(classify("DOLOR"), SearchStrategy::MMR);
    assert_eq!(classify("este mes"), SearchStrategy::Recency);
    assert_eq!(classify("estemes"), SearchStrategy::MMR);
}

#[test]
fn strategies_explain_themselves() {
    assert_eq!(
        SearchStrategy::BM25.explain(),
        "Usando BM25: Tu consulta contiene términos médicos específicos. Esta estrategia prioriza coincidencias exactas de palabras clave."
    );
    assert_eq!(
        SearchStrategy::Recency.explain(),
        "Usando Recency: Tu consulta busca información reciente. Esta estrategia prioriza los registros más nuevos."
    );
    assert_eq!(
        SearchStrategy::Diversity.explain(),
        "Usando Diversity: Tu consulta es exploratoria. Esta estrategia maximiza la variedad de resultados."
    );
    assert_eq!(
        SearchStrategy::MMR.explain(),
        "Usando MMR (Maximal Marginal Relevance): Esta estrategia balancea relevancia y diversidad para resultados óptimos."
    );
    assert_eq!(SearchStrategy::BM25.name(), "bm25");
    assert_eq!(SearchStrategy::MMR.name(), "mmr");
    assert_eq!(SearchStrategy::Diversity.name(), "diversity");
    assert_eq!(SearchStrategy::Recency.name(), "recency");
}

#[test]
fn each_strategy_orders_the_relevant_nodes_its_own_way() {
    let (store, ids) = sample();
    let q = "Dolor cabeza fiebre";
    let by = |s: SearchStrategy, limit: usize| store.search_with_reranking(q, limit, s).unwrap();
    let (n1, n2, n4) = (ids[0].clone(), ids[1].clone(), ids[3].clone());
    assert_eq!(by(SearchStrategy::BM25, 10), vec![n2.clone(), n1.clone(), n4.clone()]);
    assert_eq!(by(SearchStrategy::Recency, 10), vec![n1.clone(), n2.clone(), n4.clone()]);
    assert_eq!(by(SearchStrategy::Diversity, 10), vec![n2.clone(), n4.clone(), n1.clone()]);
    assert_eq!(by(SearchStrategy::MMR, 10), vec![n2.clone(), n4.clone(), n1.clone()]);
    assert_eq!(by(SearchStrategy::BM25, 2), vec![n2.clone(), n1.clone()]);
    assert_eq!(by(SearchStrategy::MMR, 1), vec![n2.clone()]);
    assert!(by(SearchStrategy::BM25, 0).is_empty());
    assert!(store.search_with_reranking("zzz", 5, SearchStrategy::BM25).unwrap().is_empty());
    assert!(store.search_with_reranking("", 5, SearchStrategy::BM25).unwrap().is_empty());
}

#[test]
fn recency_breaks_ties_by_relevance() {
    let mut store = ready();
    let a = store.add_node("fiebre", meta(0, 7, "symptom", None), None).unwrap();
    let b = store.add_node("fiebre alta", meta(0, 7, "symptom", None), None).unwrap();
    let c = store.add_node("fiebre alta", meta(0, 7, "symptom", None), None).unwrap();
    let found = store.search_with_reranking("fiebre alta", 3, SearchStrategy::Recency).unwrap();
    assert_eq!(found, vec![b, c, a]);
}

#[test]
fn candidates_count_the_query_words_in_the_content() {
    let (store, _) = sample();
    let nodes = store.get_nodes_by_layer(0).unwrap();
    let all = candidates(&nodes, "DOLOR  cabeza\tfiebre", false);
    let relevance: Vec<usize> = all.iter().map(|c| c.relevance).collect();
    assert_eq!(relevance, vec![2, 3, 0, 2]);
    let eligible: Vec<bool> = all.iter().map(|c| c.eligible).collect();
    assert_eq!(eligible, vec![true, true, false, true]);
    assert_eq!(all[3].record_type, "vital_sign");
    assert_eq!(all[3].created_at, 100);
}

#[test]
fn selection_goes_by_the_ranking() {
    let c = |eligible: bool, relevance: usize, created_at: i64, layer: u8, t: &str| Candidate {
        eligible,
        relevance,
        created_at,
        layer,
        record_type: t.to_string(),
    };
    let pool = vec![
        c(true, 1, 10, 2, "a"),
        c(true, 5, 20, 1, "a"),
        c(false, 9, 30, 0, "b"),
        c(true, 5, 40, 1, "b"),
        c(true, 4, 50, 3, "a"),
    ];
    assert_eq!(select(Ranking::Strategy(SearchStrategy::BM25), &pool, 10), vec![1, 3, 4, 0]);
    assert_eq!(select(Ranking::Strategy(SearchStrategy::Recency), &pool, 10), vec![4, 3, 1, 0]);
    assert_eq!(select(Ranking::Strategy(SearchStrategy::Diversity), &pool, 10), vec![1, 3, 4, 0]);
    assert_eq!(select(Ranking::Strategy(SearchStrategy::MMR), &pool, 10), vec![1, 3, 4, 0]);
    assert_eq!(select(Ranking::Hierarchy, &pool, 10), vec![3, 1, 0, 4]);
    assert_eq!(select(Ranking::Hierarchy, &pool, 2), vec![3, 1]);
    assert!(select(Ranking::Hierarchy, &[], 2).is_empty());
}

#[test]
fn mmr_weighs_redundancy_against_relevance() {
    let c = |relevance: usize, t: &str| Candidate {
        eligible: true,
        relevance,
        created_at: 0,
        layer: 0,
        record_type: t.to_string(),
    };
    let pool = vec![c(3, "a"), c(3, "a"), c(3, "a"), c(3, "a"), c(2, "b")];
    assert_eq!(select(Ranking::Strategy(SearchStrategy::MMR), &pool, 5), vec![0, 1, 2, 4, 3]);
    assert_eq!(select(Ranking::Strategy(SearchStrategy::BM25), &pool, 5), vec![0, 1, 2, 3, 4]);
    assert_eq!(select(Ranking::Strategy(SearchStrategy::Diversity), &pool, 5), vec![0, 4, 1, 2, 3]);
}

fn hierarchy() -> (VectorStoreService, Vec<String>) {
    let mut store = ready();
    let a = store.add_node("dolor fuerte en casa", meta(0, 10, "symptom", None), None).unwrap();
    let b = store.add_node("dolor en casa", meta(0, 20, "symptom", None), None).unwrap();
    let c = store.add_node("sin relación", meta(0, 30, "note", None), None).unwrap();
    let s1 = store
        .add_node("resumen uno", meta(1, 40, "summary", Some(vec![a.clone(), b.clone()])), None)
        .unwrap();
    let s2 = store.add_node("resumen dos", meta(2, 50, "summary", Some(vec![s1.clone()])), None).unwrap();
    let s3 = store.add_node("resumen tres", meta(1, 60, "summary", Some(vec![a.clone()])), None).unwrap();
    let s4 = store.add_node("resumen cuatro", meta(3, 70, "summary", Some(vec![s2.clone()])), None).unwrap();
    (store, vec![a, b, c, s1, s2, s3, s4])
}

fn context_ids(r: &MultiHopResult) -> Vec<String> {
    r.context.iter().map(|c| c.node_id.clone()).collect()
}

#[test]
fn multi_hop_walks_up_the_hierarchy() {
    let (store, ids) = hierarchy();
    let (a, b, s1, s2, s3) = (&ids[0], &ids[1], &ids[3], &ids[4], &ids[5]);
    let found = store.multi_hop_search("dolor fuerte", 2, 3).unwrap();
    assert_eq!(found.len(), 2);
    assert_eq!(&found[0].node_id, a);
    assert_eq!(found[0].content, "dolor fuerte en casa");
    assert_eq!(found[0].layer, 0);
    assert_eq!(found[0].relevance_score, 2);
    assert_eq!(context_ids(&found[0]), vec![s3.clone(), s1.clone(), s2.clone()]);
    assert_eq!(found[0].context[0].content, "resumen tres");
    assert_eq!(found[0].context[0].layer, 1);
    assert_eq!(found[0].context[2].layer, 2);
    assert_eq!(&found[1].node_id, b);
    assert_eq!(found[1].relevance_score, 1);
    assert!(found[1].context.is_empty());
}

#[test]
fn multi_hop_is_bounded_by_hops_and_top_k() {
    let (store, ids) = hierarchy();
    let (a, b, s1, s2, s3, s4) = (&ids[0], &ids[1], &ids[3], &ids[4], &ids[5], &ids[6]);
    let one = store.multi_hop_search("dolor fuerte", 1, 3).unwrap();
    assert_eq!(context_ids(&one[0]), vec![s3.clone(), s1.clone()]);
    assert!(one[1].context.is_empty());
    let none = store.multi_hop_search("dolor fuerte", 0, 3).unwrap();
    assert_eq!(none.len(), 2);
    assert!(none[0].context.is_empty());
    let three = store.multi_hop_search("dolor fuerte", 3, 1).unwrap();
    assert_eq!(three.len(), 1);
    assert_eq!(&three[0].node_id, a);
    assert_eq!(context_ids(&three[0]), vec![s3.clone(), s1.clone(), s2.clone(), s4.clone()]);
    let recent = store.multi_hop_search("casa reciente", 1, 1).unwrap();
    assert_eq!(recent.len(), 1);
    assert_eq!(&recent[0].node_id, b);
    assert_eq!(context_ids(&recent[0]), vec![s1.clone()]);
    assert!(store.multi_hop_search("resumen", 2, 3).unwrap().is_empty());
}

#[test]
fn no_node_stands_twice_in_the_hierarchical_results() {
    let (store, _) = hierarchy();
    let found = store.multi_hop_search("dolor", 3, 5).unwrap();
    let mut seen: Vec<String> = Vec::new();
    for hit in &found {
        assert!(!seen.contains(&hit.node_id));
        seen.push(hit.node_id.clone());
        for id in context_ids(hit) {
            assert!(!seen.contains(&id));
            seen.push(id);
        }
    }
    assert_eq!(seen.len(), 6);
}

#[test]
fn reach_marks_follow_the_references() {
    let (store, ids) = hierarchy();
    let mut nodes = Vec::new();
    for layer in 0..=3u8 {
        nodes.extend(store.get_nodes_by_layer(layer).unwrap());
    }
    let order: Vec<usize> =
        ids.iter().map(|id| nodes.iter().position(|n| &n.id == id).unwrap()).collect();
    let marks = |hops: u8| -> Vec<bool> {
        let m = reach_marks(&nodes, &ids[0], hops);
        order.iter().map(|&i| m[i]).collect()
    };
    assert_eq!(marks(0), vec![false; 7]);
    assert_eq!(marks(1), vec![false, false, false, true, false, true, false]);
    assert_eq!(marks(2), vec![false, false, false, true, true, true, false]);
    assert_eq!(marks(3), vec![false, false, false, true, true, true, true]);
    assert_eq!(marks(200), vec![false, false, false, true, true, true, true]);
}

#[test]
fn execute_gathers_direct_and_hierarchical_results() {
    let (store, ids) = hierarchy();
    let search = SmartSearch::new(store);
    let found: SmartSearchResult = search.execute("Dolor fuerte", 1).unwrap();
    assert_eq!(found.query, "Dolor fuerte");
    assert!(matches!(found.strategy, SearchStrategy::BM25));
    assert_eq!(found.direct_results, vec![ids[0].clone()]);
    assert_eq!(found.hierarchical_results.len(), 2);
    assert_eq!(found.total_results(), 3);
    assert!(found.has_hierarchical_context());
    assert!(found.search_time > 1_600_000_000_000);
    let plain = search.execute("sin", 5).unwrap();
    assert_eq!(plain.direct_results, vec![ids[2].clone()]);
    assert_eq!(plain.total_results(), 2);
    assert!(!plain.has_hierarchical_context());
    let failing = SmartSearch::new(VectorStoreService::new(DatabaseManager::new()));
    assert!(matches!(failing.execute("dolor", 1), Err(OrionError::Database(_))));
}

#[test]
fn compare_strategies_lists_all_four() {
    let (store, ids) = sample();
    let search = SmartSearch::new(store);
    let entries = search.compare_strategies("dolor cabeza fiebre", 2).unwrap();
    let names: Vec<&str> = entries.iter().map(|e| e.0.as_str()).collect();
    assert_eq!(names, vec!["bm25", "mmr", "diversity", "recency"]);
    assert_eq!(entries[0].1, vec![ids[1].clone(), ids[0].clone()]);
    assert_eq!(entries[1].1, vec![ids[1].clone(), ids[3].clone()]);
    assert_eq!(entries[2].1, vec![ids[1].clone(), ids[3].clone()]);
    assert_eq!(entries[3].1, vec![ids[0].clone(), ids[1].clone()]);
}

#[test]
fn compare_strategies_reports_failures_inline() {
    let search = SmartSearch::new(VectorStoreService::new(DatabaseManager::new()));
    let entries = search.compare_strategies("dolor", 2).unwrap();
    assert_eq!(entries.len(), 4);
    for entry in &entries {
        assert_eq!(entry.1, vec!["Error: Database error: Database not initialized".to_string()]);
    }
}

#[test]
fn one_failing_strategy_does_not_end_the_comparison() {
    let entries = SmartSearch::collect_comparison(
        Ok(vec!["a".to_string(), "b".to_string()]),
        Err(OrionError::Search("index offline".to_string())),
        Ok(vec![]),
        Ok(vec!["c".to_string()]),
    );
    assert_eq!(entries.len(), 4);
    assert_eq!(entries[0], ("bm25".to_string(), vec!["a".to_string(), "b".to_string()]));
    assert_eq!(
        entries[1],
        ("mmr".to_string(), vec!["Error: Search error: index offline".to_string()])
    );
    assert_eq!(entries[2], ("diversity".to_string(), vec![]));
    assert_eq!(entries[3], ("recency".to_string(), vec!["c".to_string()]));
    let entry = SmartSearch::comparison_entry(
        SearchStrategy::Recency,
        Err(OrionError::Database("down".to_string())),
    );
    assert_eq!(entry, ("recency".to_string(), vec!["Error: Database error: down".to_string()]));
}
