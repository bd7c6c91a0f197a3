use orion_health::database::DatabaseManager;
use orion_health::error::OrionError;
use orion_health::health::{
    collect_contents, collect_ids, conclude_summary, fallback_content, filter_window, format_date,
    gather_insights, generate_recommendations, plan_summary, should_generate, summary_content,
    HealthSummaryGenerator,
};
use orion_health::llm::{LlmAdapter, MockLlmAdapter};
use orion_health::models::{NodeMetadata, SummaryType};
use orion_health::vector_store::VectorStoreService;

const START: i64 = 1_704_067_200_000;
const DAY: i64 = 86_400_000;
const END: i64 = START + 6 * DAY;

struct Ready;

impl LlmAdapter for Ready {
    fn is_available(&self) -> bool {
        true
    }

    fn generate_text(&self, prompt: &str) -> Result<String, OrionError> {
        Ok(format!("eco: {}", prompt))
    }

    fn generate_summary(&self, contents: Vec<String>, summary_type: SummaryType) -> Result<String, OrionError> {
        Ok(format!("resumen {} de {}", summary_type.to_string(), contents.len()))
    }
}

struct Broken;

impl LlmAdapter for Broken {
    fn is_available(&self) -> bool {
        true
    }

    fn generate_text(&self, _prompt: &str) -> Result<String, OrionError> {
        Err(OrionError::BackendFailure("roto".to_string()))
    }

    fn generate_summary(&self, _contents: Vec<String>, _summary_type: SummaryType) -> Result<String, OrionError> {
        Err(OrionError::BackendFailure("roto".to_string()))
    }
}

fn meta(created_at: i64, record_type: &str) -> NodeMetadata {
    NodeMetadata {
        created_at,
        record_type: record_type.to_string(),
        patient_id: "default".to_string(),
        layer: 0,
        summary_of: None,
    }
}

fn store_with(records: &[(&str, i64, &str)]) -> (VectorStoreService, Vec<String>) {
    let mut manager = DatabaseManager::new();
    manager.init().unwrap();
    let mut store = VectorStoreService::new(manager);
    let mut ids = Vec::new();
    for (content, at, record_type) in records {
        ids.push(store.add_node(content, meta(*at, record_type), None).unwrap());
    }
    (store, ids)
}

#[test]
fn two_records_and_an_available_backend_give_no_summary_node() {
    let (store, _) = store_with(&[("A", START, "symptom"), ("B", START + DAY, "medication")]);
    let mut generator = HealthSummaryGenerator::new(store, Ready);
    let report = generator.generate_summary(START, END, SummaryType::Weekly).unwrap();
    assert_eq!(report.total_records, 2);
    assert!(report.summary_node_id.is_none());
    assert!(!report.used_llm);
    assert_eq!(report.key_insights, vec!["1 registros de symptom", "1 registros de medication"]);
    assert_eq!(
        report.recommendations,
        vec!["Registra más información médica para obtener mejores recomendaciones"]
    );
    assert_eq!(report.period, "semanal: 2024-01-01 - 2024-01-07");
    assert!(generator.vector_store.get_nodes_by_layer(1).unwrap().is_empty());
}

#[test]
fn three_records_and_no_backend_give_the_fallback() {
    let (store, _) = store_with(&[
        ("A", START, "symptom"),
        ("B", START + DAY, "medication"),
        ("C", END, "symptom"),
    ]);
    let mut generator = HealthSummaryGenerator::new(store, MockLlmAdapter);
    let report = generator.generate_summary(START, END, SummaryType::Weekly).unwrap();
    assert_eq!(report.total_records, 3);
    assert!(!report.used_llm);
    assert!(report.summary_node_id.is_none());
    assert_eq!(report.key_insights, vec!["2 registros de symptom", "1 registros de medication"]);
    assert_eq!(
        report.recommendations,
        vec!["Registra más información médica para obtener mejores recomendaciones"]
    );
    assert!(generator.vector_store.get_nodes_by_layer(1).unwrap().is_empty());
    let nodes = generator.vector_store.get_nodes_by_layer(0).unwrap();
    let content = generator.generate_summary_content(&nodes, SummaryType::Weekly).unwrap();
    assert_eq!(content, "[Resumen semanal automático]\n\nTotal de registros: 3\n\nA\n\nB\n\nC");
    assert_eq!(fallback_content(&nodes, SummaryType::Weekly), content);
}

#[test]
fn three_records_and_a_backend_create_one_summary_node() {
    let (store, ids) = store_with(&[
        ("A", START, "symptom"),
        ("old", START - 1, "symptom"),
        ("B", START + DAY, "medication"),
        ("C", END, "vital_sign"),
        ("late", END + 1, "symptom"),
    ]);
    let mut generator = HealthSummaryGenerator::new(store, Ready);
    let report = generator.generate_summary(START, END, SummaryType::Monthly).unwrap();
    assert_eq!(report.total_records, 3);
    assert!(report.used_llm);
    assert_eq!(report.period, "mensual: 2024-01-01 - 2024-01-07");
    assert_eq!(
        report.key_insights,
        vec!["1 registros de symptom", "1 registros de medication", "1 registros de vital_sign"]
    );
    assert_eq!(
        report.recommendations,
        vec!["Mantén un registro regular de tu salud", "Consulta con tu médico para análisis detallados"]
    );
    let summaries = generator.vector_store.get_nodes_by_layer(1).unwrap();
    assert_eq!(summaries.len(), 1);
    assert_eq!(Some(summaries[0].id.clone()), report.summary_node_id);
    assert_eq!(summaries[0].content, "resumen mensual de 3");
    assert_eq!(summaries[0].metadata.record_type, "health_period_summary");
    assert_eq!(
        summaries[0].metadata.summary_of,
        Some(vec![ids[0].clone(), ids[2].clone(), ids[3].clone()])
    );
    assert_eq!(generator.vector_store.get_nodes_by_layer(0).unwrap().len(), 5);
    let again = generator.generate_summary(START, END, SummaryType::Monthly).unwrap();
    assert!(again.used_llm);
    assert_eq!(generator.vector_store.get_nodes_by_layer(1).unwrap().len(), 2);
}

#[test]
fn a_failing_backend_fails_the_pipeline_and_leaves_the_store() {
    let (store, _) =
        store_with(&[("A", START, "symptom"), ("B", START, "symptom"), ("C", START, "symptom")]);
    let mut generator = HealthSummaryGenerator::new(store, Broken);
    let result = generator.generate_summary(START, END, SummaryType::Weekly);
    assert!(matches!(result, Err(OrionError::BackendFailure(m)) if m == "roto"));
    assert!(generator.vector_store.get_nodes_by_layer(1).unwrap().is_empty());
    let few = generator.generate_summary(END + 1, END + 2, SummaryType::Weekly).unwrap();
    assert_eq!(few.total_records, 0);
}

#[test]
fn no_data_is_a_report_and_no_failure() {
    let (store, _) = store_with(&[]);
    let mut generator = HealthSummaryGenerator::new(store, Ready);
    let report = generator.generate_summary(START, END, SummaryType::Quarterly).unwrap();
    assert_eq!(report.total_records, 0);
    assert_eq!(report.key_insights, vec!["No hay suficientes datos para generar insights"]);
    assert_eq!(
        report.recommendations,
        vec!["Registra más información médica para obtener mejores recomendaciones"]
    );
    assert!(!report.used_llm);
    assert_eq!(report.period, "trimestral: 2024-01-01 - 2024-01-07");
}

#[test]
fn the_pipeline_fails_before_the_store_is_ready_and_on_dates_out_of_range() {
    let mut generator =
        HealthSummaryGenerator::new(VectorStoreService::new(DatabaseManager::new()), Ready);
    let result = generator.generate_summary(START, END, SummaryType::Weekly);
    assert!(matches!(result, Err(OrionError::Database(m)) if m == "Database not initialized"));
    let result = generator.generate_summary(i64::MIN, END, SummaryType::Weekly);
    assert!(matches!(result, Err(OrionError::InvalidInput(m)) if m == "Date out of range"));
    let result = generator.generate_summary(START, i64::MAX, SummaryType::Weekly);
    assert!(matches!(result, Err(OrionError::InvalidInput(m)) if m == "Date out of range"));
}

#[test]
fn a_summary_of_another_patients_records_is_refused() {
    let mut manager = DatabaseManager::new();
    manager.init().unwrap();
    let mut store = VectorStoreService::new(manager);
    for content in ["A", "B", "C"] {
        let mut m = meta(START, "symptom");
        m.patient_id = "other".to_string();
        store.add_node(content, m, None).unwrap();
    }
    let mut generator = HealthSummaryGenerator::new(store, Ready);
    let result = generator.generate_summary(START, END, SummaryType::Weekly);
    assert!(matches!(result, Err(OrionError::InvalidInput(_))));
    assert!(generator.vector_store.get_nodes_by_layer(1).unwrap().is_empty());
}

#[test]
fn dates_are_written_as_year_month_day() {
    assert_eq!(format_date(0).unwrap(), "1970-01-01");
    assert_eq!(format_date(-1).unwrap(), "1969-12-31");
    assert_eq!(format_date(START).unwrap(), "2024-01-01");
    assert_eq!(format_date(START + DAY - 1).unwrap(), "2024-01-01");
    assert_eq!(format_date(1_709_164_800_000).unwrap(), "2024-02-29");
    assert!(format_date(i64::MAX).is_none());
}

#[test]
fn the_window_includes_both_ends() {
    let (store, ids) = store_with(&[
        ("a", 9, "x"),
        ("b", 10, "x"),
        ("c", 15, "y"),
        ("d", 20, "x"),
        ("e", 21, "z"),
    ]);
    let nodes = store.get_nodes_by_layer(0).unwrap();
    let inside = filter_window(&nodes, 10, 20);
    assert_eq!(collect_ids(&inside), vec![ids[1].clone(), ids[2].clone(), ids[3].clone()]);
    assert_eq!(collect_contents(&inside), vec!["b", "c", "d"]);
    assert!(filter_window(&nodes, 20, 10).is_empty());
    assert_eq!(filter_window(&nodes, 21, 21).len(), 1);
}

#[test]
fn insights_count_each_type_in_order_of_first_occurrence() {
    let (store, _) = store_with(&[
        ("a", 1, "symptom"),
        ("b", 2, "medication"),
        ("c", 3, "symptom"),
        ("d", 4, "vital_sign"),
        ("e", 5, "symptom"),
        ("f", 6, "medication"),
    ]);
    let mut nodes = store.get_nodes_by_layer(0).unwrap();
    assert_eq!(
        gather_insights(&nodes),
        vec!["3 registros de symptom", "2 registros de medication", "1 registros de vital_sign"]
    );
    for i in 0..12 {
        let mut extra = nodes[0].duplicate();
        extra.content = format!("x{}", i);
        nodes.push(extra);
    }
    assert_eq!(gather_insights(&nodes)[0], "15 registros de symptom");
    assert_eq!(gather_insights(&[]), vec!["No hay suficientes datos para generar insights"]);
}

#[test]
fn recommendations_go_by_the_number_of_insight_lines() {
    let one = vec!["a".to_string()];
    let two = vec!["a".to_string(), "b".to_string()];
    let three = vec!["a".to_string(), "b".to_string(), "c".to_string()];
    let few = vec!["Registra más información médica para obtener mejores recomendaciones"];
    let many = vec!["Mantén un registro regular de tu salud", "Consulta con tu médico para análisis detallados"];
    assert_eq!(generate_recommendations(&[]), few);
    assert_eq!(generate_recommendations(&one), few);
    assert_eq!(generate_recommendations(&two), few);
    assert_eq!(generate_recommendations(&three), many);
}

#[test]
fn generation_needs_three_records_and_a_backend() {
    assert!(!should_generate(2, true));
    assert!(!should_generate(3, false));
    assert!(should_generate(3, true));
    assert!(should_generate(100, true));
    assert!(!should_generate(0, false));
}

#[test]
fn conclude_summary_takes_each_outcome_of_generation() {
    let (mut store, ids) = store_with(&[("a", 1, "x"), ("b", 2, "y"), ("c", 3, "z")]);
    let nodes = store.get_nodes_by_layer(0).unwrap();
    let none = conclude_summary(&mut store, &nodes, "p".to_string(), 7, None).unwrap();
    assert!(none.summary_node_id.is_none());
    assert!(!none.used_llm);
    assert_eq!(none.period, "p");
    assert_eq!(none.total_records, 3);
    assert_eq!(none.recommendations.len(), 2);
    let failed = conclude_summary(
        &mut store,
        &nodes,
        "p".to_string(),
        7,
        Some(Err(OrionError::BackendUnavailable("no".to_string()))),
    );
    assert!(matches!(failed, Err(OrionError::BackendUnavailable(m)) if m == "no"));
    assert!(store.get_nodes_by_layer(1).unwrap().is_empty());
    let done =
        conclude_summary(&mut store, &nodes, "p".to_string(), 7, Some(Ok("texto".to_string())))
            .unwrap();
    assert!(done.used_llm);
    let summaries = store.get_nodes_by_layer(1).unwrap();
    assert_eq!(summaries.len(), 1);
    assert_eq!(Some(summaries[0].id.clone()), done.summary_node_id);
    assert_eq!(summaries[0].content, "texto");
    assert_eq!(summaries[0].metadata.created_at, 7);
    assert_eq!(summaries[0].metadata.summary_of, Some(ids));
}

#[test]
fn summary_content_comes_from_the_backend_where_it_is_available() {
    let (store, _) = store_with(&[("a", 1, "x")]);
    let nodes = store.get_nodes_by_layer(0).unwrap();
    let generator = HealthSummaryGenerator::new(store, Ready);
    assert_eq!(
        generator.generate_summary_content(&nodes, SummaryType::Weekly).unwrap(),
        "resumen semanal de 1"
    );
    assert_eq!(fallback_content(&[], SummaryType::Monthly), "[Resumen mensual automático]\n\nTotal de registros: 0\n\n");
}

#[test]
fn the_plan_settles_period_records_and_whether_to_ask() {
    let (store, ids) = store_with(&[
        ("A", START, "symptom"),
        ("B", START + DAY, "medication"),
        ("C", END, "symptom"),
        ("late", END + 1, "symptom"),
    ]);
    let plan = plan_summary(&store, START, END, SummaryType::Quarterly, true).unwrap();
    assert_eq!(plan.period, "trimestral: 2024-01-01 - 2024-01-07");
    assert_eq!(collect_ids(&plan.relevant), ids[..3].to_vec());
    assert!(plan.ask_backend);
    assert!(!plan_summary(&store, START, END, SummaryType::Weekly, false).unwrap().ask_backend);
    assert!(!plan_summary(&store, START, START + DAY, SummaryType::Weekly, true).unwrap().ask_backend);
    let bad = plan_summary(&store, i64::MAX, END, SummaryType::Weekly, true);
    assert!(matches!(bad, Err(OrionError::InvalidInput(m)) if m == "Date out of range"));
    let closed = VectorStoreService::new(DatabaseManager::new());
    let bad = plan_summary(&closed, START, END, SummaryType::Weekly, true);
    assert!(matches!(bad, Err(OrionError::Database(m)) if m == "Database not initialized"));
}

#[test]
fn summary_content_passes_the_answer_on_or_falls_back() {
    let (store, _) = store_with(&[("a", 1, "x"), ("b", 2, "y")]);
    let nodes = store.get_nodes_by_layer(0).unwrap();
    assert_eq!(
        summary_content(&nodes, SummaryType::Weekly, Some(Ok("hecho".to_string()))).unwrap(),
        "hecho"
    );
    let failed = summary_content(
        &nodes,
        SummaryType::Weekly,
        Some(Err(OrionError::BackendFailure("x".to_string()))),
    );
    assert!(matches!(failed, Err(OrionError::BackendFailure(m)) if m == "x"));
    assert_eq!(
        summary_content(&nodes, SummaryType::Quarterly, None).unwrap(),
        "[Resumen trimestral automático]\n\nTotal de registros: 2\n\na\n\nb"
    );
}
