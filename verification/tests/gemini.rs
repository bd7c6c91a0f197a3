use orion_health::error::OrionError;
use orion_health::llm::gemini_adapter::{
    CloudOutcome, GeminiAdapter, GeminiConfig, GeminiReply, UsageMetadata, UsageStats,
};
use orion_health::llm::{
    create_summary_prompt, CandleLlmAdapter, LlmAdapter, MockLlmAdapter,
};
use orion_health::models::SummaryType;
use std::path::PathBuf;

#[test]
fn test_gemini_adapter_creation() {
    let adapter = GeminiAdapter::with_api_key("test-key".to_string());
    assert!(adapter.is_available());
}

#[test]
fn test_gemini_adapter_no_key() {
    let adapter = GeminiAdapter::new(GeminiConfig::default());
    assert!(!adapter.is_available());
}

#[test]
fn test_usage_stats() {
    let adapter = GeminiAdapter::with_api_key("test-key".to_string());
    let stats = adapter.get_usage_stats();
    assert_eq!(stats.total_tokens, 0);
    assert_eq!(stats.requests_count, 0);
}

#[test]
fn default_config_names_model_and_endpoint() {
    let config = GeminiConfig::default();
    assert_eq!(config.api_key, "");
    assert_eq!(config.model, "gemini-1.5-flash");
    assert_eq!(config.endpoint, "https://generativelanguage.googleapis.com/v1beta");
}

#[test]
fn requests_carry_url_prompt_and_limit() {
    let adapter = GeminiAdapter::new(GeminiConfig {
        api_key: "k".to_string(),
        model: "m".to_string(),
        endpoint: "https://e".to_string(),
    });
    let req = adapter.text_request("hola").unwrap();
    assert_eq!(req.url, "https://e/models/m:generateContent?key=k");
    assert_eq!(req.prompt, "hola");
    assert_eq!(req.max_output_tokens, 512);
    let contents = vec!["a".to_string()];
    let req = adapter.summary_request(&contents, SummaryType::Quarterly).unwrap();
    assert_eq!(req.prompt, create_summary_prompt(&contents, SummaryType::Quarterly));
    assert_eq!(req.max_output_tokens, 1024);
    let req = adapter.prepare_request("p", 7).unwrap();
    assert_eq!(req.max_output_tokens, 7);
}

#[test]
fn requests_need_a_key() {
    let adapter = GeminiAdapter::new(GeminiConfig::default());
    match adapter.text_request("hola") {
        Err(OrionError::BackendUnavailable(m)) => assert_eq!(m, "Gemini API key not configured"),
        other => panic!("unexpected {:?}", other),
    }
}

#[test]
fn complete_request_counts_successes_only() {
    let mut adapter = GeminiAdapter::with_api_key("k".to_string());
    let ok = adapter.complete_request(CloudOutcome::Reply(GeminiReply {
        candidates: vec![vec!["primero".to_string()], vec!["segundo".to_string()]],
        usage: Some(UsageMetadata {
            prompt_token_count: 3,
            candidates_token_count: 4,
            total_token_count: 7,
        }),
    }));
    assert_eq!(ok.unwrap(), "primero");
    let expected = UsageStats {
        total_tokens: 7,
        prompt_tokens: 3,
        completion_tokens: 4,
        requests_count: 1,
    };
    assert_eq!(adapter.get_usage_stats(), expected);
    let empty_parts = adapter.complete_request(CloudOutcome::Reply(GeminiReply {
        candidates: vec![vec![]],
        usage: None,
    }));
    assert!(matches!(empty_parts, Err(OrionError::BackendFailure(m)) if m == "No response from Gemini"));
    assert_eq!(adapter.get_usage_stats(), expected);
    adapter.reset_usage_stats();
    assert_eq!(adapter.get_usage_stats(), UsageStats::default());
    assert!(adapter.is_available());
}

#[test]
fn usage_counters_saturate() {
    let start = UsageStats {
        total_tokens: u64::MAX - 1,
        prompt_tokens: 0,
        completion_tokens: 0,
        requests_count: u64::MAX,
    };
    let after = start.record(Some(UsageMetadata {
        prompt_token_count: 1,
        candidates_token_count: 1,
        total_token_count: 2,
    }));
    assert_eq!(after.total_tokens, u64::MAX);
    assert_eq!(after.requests_count, u64::MAX);
    assert_eq!(after.prompt_tokens, 1);
}

#[test]
fn summary_prompt_has_the_fixed_frame() {
    let contents = vec!["Registro A".to_string(), "Registro B".to_string()];
    let prompt = create_summary_prompt(&contents, SummaryType::Weekly);
    let expected = "Genera un resumen semanal de los siguientes registros médicos:\n\nRegistro A\n\nRegistro B\n\nEl resumen debe incluir:\n- Principales diagnósticos o síntomas\n- Medicamentos prescritos y cambios en tratamientos\n- Resultados de análisis o estudios relevantes\n- Tendencias observadas en signos vitales\n- Recomendaciones o seguimientos pendientes\n\nFormato: Texto estructurado y claro para el paciente.";
    assert_eq!(prompt, expected);
    let empty = create_summary_prompt(&[], SummaryType::Monthly);
    assert!(empty.starts_with("Genera un resumen mensual de los siguientes registros médicos:\n\n\n\nEl resumen"));
}

#[test]
fn summary_types_have_their_words() {
    assert_eq!(SummaryType::Weekly.to_string(), "semanal");
    assert_eq!(SummaryType::Monthly.to_string(), "mensual");
    assert_eq!(SummaryType::Quarterly.to_string(), "trimestral");
    assert_eq!(SummaryType::Quarterly.as_str(), "trimestral");
}

#[test]
fn the_mock_adapter_is_never_available() {
    let mock = MockLlmAdapter;
    assert!(!mock.is_available());
    match mock.generate_text("hola") {
        Err(OrionError::BackendUnavailable(m)) => assert_eq!(m, "Mock LLM adapter - not available"),
        other => panic!("unexpected {:?}", other),
    }
    assert_eq!(
        mock.generate_summary(vec![], SummaryType::Monthly).unwrap(),
        "[MOCK] Resumen mensual generado automáticamente (LLM no disponible)"
    );
}

#[test]
fn the_local_adapter_needs_file_and_tokenizer() {
    let mut adapter = CandleLlmAdapter::new(PathBuf::from("model.gguf"));
    assert!(adapter.init().is_ok());
    assert_eq!(adapter.model_path(), &PathBuf::from("model.gguf"));
    assert!(!adapter.is_available(true));
    assert!(!adapter.is_available(false));
    let req = adapter.text_request("hola");
    assert_eq!(req.prompt, "hola");
    assert_eq!(req.max_tokens, 512);
    let contents = vec!["a".to_string(), "b".to_string()];
    let req = adapter.summary_request(&contents, SummaryType::Weekly);
    assert_eq!(req.prompt, create_summary_prompt(&contents, SummaryType::Weekly));
    assert_eq!(req.max_tokens, 1024);
}
