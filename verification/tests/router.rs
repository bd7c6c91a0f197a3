use orion_health::error::OrionError;
use orion_health::llm::gemini_adapter::{
    CloudOutcome, GeminiAdapter, GeminiReply, UsageMetadata, UsageStats,
};
use orion_health::llm::smart_manager::{
    AdapterChoice, Dispatch, GenerationOutcome, LlmStrategy, SmartLlmConfig, SmartLlmManager,
};
use orion_health::llm::CandleLlmAdapter;
use orion_health::models::SummaryType;
use std::path::PathBuf;

fn local() -> CandleLlmAdapter {
    CandleLlmAdapter::new(PathBuf::from("test_model.gguf"))
}

fn cloud() -> GeminiAdapter {
    GeminiAdapter::with_api_key("test-key".to_string())
}

fn reply(text: &str, total: u32) -> CloudOutcome {
    CloudOutcome::Reply(GeminiReply {
        candidates: vec![vec![text.to_string()]],
        usage: Some(UsageMetadata {
            prompt_token_count: total / 2,
            candidates_token_count: total - total / 2,
            total_token_count: total,
        }),
    })
}

#[test]
fn test_smart_manager_local_only() {
    let config = SmartLlmConfig { strategy: LlmStrategy::LocalOnly, ..Default::default() };
    let manager = SmartLlmManager::new(config).with_local_adapter(local());
    let choice = manager.select_adapter(100).unwrap();
    assert_eq!(choice, AdapterChoice::Local);
}

#[test]
fn test_smart_manager_hybrid_small_prompt() {
    let config = SmartLlmConfig {
        strategy: LlmStrategy::Hybrid,
        prefer_local_under_tokens: 2048,
        ..Default::default()
    };
    let manager =
        SmartLlmManager::new(config).with_local_adapter(local()).with_cloud_adapter(cloud());
    let choice = manager.select_adapter(500).unwrap();
    assert_eq!(choice, AdapterChoice::Local);
}

#[test]
fn test_smart_manager_hybrid_large_prompt() {
    let config = SmartLlmConfig {
        strategy: LlmStrategy::Hybrid,
        prefer_local_under_tokens: 2048,
        ..Default::default()
    };
    let manager =
        SmartLlmManager::new(config).with_local_adapter(local()).with_cloud_adapter(cloud());
    let choice = manager.select_adapter(5000).unwrap();
    assert_eq!(choice, AdapterChoice::Cloud);
}

#[test]
fn test_smart_manager_network_unavailable() {
    let config = SmartLlmConfig { strategy: LlmStrategy::Hybrid, ..Default::default() };
    let mut manager =
        SmartLlmManager::new(config).with_local_adapter(local()).with_cloud_adapter(cloud());
    manager.set_network_available(false);
    let choice = manager.select_adapter(5000).unwrap();
    assert_eq!(choice, AdapterChoice::Local);
}

#[test]
fn default_config_is_hybrid_with_a_million_tokens() {
    let config = SmartLlmConfig::default();
    assert_eq!(config.strategy, LlmStrategy::Hybrid);
    assert_eq!(config.max_monthly_tokens, 1_000_000);
    assert_eq!(config.prefer_local_under_tokens, 2048);
}

#[test]
fn hybrid_threshold_is_exclusive() {
    let manager = SmartLlmManager::new(SmartLlmConfig::default())
        .with_local_adapter(local())
        .with_cloud_adapter(cloud());
    assert_eq!(manager.select_adapter(2047).unwrap(), AdapterChoice::Local);
    assert_eq!(manager.select_adapter(2048).unwrap(), AdapterChoice::Cloud);
    assert_eq!(manager.get_preferred_adapter(2048).unwrap(), AdapterChoice::Cloud);
}

#[test]
fn local_only_without_local_is_unavailable_for_every_size() {
    let config = SmartLlmConfig { strategy: LlmStrategy::LocalOnly, ..Default::default() };
    let manager = SmartLlmManager::new(config).with_cloud_adapter(cloud());
    for size in [0usize, 1, 500, 2048, 5000, usize::MAX] {
        match manager.select_adapter(size) {
            Err(OrionError::BackendUnavailable(m)) => {
                assert_eq!(m, "Local adapter not available but strategy is LocalOnly")
            }
            other => panic!("unexpected {:?}", other),
        }
    }
}

#[test]
fn cloud_only_needs_adapter_and_network() {
    let config = SmartLlmConfig { strategy: LlmStrategy::CloudOnly, ..Default::default() };
    let mut manager =
        SmartLlmManager::new(config).with_local_adapter(local()).with_cloud_adapter(cloud());
    assert_eq!(manager.select_adapter(10).unwrap(), AdapterChoice::Cloud);
    manager.set_network_available(false);
    assert!(!manager.is_network_available());
    match manager.select_adapter(10) {
        Err(OrionError::BackendUnavailable(m)) => {
            assert_eq!(m, "Cloud adapter not available but strategy is CloudOnly")
        }
        other => panic!("unexpected {:?}", other),
    }
    let bare = SmartLlmManager::new(config);
    assert!(bare.is_network_available());
    assert!(matches!(bare.select_adapter(10), Err(OrionError::BackendUnavailable(_))));
}

#[test]
fn hybrid_with_nothing_configured_is_unavailable() {
    let manager = SmartLlmManager::new(SmartLlmConfig::default());
    match manager.select_adapter(10) {
        Err(OrionError::BackendUnavailable(m)) => assert_eq!(m, "No LLM adapter available"),
        other => panic!("unexpected {:?}", other),
    }
}

#[test]
fn hybrid_with_cloud_alone_picks_cloud_for_small_prompts() {
    let manager = SmartLlmManager::new(SmartLlmConfig::default()).with_cloud_adapter(cloud());
    assert_eq!(manager.select_adapter(1).unwrap(), AdapterChoice::Cloud);
}

#[test]
fn hybrid_falls_back_to_local_once_the_budget_is_spent() {
    let config = SmartLlmConfig {
        strategy: LlmStrategy::Hybrid,
        max_monthly_tokens: 100,
        prefer_local_under_tokens: 2048,
    };
    let mut manager =
        SmartLlmManager::new(config).with_local_adapter(local()).with_cloud_adapter(cloud());
    assert_eq!(manager.select_adapter(5000).unwrap(), AdapterChoice::Cloud);
    let done = manager.complete(GenerationOutcome::Cloud(reply("uno", 99))).unwrap();
    assert_eq!(done, ("uno".to_string(), AdapterChoice::Cloud));
    assert_eq!(manager.select_adapter(5000).unwrap(), AdapterChoice::Cloud);
    manager.complete(GenerationOutcome::Cloud(reply("dos", 1))).unwrap();
    assert_eq!(manager.get_cloud_usage().unwrap().total_tokens, 100);
    assert_eq!(manager.select_adapter(5000).unwrap(), AdapterChoice::Local);
    manager.reset_cloud_usage().unwrap();
    assert_eq!(manager.get_cloud_usage().unwrap(), UsageStats::default());
    assert_eq!(manager.select_adapter(5000).unwrap(), AdapterChoice::Cloud);
}

#[test]
fn usage_counters_hold_the_exact_sums() {
    let mut manager = SmartLlmManager::new(SmartLlmConfig::default()).with_cloud_adapter(cloud());
    let totals = [10u32, 250, 7, 4000];
    for t in totals {
        manager.complete(GenerationOutcome::Cloud(reply("ok", t))).unwrap();
    }
    let usage = manager.get_cloud_usage().unwrap();
    assert_eq!(usage.total_tokens, 4267);
    assert_eq!(usage.prompt_tokens, 5 + 125 + 3 + 2000);
    assert_eq!(usage.completion_tokens, 5 + 125 + 4 + 2000);
    assert_eq!(usage.requests_count, 4);
}

#[test]
fn failed_cloud_calls_leave_the_counters_unchanged() {
    let mut manager = SmartLlmManager::new(SmartLlmConfig::default()).with_cloud_adapter(cloud());
    manager.complete(GenerationOutcome::Cloud(reply("ok", 30))).unwrap();
    let before = manager.get_cloud_usage().unwrap();
    let failures = vec![
        CloudOutcome::RequestFailed("timed out".to_string()),
        CloudOutcome::HttpError { status: "500 Internal Server Error".to_string(), body: "boom".to_string() },
        CloudOutcome::Unreadable("expected value".to_string()),
        CloudOutcome::Reply(GeminiReply {
            candidates: vec![],
            usage: Some(UsageMetadata {
                prompt_token_count: 1,
                candidates_token_count: 2,
                total_token_count: 3,
            }),
        }),
    ];
    let expected = [
        "Gemini API request failed: timed out",
        "Gemini API error (500 Internal Server Error): boom",
        "Failed to parse Gemini response: expected value",
        "No response from Gemini",
    ];
    for (outcome, want) in failures.into_iter().zip(expected) {
        match manager.complete(GenerationOutcome::Cloud(outcome)) {
            Err(OrionError::BackendFailure(m)) => assert_eq!(m, want),
            other => panic!("unexpected {:?}", other),
        }
        assert_eq!(manager.get_cloud_usage().unwrap(), before);
    }
}

#[test]
fn a_reply_without_usage_counts_the_request_only() {
    let mut manager = SmartLlmManager::new(SmartLlmConfig::default()).with_cloud_adapter(cloud());
    let outcome = CloudOutcome::Reply(GeminiReply {
        candidates: vec![vec!["hola".to_string(), "resto".to_string()]],
        usage: None,
    });
    assert_eq!(
        manager.complete(GenerationOutcome::Cloud(outcome)).unwrap(),
        ("hola".to_string(), AdapterChoice::Cloud)
    );
    let usage = manager.get_cloud_usage().unwrap();
    assert_eq!(usage.requests_count, 1);
    assert_eq!(usage.total_tokens, 0);
}

#[test]
fn local_outcomes_pass_through() {
    let mut manager = SmartLlmManager::new(SmartLlmConfig::default()).with_local_adapter(local());
    assert_eq!(
        manager.complete(GenerationOutcome::Local(Ok("texto".to_string()))).unwrap(),
        ("texto".to_string(), AdapterChoice::Local)
    );
    let failed = manager
        .complete(GenerationOutcome::Local(Err(OrionError::BackendFailure("x".to_string()))));
    assert!(matches!(failed, Err(OrionError::BackendFailure(m)) if m == "x"));
    let no_cloud = manager.complete(GenerationOutcome::Cloud(reply("a", 1)));
    assert!(
        matches!(no_cloud, Err(OrionError::BackendUnavailable(m)) if m == "Cloud adapter not available")
    );
    assert!(manager.get_cloud_usage().is_none());
    assert!(
        matches!(manager.reset_cloud_usage(), Err(OrionError::BackendUnavailable(m)) if m == "Cloud adapter not configured")
    );
}

#[test]
fn generate_text_dispatches_to_the_chosen_backend() {
    let manager = SmartLlmManager::new(SmartLlmConfig::default())
        .with_local_adapter(local())
        .with_cloud_adapter(cloud());
    let small = manager.generate_text("hola").unwrap();
    assert_eq!(small.choice(), AdapterChoice::Local);
    match small {
        Dispatch::Local(req) => {
            assert_eq!(req.prompt, "hola");
            assert_eq!(req.max_tokens, 512);
        }
        other => panic!("unexpected {:?}", other),
    }
    let long = "x".repeat(3000);
    match manager.generate_text(&long).unwrap() {
        Dispatch::Cloud(req) => {
            assert_eq!(req.prompt, long);
            assert_eq!(req.max_output_tokens, 512);
            assert_eq!(
                req.url,
                "https://generativelanguage.googleapis.com/v1beta/models/gemini-1.5-flash:generateContent?key=test-key"
            );
        }
        other => panic!("unexpected {:?}", other),
    }
}

#[test]
fn prompt_size_is_counted_in_bytes() {
    let config = SmartLlmConfig {
        strategy: LlmStrategy::Hybrid,
        max_monthly_tokens: 1_000_000,
        prefer_local_under_tokens: 4,
    };
    let manager =
        SmartLlmManager::new(config).with_local_adapter(local()).with_cloud_adapter(cloud());
    assert_eq!(manager.generate_text("abc").unwrap().choice(), AdapterChoice::Local);
    assert_eq!(manager.generate_text("ñañ").unwrap().choice(), AdapterChoice::Cloud);
    assert_eq!(SmartLlmManager::estimate_length(&["ab".to_string(), "ñ".to_string()]), 4);
    assert_eq!(SmartLlmManager::estimate_length(&[]), 0);
}

#[test]
fn generate_summary_routes_by_the_contents_and_builds_the_prompt() {
    let config = SmartLlmConfig {
        strategy: LlmStrategy::Hybrid,
        max_monthly_tokens: 1_000_000,
        prefer_local_under_tokens: 10,
    };
    let manager =
        SmartLlmManager::new(config).with_local_adapter(local()).with_cloud_adapter(cloud());
    let contents = vec!["uno".to_string(), "dos".to_string()];
    match manager.generate_summary(contents.clone(), SummaryType::Monthly).unwrap() {
        Dispatch::Local(req) => {
            assert_eq!(req.max_tokens, 1024);
            assert_eq!(
                req.prompt,
                orion_health::llm::create_summary_prompt(&contents, SummaryType::Monthly)
            );
        }
        other => panic!("unexpected {:?}", other),
    }
    let large = vec!["0123456789".to_string()];
    assert_eq!(
        manager.generate_summary(large, SummaryType::Weekly).unwrap().choice(),
        AdapterChoice::Cloud
    );
}

#[test]
fn a_cloud_dispatch_without_a_key_is_unavailable() {
    let config = SmartLlmConfig { strategy: LlmStrategy::CloudOnly, ..Default::default() };
    let manager = SmartLlmManager::new(config)
        .with_cloud_adapter(GeminiAdapter::with_api_key(String::new()));
    assert_eq!(manager.select_adapter(1).unwrap(), AdapterChoice::Cloud);
    match manager.generate_text("hola") {
        Err(OrionError::BackendUnavailable(m)) => assert_eq!(m, "Gemini API key not configured"),
        other => panic!("unexpected {:?}", other),
    }
}

#[test]
fn adapter_choice_has_a_name() {
    assert_eq!(AdapterChoice::Local.to_string(), "Local");
    assert_eq!(AdapterChoice::Cloud.to_string(), "Cloud");
}
