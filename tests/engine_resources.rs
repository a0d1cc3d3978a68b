use addy::engine::{EngineState, LoadError, LoadFailure, LoadStage};
use addy::resource::{construct_model, parse_config, AIEngine};
use std::collections::HashMap;

const TINY_CONFIG: &str = r#"{
    "attention_bias": false,
    "head_dim": 4,
    "hidden_act": "gelu",
    "hidden_activation": null,
    "hidden_size": 8,
    "intermediate_size": 16,
    "num_attention_heads": 2,
    "num_hidden_layers": 1,
    "num_key_value_heads": 1,
    "rms_norm_eps": 0.000001,
    "rope_theta": 10000.0,
    "vocab_size": 32
}"#;

#[test]
fn new_engine_is_not_ready() {
    let engine = AIEngine::new();
    assert!(!engine.status());
    assert!(engine.device().is_cpu());
}

#[test]
fn failed_load_installs_nothing() {
    let mut engine = AIEngine::new();
    engine.begin_load().unwrap();
    assert!(matches!(engine.begin_load(), Err(LoadError::Busy)));
    let failure = LoadFailure { stage: LoadStage::Tokenizer, detail: "missing".to_string() };
    match engine.finish_load(Err(failure)) {
        Err(LoadError::Failed(f)) => assert_eq!(f.stage, LoadStage::Tokenizer),
        _ => panic!("expected a failure"),
    }
    assert!(!engine.status());
    assert!(engine.begin_load().is_ok());
}

#[test]
fn valid_config_parses() {
    assert!(parse_config(TINY_CONFIG).is_ok());
}

#[test]
fn malformed_config_is_reported() {
    match parse_config("{ not json") {
        Err(e) => assert!(e.starts_with("Failed to parse config: ") && e.len() > 24),
        Ok(_) => panic!("expected a parse error"),
    }
}

#[test]
fn model_without_weights_is_reported() {
    let config = parse_config(TINY_CONFIG).unwrap();
    let device = AIEngine::new().device().clone();
    match construct_model(&config, HashMap::new(), &device) {
        Err(e) => assert!(e.starts_with("Failed to create Gemma model: ") && e.len() > 30),
        Ok(_) => panic!("expected a construction error"),
    }
}

#[test]
fn lifecycle_state_reports_failure() {
    let mut m = addy::engine::ModelLifecycle::new();
    m.begin_load().unwrap();
    let _ = m.finish_load(Err(LoadFailure { stage: LoadStage::Locate, detail: "x".to_string() }));
    assert!(matches!(m.state(), EngineState::Failed(_)));
}

#[test]
fn zero_key_value_heads_is_refused() {
    let text = TINY_CONFIG.replace("\"num_key_value_heads\": 1", "\"num_key_value_heads\": 0");
    let config = parse_config(&text).unwrap();
    let device = AIEngine::new().device().clone();
    match construct_model(&config, HashMap::new(), &device) {
        Err(e) => assert_eq!(e, "Failed to create Gemma model: the key-value head count is zero"),
        Ok(_) => panic!("expected a construction error"),
    }
}

#[test]
fn engine_runs_on_cpu_across_loads() {
    let mut engine = AIEngine::new();
    assert!(engine.runs_on_cpu());
    engine.begin_load().unwrap();
    let failure = LoadFailure { stage: LoadStage::Weights, detail: "gone".to_string() };
    match engine.finish_load(Err(failure)) {
        Err(LoadError::Failed(f)) => {
            assert_eq!(f.stage, LoadStage::Weights);
            assert_eq!(f.detail, "gone");
        }
        _ => panic!("expected the failure back"),
    }
    assert!(engine.runs_on_cpu());
}
