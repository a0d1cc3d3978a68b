use addy::engine::{
    advance, first_stage, EngineState, LoadError, LoadFailure, LoadStage, LoadStep,
    ModelLifecycle,
};

#[test]
fn starts_unloaded_and_not_ready() {
    let m = ModelLifecycle::new();
    assert!(matches!(m.state(), EngineState::Unloaded));
    assert!(!m.status());
    assert!(!m.is_loading());
}

#[test]
fn successful_load_passes_through_loading() {
    let mut m = ModelLifecycle::new();
    assert!(m.begin_load().is_ok());
    assert!(m.is_loading());
    assert!(!m.status());
    assert!(m.finish_load(Ok(())).is_ok());
    assert!(m.status());
}

#[test]
fn concurrent_load_is_busy() {
    let mut m = ModelLifecycle::new();
    m.begin_load().unwrap();
    assert!(matches!(m.begin_load(), Err(LoadError::Busy)));
    assert!(m.is_loading());
}

#[test]
fn missing_artifact_lands_in_failed() {
    let mut m = ModelLifecycle::new();
    m.begin_load().unwrap();
    let mut stage = first_stage();
    assert_eq!(stage, LoadStage::Locate);
    let outcome = loop {
        let result = if stage == LoadStage::Config {
            Err("config.json missing".to_string())
        } else {
            Ok(())
        };
        match advance(stage, result) {
            LoadStep::Perform(next) => stage = next,
            LoadStep::Finish(outcome) => break outcome,
        }
    };
    match m.finish_load(outcome) {
        Err(LoadError::Failed(f)) => {
            assert_eq!(f.stage, LoadStage::Config);
            assert_eq!(f.detail, "config.json missing");
        }
        _ => panic!("expected a failure"),
    }
    assert!(!m.status());
    match m.state() {
        EngineState::Failed(f) => assert_eq!(f.stage, LoadStage::Config),
        _ => panic!("expected the failed state"),
    }
}

#[test]
fn retry_after_failure_and_reload_after_ready() {
    let mut m = ModelLifecycle::new();
    m.begin_load().unwrap();
    let failure = LoadFailure { stage: LoadStage::Weights, detail: "bad".to_string() };
    assert!(m.finish_load(Err(failure)).is_err());
    assert!(m.begin_load().is_ok());
    m.finish_load(Ok(())).unwrap();
    assert!(m.begin_load().is_ok());
    assert!(!m.status());
}

#[test]
fn steps_run_in_order() {
    assert!(matches!(advance(LoadStage::Locate, Ok(())), LoadStep::Perform(LoadStage::Tokenizer)));
    assert!(matches!(advance(LoadStage::Tokenizer, Ok(())), LoadStep::Perform(LoadStage::Config)));
    assert!(matches!(advance(LoadStage::Config, Ok(())), LoadStep::Perform(LoadStage::Weights)));
    assert!(matches!(advance(LoadStage::Weights, Ok(())), LoadStep::Perform(LoadStage::Construct)));
    assert!(matches!(advance(LoadStage::Construct, Ok(())), LoadStep::Finish(Ok(()))));
    match advance(LoadStage::Tokenizer, Err("no file".to_string())) {
        LoadStep::Finish(Err(f)) => assert_eq!(f.stage, LoadStage::Tokenizer),
        _ => panic!("expected the load to end"),
    }
}
