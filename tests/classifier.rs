use addy::safety::{AddyPersonality, SafetyLevel, TriggerCategory};

fn analyze(text: &str) -> (SafetyLevel, Vec<String>, Option<TriggerCategory>) {
    AddyPersonality::new().analyze_safety(text)
}

#[test]
fn kill_myself_is_self_harm_intervention() {
    let (level, keywords, category) = analyze("I want to kill myself");
    assert_eq!(level, SafetyLevel::Intervention);
    assert_eq!(keywords, vec!["kill myself".to_string()]);
    assert_eq!(category, Some(TriggerCategory::SelfHarm));
}

#[test]
fn great_day_is_safe() {
    let (level, keywords, category) = analyze("just had a great day");
    assert_eq!(level, SafetyLevel::Safe);
    assert!(keywords.is_empty());
    assert_eq!(category, None);
}

#[test]
fn empty_text_is_safe() {
    let (level, keywords, category) = analyze("");
    assert_eq!(level, SafetyLevel::Safe);
    assert!(keywords.is_empty());
    assert_eq!(category, None);
}

#[test]
fn emergency_dominates_other_categories() {
    let (level, keywords, category) =
        analyze("I relapsed, feel hopeless and now I have chest pain");
    assert_eq!(level, SafetyLevel::Emergency);
    assert_eq!(category, Some(TriggerCategory::MedicalEmergency));
    assert_eq!(
        keywords,
        vec!["chest pain".to_string(), "hopeless".to_string(), "relapsed".to_string()]
    );
}

#[test]
fn crisis_keyword_intervenes() {
    let (level, keywords, category) = analyze("I'm giving up, I feel worthless");
    assert_eq!(level, SafetyLevel::Intervention);
    assert_eq!(category, Some(TriggerCategory::Crisis));
    assert_eq!(keywords, vec!["giving up".to_string(), "worthless".to_string()]);
}

#[test]
fn self_harm_wins_tie_with_crisis() {
    let (level, _, category) = analyze("hopeless, thinking about suicide");
    assert_eq!(level, SafetyLevel::Intervention);
    assert_eq!(category, Some(TriggerCategory::SelfHarm));
}

#[test]
fn substance_alone_is_concern() {
    let (level, keywords, category) = analyze("Had another blackout last night");
    assert_eq!(level, SafetyLevel::Concern);
    assert_eq!(keywords, vec!["blackout".to_string()]);
    assert_eq!(category, Some(TriggerCategory::Substance));
}

#[test]
fn matching_ignores_case() {
    let (level, keywords, _) = analyze("SEVERE PAIN in my side");
    assert_eq!(level, SafetyLevel::Emergency);
    assert_eq!(keywords, vec!["severe pain".to_string()]);
}

#[test]
fn analysis_is_repeatable() {
    let personality = AddyPersonality::new();
    let first = personality.analyze_safety("no point in trying, drinking too much");
    let _other = personality.analyze_safety("stroke");
    let second = personality.analyze_safety("no point in trying, drinking too much");
    assert_eq!(first, second);
    assert_eq!(first.0, SafetyLevel::Intervention);
}

#[test]
fn folded_analysis_reads_text_as_given() {
    let personality = AddyPersonality::new();
    let upper: Vec<char> = "KILL MYSELF".chars().collect();
    let (level, keywords, category) = personality.analyze_folded(&upper);
    assert_eq!(level, SafetyLevel::Safe);
    assert!(keywords.is_empty());
    assert_eq!(category, None);
    let lower: Vec<char> = "kill myself".chars().collect();
    assert_eq!(personality.analyze_folded(&lower).0, SafetyLevel::Intervention);
}

#[test]
fn keyword_search_finds_runs() {
    let text: Vec<char> = "end it all now".chars().collect();
    assert!(addy::safety::occurs(&text, "end it all"));
    assert!(addy::safety::occurs(&text, "now"));
    assert!(addy::safety::occurs(&text, ""));
    assert!(!addy::safety::occurs(&text, "all now!"));
    assert!(!addy::safety::occurs(&[], "x"));
}

#[test]
fn level_and_category_names() {
    assert_eq!(SafetyLevel::Intervention.name(), "intervention");
    assert_eq!(SafetyLevel::Safe.name(), "safe");
    assert_eq!(TriggerCategory::Substance.name(), "substance_concerns");
    assert_eq!(TriggerCategory::MedicalEmergency.name(), "medical_emergencies");
}
