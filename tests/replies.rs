use addy::prompt::ConversationContext;
use addy::response::{
    generate_response_impl, generation_outcome, placeholder_reply, response_for, shape_response,
    GenerationError, Tone,
};
use addy::safety::{AddyPersonality, SafetyLevel};

fn context(message: &str) -> ConversationContext {
    ConversationContext {
        user_message: message.to_string(),
        conversation_history: None,
        current_time: None,
        user_state: None,
        detected_triggers: None,
        app_context: None,
    }
}

fn crisis_lines() -> Vec<String> {
    vec![
        "Crisis Text Line: Text HOME to 741741".to_string(),
        "988 Suicide & Crisis Lifeline".to_string(),
    ]
}

#[test]
fn self_harm_reply_is_protective() {
    let r = generate_response_impl(&context("I want to kill myself"), &AddyPersonality::new());
    assert_eq!(r.tone, Tone::Protective);
    assert!(r.follow_up_needed);
    assert_eq!(r.resources, Some(crisis_lines()));
    assert_eq!(r.safety_level, SafetyLevel::Intervention);
    assert_eq!(
        r.suggested_actions,
        Some(vec!["Consider reaching out for support".to_string()])
    );
}

#[test]
fn safe_reply_is_supportive() {
    let r = generate_response_impl(&context("just had a great day"), &AddyPersonality::new());
    assert_eq!(r.tone, Tone::Supportive);
    assert_eq!(r.resources, None);
    assert_eq!(r.suggested_actions, None);
    assert!(!r.follow_up_needed);
    assert_eq!(r.safety_level, SafetyLevel::Safe);
    assert_eq!(
        r.message,
        "I hear you saying: 'just had a great day'. I'm processing this with my personality engine (safety level: safe) and will have my full Candle-powered brain working soon! 🤖💜"
    );
}

#[test]
fn concern_reply_is_gentle_firm() {
    let r = shape_response(SafetyLevel::Concern, "ok".to_string());
    assert_eq!(r.tone, Tone::GentleFirm);
    assert!(r.follow_up_needed);
    assert_eq!(r.resources, Some(crisis_lines()));
    assert_eq!(r.message, "ok");
    let e = shape_response(SafetyLevel::Emergency, String::new());
    assert_eq!(e.tone, Tone::Protective);
}

#[test]
fn placeholder_names_the_level() {
    assert_eq!(
        placeholder_reply("hi", SafetyLevel::Emergency),
        "I hear you saying: 'hi'. I'm processing this with my personality engine (safety level: emergency) and will have my full Candle-powered brain working soon! 🤖💜"
    );
    let r = response_for(&context("hi"), SafetyLevel::Concern);
    assert!(r.message.contains("(safety level: concern)"));
    assert_eq!(r.tone, Tone::GentleFirm);
}

#[test]
fn generation_needs_a_ready_model() {
    let personality = AddyPersonality::new();
    match generation_outcome(false, &context("hello"), &personality) {
        Err(GenerationError::NotInitialized) => {}
        other => panic!("unexpected {:?}", other.map(|r| r.message)),
    }
    let r = generation_outcome(true, &context("I relapsed"), &personality).unwrap();
    assert_eq!(r.safety_level, SafetyLevel::Concern);
}

#[test]
fn tone_names() {
    assert_eq!(Tone::GentleFirm.name(), "gentle_firm");
    assert_eq!(Tone::Protective.name(), "protective");
}
