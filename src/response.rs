use vstd::prelude::*;
use vstd::string::*;
use crate::prompt::ConversationContext;
use crate::safety::{AddyPersonality, SafetyLevel, level_of, lower_of};

verus! {

/// The register a reply is written in.
#[derive(Clone, Copy, Debug, PartialEq, Eq, Structural)]
pub enum Tone {
    Supportive,
    GentleFirm,
    Celebratory,
    Protective,
}

impl Tone {
    pub open spec fn spec_name(self) -> Seq<char> {
        match self {
            Tone::Supportive => "supportive"@,
            Tone::GentleFirm => "gentle_firm"@,
            Tone::Celebratory => "celebratory"@,
            Tone::Protective => "protective"@,
        }
    }

    /// The lower-case label of the tone.
    pub fn name(&self) -> (r: String)
        ensures
            r@ == self.spec_name(),
    {
        match self {
            Tone::Supportive => String::from_str("supportive"),
            Tone::GentleFirm => String::from_str("gentle_firm"),
            Tone::Celebratory => String::from_str("celebratory"),
            Tone::Protective => String::from_str("protective"),
        }
    }
}

/// A structured reply to the user.
pub struct AddyResponse {
    pub message: String,
    pub safety_level: SafetyLevel,
    pub suggested_actions: Option<Vec<String>>,
    pub resources: Option<Vec<String>>,
    pub follow_up_needed: bool,
    pub tone: Tone,
}

/// Why a reply could not be produced.
#[derive(Debug)]
pub enum GenerationError {
    /// No model has been loaded successfully yet.
    NotInitialized,
    /// The lock around the engine state could not be taken.
    Lock(String),
    /// The inference capability failed.
    Inference(String),
}

pub open spec fn tone_for(level: SafetyLevel) -> Tone {
    match level {
        SafetyLevel::Intervention | SafetyLevel::Emergency => Tone::Protective,
        SafetyLevel::Concern => Tone::GentleFirm,
        SafetyLevel::Safe => Tone::Supportive,
    }
}

/// The crisis lines offered with every reply that is not `Safe`.
pub open spec fn crisis_resources() -> Seq<Seq<char>> {
    seq!["Crisis Text Line: Text HOME to 741741"@, "988 Suicide & Crisis Lifeline"@]
}

/// The action suggested with every reply that is not `Safe`.
pub open spec fn support_actions() -> Seq<Seq<char>> {
    seq!["Consider reaching out for support"@]
}

/// The reply given while no real inference is wired in: it echoes the message
/// and the classified level.
pub open spec fn placeholder_text(user_message: Seq<char>, level: SafetyLevel) -> Seq<char> {
    "I hear you saying: '"@ + user_message
        + "'. I'm processing this with my personality engine (safety level: "@
        + level.spec_name()
        + ") and will have my full Candle-powered brain working soon! \u{1F916}\u{1F49C}"@
}

/// `r` carries `message` and the tone, resources, actions and follow-up flag
/// that `level` calls for.
pub open spec fn shaped(r: &AddyResponse, level: SafetyLevel, message: Seq<char>) -> bool {
    &&& r.message@ == message
    &&& r.safety_level == level
    &&& r.tone == tone_for(level)
    &&& r.follow_up_needed == (level != SafetyLevel::Safe)
    &&& match &r.resources {
        Some(v) => level != SafetyLevel::Safe && v.deep_view() == crisis_resources(),
        None => level == SafetyLevel::Safe,
    }
    &&& match &r.suggested_actions {
        Some(v) => level != SafetyLevel::Safe && v.deep_view() == support_actions(),
        None => level == SafetyLevel::Safe,
    }
}

/// Wraps a reply text into a response for a message classified as `level`.
pub fn shape_response(level: SafetyLevel, message: String) -> (r: AddyResponse)
    ensures
        shaped(&r, level, message@),
{
    let tone = match level {
        SafetyLevel::Intervention | SafetyLevel::Emergency => Tone::Protective,
        SafetyLevel::Concern => Tone::GentleFirm,
        SafetyLevel::Safe => Tone::Supportive,
    };
    let flagged = level != SafetyLevel::Safe;
    let resources = if flagged {
        let v = vec![
            String::from_str("Crisis Text Line: Text HOME to 741741"),
            String::from_str("988 Suicide & Crisis Lifeline"),
        ];
        assert(v.deep_view() =~= crisis_resources());
        Some(v)
    } else {
        None
    };
    let suggested_actions = if flagged {
        let v = vec![String::from_str("Consider reaching out for support")];
        assert(v.deep_view() =~= support_actions());
        Some(v)
    } else {
        None
    };
    AddyResponse {
        message,
        safety_level: level,
        suggested_actions,
        resources,
        follow_up_needed: flagged,
        tone,
    }
}

/// The placeholder reply text for a message classified as `level`.
pub fn placeholder_reply(user_message: &str, level: SafetyLevel) -> (r: String)
    ensures
        r@ == placeholder_text(user_message@, level),
{
    let mut text = String::from_str("I hear you saying: '");
    text.append(user_message);
    text.append("'. I'm processing this with my personality engine (safety level: ");
    let level_name = level.name();
    text.append(level_name.as_str());
    text.append(
        ") and will have my full Candle-powered brain working soon! \u{1F916}\u{1F49C}",
    );
    text
}

/// The response to a context whose message has been classified as `level`.
pub fn response_for(context: &ConversationContext, level: SafetyLevel) -> (r: AddyResponse)
    ensures
        shaped(&r, level, placeholder_text(context.user_message@, level)),
{
    let message = placeholder_reply(context.user_message.as_str(), level);
    shape_response(level, message)
}

/// The response to a context: its message is classified, and the reply is
/// shaped by the resulting level.
pub fn generate_response_impl(context: &ConversationContext, personality: &AddyPersonality) -> (r:
    AddyResponse)
    requires
        personality.wf(),
    ensures
        shaped(
            &r,
            level_of(lower_of(context.user_message@)),
            placeholder_text(context.user_message@, level_of(lower_of(context.user_message@))),
        ),
{
    let (level, _keywords, _category) = personality.analyze_safety(context.user_message.as_str());
    response_for(context, level)
}

/// The outcome of a generation request, given the readiness seen when the
/// request started: `NotInitialized` unless a model is ready.
pub fn generation_outcome(
    ready: bool,
    context: &ConversationContext,
    personality: &AddyPersonality,
) -> (r: Result<AddyResponse, GenerationError>)
    requires
        personality.wf(),
    ensures
        !ready ==> r is Err && r->Err_0 is NotInitialized,
        ready ==> r is Ok && shaped(
            &r->Ok_0,
            level_of(lower_of(context.user_message@)),
            placeholder_text(context.user_message@, level_of(lower_of(context.user_message@))),
        ),
{
    if !ready {
        return Err(GenerationError::NotInitialized);
    }
    Ok(generate_response_impl(context, personality))
}

} // verus!
