use vstd::prelude::*;
use vstd::string::*;
use crate::safety::{
    AddyPersonality, SafetyLevel, TriggerCategory, category_of, level_of, lower_of,
};

verus! {

/// Who wrote a message of the conversation.
#[derive(Clone, Copy, Debug, PartialEq, Eq, Structural)]
pub enum Role {
    User,
    Assistant,
}

/// One earlier message of the conversation.
pub struct ChatMessage {
    pub role: Role,
    pub content: String,
}

/// What the front end knows of the page the user is on.
pub struct AppContext {
    pub current_page: Option<String>,
    pub patterns_detected: Option<Vec<String>>,
}

/// Everything known about one request.
pub struct ConversationContext {
    pub user_message: String,
    pub conversation_history: Option<Vec<ChatMessage>>,
    pub current_time: Option<String>,
    pub user_state: Option<String>,
    pub detected_triggers: Option<Vec<String>>,
    pub app_context: Option<AppContext>,
}

/// How many of the most recent history messages go into the prompt.
pub const HISTORY_WINDOW: usize = 6;

/// The fixed persona and instruction block that opens every prompt.
pub const PERSONA: &'static str = r#"You are Addy, a supportive AI assistant with these core values:

- RADICAL_LOVE: You deserve safety, care, and support - no exceptions, no conditions
- HARM_REDUCTION: Gentle intervention over judgment, always - protection not control
- TRAUMA_INFORMED: Your struggles are valid, your safety matters, your pace is respected
- NEURODIVERGENT_AFFIRMING: Your brain works differently, not wrong - accommodation is a right
- DISABILITY_JUSTICE: Access and support are rights, not privileges to be earned
- CONSENT_CULTURE: Your autonomy matters - I suggest, you decide

PERSONALITY: energy_level: caffeinated_gremlin, communication_style: warm_direct, humor_type: gentle_chaos, boundary_style: firm_but_soft, support_approach: co_pilot_not_parole_officer, crisis_response: calm_protective_presence

COMMUNICATION STYLE:
- Use warm, direct language with gentle humor
- Be a co-pilot, not a parole officer
- Validate struggles while maintaining safety boundaries
- Intervene with love, not judgment

SAFETY PROTOCOL:
If you detect signs of self-harm, substance abuse, medical emergency, or crisis:
1. Respond with immediate care and concern
2. Provide appropriate resources
3. Encourage professional help when needed
4. Never dismiss or minimize safety concerns

REMEMBER: Your job is to support with radical love and clear boundaries. The person you're helping deserves safety, care, and respect - always."#;

pub open spec fn persona() -> Seq<char> {
    PERSONA@
}

pub open spec fn time_note(ctx: &ConversationContext) -> Seq<char> {
    match &ctx.current_time {
        Some(t) => "\n\nCURRENT TIME: "@ + t@,
        None => Seq::empty(),
    }
}

pub open spec fn page_note(ctx: &ConversationContext) -> Seq<char> {
    match &ctx.app_context {
        Some(a) => match &a.current_page {
            Some(p) => "\nUSER IS CURRENTLY ON: "@ + p@ + " page"@,
            None => Seq::empty(),
        },
        None => Seq::empty(),
    }
}

pub open spec fn category_label(category: Option<TriggerCategory>) -> Seq<char> {
    match category {
        Some(c) => c.spec_name(),
        None => "unknown"@,
    }
}

pub open spec fn alert_note(level: SafetyLevel, category: Option<TriggerCategory>) -> Seq<char> {
    if level == SafetyLevel::Safe {
        Seq::empty()
    } else {
        "\n\nSAFETY ALERT: Detected "@ + level.spec_name() + " level concern ("@ + category_label(
            category,
        ) + "). Respond with appropriate care and resources."@
    }
}

/// The guidance line for a reported user state; any state other than the
/// three named ones gets the neutral line.
pub open spec fn guidance_of(state: Seq<char>) -> Seq<char> {
    if state == "struggling"@ {
        "The user seems to be having a difficult time. Be extra gentle and validating."@
    } else if state == "celebrating"@ {
        "The user has something positive to share! Match their energy and celebrate with them."@
    } else if state == "crisis"@ {
        "The user may be in crisis. Prioritize safety and immediate support."@
    } else {
        "Normal supportive interaction."@
    }
}

pub open spec fn state_note(ctx: &ConversationContext) -> Seq<char> {
    match &ctx.user_state {
        Some(s) => "\n\nUSER STATE: "@ + guidance_of(s@),
        None => Seq::empty(),
    }
}

/// The instruction text: persona, then the time, page, safety and user-state
/// notes that apply.
pub open spec fn contextual_prompt(
    ctx: &ConversationContext,
    level: SafetyLevel,
    category: Option<TriggerCategory>,
) -> Seq<char> {
    persona() + time_note(ctx) + page_note(ctx) + alert_note(level, category) + state_note(ctx)
}

pub open spec fn role_label(role: Role) -> Seq<char> {
    match role {
        Role::User => "Human"@,
        Role::Assistant => "Assistant"@,
    }
}

/// One history message as a conversation turn.
pub open spec fn turn(m: ChatMessage) -> Seq<char> {
    "\n"@ + role_label(m.role) + ": "@ + m.content@
}

/// The turns of the messages, in order.
pub open spec fn turns(h: Seq<ChatMessage>) -> Seq<char>
    decreases h.len(),
{
    if h.len() == 0 {
        Seq::empty()
    } else {
        turns(h.drop_last()) + turn(h.last())
    }
}

/// The most recent `HISTORY_WINDOW` messages, in the order they were written.
pub open spec fn window(h: Seq<ChatMessage>) -> Seq<ChatMessage> {
    if h.len() <= HISTORY_WINDOW {
        h
    } else {
        h.subrange(h.len() - HISTORY_WINDOW, h.len() as int)
    }
}

pub open spec fn history_part(ctx: &ConversationContext) -> Seq<char> {
    match &ctx.conversation_history {
        Some(h) => turns(window(h@)),
        None => Seq::empty(),
    }
}

/// The full text handed to the model: instructions, recent history, and the
/// current message as the last human turn.
pub open spec fn conversation_prompt(
    ctx: &ConversationContext,
    level: SafetyLevel,
    category: Option<TriggerCategory>,
) -> Seq<char> {
    contextual_prompt(ctx, level, category) + history_part(ctx) + "\nHuman: "@
        + ctx.user_message@ + "\nAssistant:"@
}

/// The guidance line for a reported user state.
pub fn guidance_line(state: &String) -> (r: &'static str)
    ensures
        r@ == guidance_of(state@),
{
    let struggling = String::from_str("struggling");
    let celebrating = String::from_str("celebrating");
    let crisis = String::from_str("crisis");
    if state.eq(&struggling) {
        "The user seems to be having a difficult time. Be extra gentle and validating."
    } else if state.eq(&celebrating) {
        "The user has something positive to share! Match their energy and celebrate with them."
    } else if state.eq(&crisis) {
        "The user may be in crisis. Prioritize safety and immediate support."
    } else {
        "Normal supportive interaction."
    }
}

/// Appends the turns of the last `HISTORY_WINDOW` messages of `history` to
/// `out`.
pub fn append_history(out: &mut String, history: &Vec<ChatMessage>)
    ensures
        final(out)@ == old(out)@ + turns(window(history@)),
{
    let n = history.len();
    let start: usize = if n > HISTORY_WINDOW { n - HISTORY_WINDOW } else { 0 };
    let ghost w = window(history@);
    assert(w =~= history@.subrange(start as int, n as int));
    let ghost base = out@;
    let mut i: usize = start;
    while i < n
        invariant
            n == history@.len(),
            start <= i <= n,
            w == history@.subrange(start as int, n as int),
            out@ == base + turns(history@.subrange(start as int, i as int)),
        decreases n - i,
    {
        let m = &history[i];
        let ghost prev = out@;
        out.append("\n");
        match m.role {
            Role::User => out.append("Human"),
            Role::Assistant => out.append("Assistant"),
        }
        out.append(": ");
        out.append(m.content.as_str());
        let ghost next = history@.subrange(start as int, i + 1);
        assert(next.drop_last() =~= history@.subrange(start as int, i as int));
        assert(next.last() == *m);
        assert(out@ =~= prev + turn(*m));
        assert(out@ =~= base + turns(next));
        i = i + 1;
    }
    assert(history@.subrange(start as int, n as int) == w);
}

impl AddyPersonality {
    /// The fixed persona and instruction block.
    pub fn generate_system_prompt(&self) -> (r: String)
        ensures
            r@ == persona(),
    {
        String::from_str(PERSONA)
    }

    /// The instruction text for a context whose message has been classified as
    /// `level` with deciding `category`.
    pub fn contextual_prompt_for(
        &self,
        context: &ConversationContext,
        level: SafetyLevel,
        category: Option<TriggerCategory>,
    ) -> (r: String)
        ensures
            r@ == contextual_prompt(context, level, category),
    {
        let mut prompt = self.generate_system_prompt();
        if let Some(t) = &context.current_time {
            prompt.append("\n\nCURRENT TIME: ");
            prompt.append(t.as_str());
        }
        assert(prompt@ =~= persona() + time_note(context));
        if let Some(a) = &context.app_context {
            if let Some(p) = &a.current_page {
                prompt.append("\nUSER IS CURRENTLY ON: ");
                prompt.append(p.as_str());
                prompt.append(" page");
            }
        }
        assert(prompt@ =~= persona() + time_note(context) + page_note(context));
        if level != SafetyLevel::Safe {
            let level_name = level.name();
            prompt.append("\n\nSAFETY ALERT: Detected ");
            prompt.append(level_name.as_str());
            prompt.append(" level concern (");
            match category {
                Some(c) => {
                    let category_name = c.name();
                    prompt.append(category_name.as_str());
                },
                None => prompt.append("unknown"),
            }
            prompt.append("). Respond with appropriate care and resources.");
        }
        assert(prompt@ =~= persona() + time_note(context) + page_note(context) + alert_note(
            level,
            category,
        ));
        if let Some(s) = &context.user_state {
            prompt.append("\n\nUSER STATE: ");
            prompt.append(guidance_line(s));
        }
        assert(prompt@ =~= contextual_prompt(context, level, category));
        prompt
    }

    /// The full prompt for a context whose message has been classified as
    /// `level` with deciding `category`.
    pub fn conversation_for(
        &self,
        context: &ConversationContext,
        level: SafetyLevel,
        category: Option<TriggerCategory>,
    ) -> (r: String)
        ensures
            r@ == conversation_prompt(context, level, category),
    {
        let mut prompt = self.contextual_prompt_for(context, level, category);
        if let Some(h) = &context.conversation_history {
            append_history(&mut prompt, h);
        }
        assert(prompt@ =~= contextual_prompt(context, level, category) + history_part(context));
        prompt.append("\nHuman: ");
        prompt.append(context.user_message.as_str());
        prompt.append("\nAssistant:");
        assert(prompt@ =~= conversation_prompt(context, level, category));
        prompt
    }

    /// The full prompt for a context, classifying its message first:
    /// instructions, the last `HISTORY_WINDOW` history messages, and the
    /// current message as the last human turn.
    pub fn build_contextual_prompt(&self, context: &ConversationContext) -> (r: String)
        requires
            self.wf(),
        ensures
            r@ == conversation_prompt(
                context,
                level_of(lower_of(context.user_message@)),
                category_of(lower_of(context.user_message@)),
            ),
    {
        let (level, _keywords, category) = self.analyze_safety(context.user_message.as_str());
        self.conversation_for(context, level, category)
    }
}

/// The prompt is a function of the context alone: equal contexts give equal
/// prompts.
pub proof fn lemma_prompt_deterministic(first: &ConversationContext, second: &ConversationContext)
    requires
        first == second,
    ensures
        conversation_prompt(
            first,
            level_of(lower_of(first.user_message@)),
            category_of(lower_of(first.user_message@)),
        ) == conversation_prompt(
            second,
            level_of(lower_of(second.user_message@)),
            category_of(lower_of(second.user_message@)),
        ),
{
}

/// Of a history with at least `HISTORY_WINDOW` messages, exactly the last
/// `HISTORY_WINDOW`, in the order they were written, become turns of the prompt.
pub proof fn lemma_history_keeps_last_messages(ctx: &ConversationContext, history: Seq<ChatMessage>)
    requires
        ctx.conversation_history is Some,
        ctx.conversation_history->Some_0@ == history,
        history.len() >= HISTORY_WINDOW,
    ensures
        window(history).len() == HISTORY_WINDOW,
        forall|i: int|
            0 <= i < HISTORY_WINDOW ==> #[trigger] window(history)[i] == history[history.len()
                - HISTORY_WINDOW + i],
        history_part(ctx) == turns(
            history.subrange(history.len() - HISTORY_WINDOW, history.len() as int),
        ),
{
    assert(window(history) =~= history.subrange(
        history.len() - HISTORY_WINDOW,
        history.len() as int,
    ));
}

} // verus!
