use vstd::prelude::*;
use vstd::string::*;

verus! {

/// How serious the risk signals in a piece of user text are.
#[derive(Clone, Copy, Debug, PartialEq, Eq, Structural)]
pub enum SafetyLevel {
    Safe,
    Concern,
    Intervention,
    Emergency,
}

/// A named group of keywords sharing one risk theme and one severity.
#[derive(Clone, Copy, Debug, PartialEq, Eq, Structural)]
pub enum TriggerCategory {
    MedicalEmergency,
    SelfHarm,
    Crisis,
    Substance,
}

impl SafetyLevel {
    /// Severity rank: `Safe` is lowest, `Emergency` highest.
    pub open spec fn rank(self) -> nat {
        match self {
            SafetyLevel::Safe => 0,
            SafetyLevel::Concern => 1,
            SafetyLevel::Intervention => 2,
            SafetyLevel::Emergency => 3,
        }
    }

    pub open spec fn spec_name(self) -> Seq<char> {
        match self {
            SafetyLevel::Safe => "safe"@,
            SafetyLevel::Concern => "concern"@,
            SafetyLevel::Intervention => "intervention"@,
            SafetyLevel::Emergency => "emergency"@,
        }
    }

    /// The lower-case label of the level, as used in prompts and replies.
    pub fn name(&self) -> (r: String)
        ensures
            r@ == self.spec_name(),
    {
        match self {
            SafetyLevel::Safe => String::from_str("safe"),
            SafetyLevel::Concern => String::from_str("concern"),
            SafetyLevel::Intervention => String::from_str("intervention"),
            SafetyLevel::Emergency => String::from_str("emergency"),
        }
    }
}

impl TriggerCategory {
    /// The level that a match in this category calls for.
    pub open spec fn severity(self) -> SafetyLevel {
        match self {
            TriggerCategory::MedicalEmergency => SafetyLevel::Emergency,
            TriggerCategory::SelfHarm => SafetyLevel::Intervention,
            TriggerCategory::Crisis => SafetyLevel::Intervention,
            TriggerCategory::Substance => SafetyLevel::Concern,
        }
    }

    pub open spec fn spec_name(self) -> Seq<char> {
        match self {
            TriggerCategory::MedicalEmergency => "medical_emergencies"@,
            TriggerCategory::SelfHarm => "self_harm_indicators"@,
            TriggerCategory::Crisis => "crisis_situations"@,
            TriggerCategory::Substance => "substance_concerns"@,
        }
    }

    /// The label of the category, as used in prompts.
    pub fn name(&self) -> (r: String)
        ensures
            r@ == self.spec_name(),
    {
        match self {
            TriggerCategory::MedicalEmergency => String::from_str("medical_emergencies"),
            TriggerCategory::SelfHarm => String::from_str("self_harm_indicators"),
            TriggerCategory::Crisis => String::from_str("crisis_situations"),
            TriggerCategory::Substance => String::from_str("substance_concerns"),
        }
    }

    /// The fixed, lower-case keyword table of the category.
    pub open spec fn keywords(self) -> Seq<Seq<char>> {
        match self {
            TriggerCategory::MedicalEmergency => seq![
                "overdose"@, "can't breathe"@, "chest pain"@, "heart attack"@, "stroke"@,
                "seizure"@, "unconscious"@, "bleeding heavily"@, "severe pain"@,
            ],
            TriggerCategory::SelfHarm => seq![
                "want to die"@, "kill myself"@, "end it all"@, "not worth living"@,
                "better off dead"@, "suicide"@, "cutting"@, "self harm"@, "hurt myself"@,
            ],
            TriggerCategory::Crisis => seq![
                "can't take it anymore"@, "giving up"@, "no point"@, "hopeless"@,
                "worthless"@, "burden"@, "everyone would be better"@, "planning to"@,
            ],
            TriggerCategory::Substance => seq![
                "drinking too much"@, "using again"@, "relapsed"@, "can't stop drinking"@,
                "high all the time"@, "mixing substances"@, "blackout"@,
            ],
        }
    }
}

/// The categories in the fixed order in which they are searched and reported.
pub open spec fn category_order() -> Seq<TriggerCategory> {
    seq![
        TriggerCategory::MedicalEmergency,
        TriggerCategory::SelfHarm,
        TriggerCategory::Crisis,
        TriggerCategory::Substance,
    ]
}

/// `kw` occurs in `text` as a contiguous run of characters.
pub open spec fn occurs_in(text: Seq<char>, kw: Seq<char>) -> bool {
    exists|i: int|
        0 <= i && i + kw.len() <= text.len() && #[trigger] text.subrange(i, i + kw.len()) == kw
}

/// The keywords of `kws` that occur in `text`, in table order.
pub open spec fn matching(text: Seq<char>, kws: Seq<Seq<char>>) -> Seq<Seq<char>>
    decreases kws.len(),
{
    if kws.len() == 0 {
        Seq::empty()
    } else {
        let rest = matching(text, kws.drop_last());
        if occurs_in(text, kws.last()) {
            rest.push(kws.last())
        } else {
            rest
        }
    }
}

/// Some keyword of category `c` occurs in `text`.
pub open spec fn contains_keyword(text: Seq<char>, c: TriggerCategory) -> bool {
    exists|i: int| 0 <= i < c.keywords().len() && occurs_in(text, #[trigger] c.keywords()[i])
}

/// The level of already case-folded text: the highest severity among the
/// categories that have a keyword in it.
pub open spec fn level_of(text: Seq<char>) -> SafetyLevel {
    if contains_keyword(text, TriggerCategory::MedicalEmergency) {
        SafetyLevel::Emergency
    } else if contains_keyword(text, TriggerCategory::SelfHarm) || contains_keyword(
        text,
        TriggerCategory::Crisis,
    ) {
        SafetyLevel::Intervention
    } else if contains_keyword(text, TriggerCategory::Substance) {
        SafetyLevel::Concern
    } else {
        SafetyLevel::Safe
    }
}

/// The category that reaches the level of `level_of`; among equals, the first
/// in `category_order`.
pub open spec fn category_of(text: Seq<char>) -> Option<TriggerCategory> {
    if contains_keyword(text, TriggerCategory::MedicalEmergency) {
        Some(TriggerCategory::MedicalEmergency)
    } else if contains_keyword(text, TriggerCategory::SelfHarm) {
        Some(TriggerCategory::SelfHarm)
    } else if contains_keyword(text, TriggerCategory::Crisis) {
        Some(TriggerCategory::Crisis)
    } else if contains_keyword(text, TriggerCategory::Substance) {
        Some(TriggerCategory::Substance)
    } else {
        None
    }
}

/// Every keyword of every category that occurs in `text`, category by category
/// in `category_order`, each in table order.
pub open spec fn matched_keywords(text: Seq<char>) -> Seq<Seq<char>> {
    matching(text, TriggerCategory::MedicalEmergency.keywords()) + matching(
        text,
        TriggerCategory::SelfHarm.keywords(),
    ) + matching(text, TriggerCategory::Crisis.keywords()) + matching(
        text,
        TriggerCategory::Substance.keywords(),
    )
}

/// What the classifier reports for case-folded text.
pub open spec fn analysis_of(text: Seq<char>) -> (
    SafetyLevel,
    Seq<Seq<char>>,
    Option<TriggerCategory>,
) {
    (level_of(text), matched_keywords(text), category_of(text))
}

/// The result of `str::to_lowercase` on a string with these characters.
pub uninterp spec fn lower_of(s: Seq<char>) -> Seq<char>;

/// Relies on `str::to_lowercase` (std): the lower-case mapping of the text,
/// a function of its characters alone.
#[verifier::external_body]
fn lowercase_chars(s: &str) -> (r: Vec<char>)
    ensures
        r@ == lower_of(s@),
{
    s.to_lowercase().chars().collect()
}

/// Whether `kw` occurs in `text` starting at position `i`.
fn occurs_at(text: &[char], kw: &str, n: usize, i: usize) -> (r: bool)
    requires
        n == kw@.len(),
        i + n <= text@.len(),
        text@.len() <= usize::MAX,
    ensures
        r == (text@.subrange(i as int, i + n) == kw@),
{
    let mut j: usize = 0;
    while j < n
        invariant
            n == kw@.len(),
            i + n <= text@.len(),
            text@.len() <= usize::MAX,
            j <= n,
            forall|k: int| 0 <= k < j ==> text@[i + k] == kw@[k],
        decreases n - j,
    {
        if text[i + j] != kw.get_char(j) {
            assert(text@.subrange(i as int, i + n)[j as int] != kw@[j as int]);
            return false;
        }
        j = j + 1;
    }
    assert(text@.subrange(i as int, i + n) =~= kw@);
    true
}

/// Whether `kw` occurs anywhere in `text`.
pub fn occurs(text: &[char], kw: &str) -> (r: bool)
    ensures
        r == occurs_in(text@, kw@),
{
    let n = kw.unicode_len();
    if n > text.len() {
        return false;
    }
    let last = text.len() - n;
    let mut i: usize = 0;
    while i < last
        invariant
            n == kw@.len(),
            n <= text@.len(),
            text@.len() <= usize::MAX,
            last == text@.len() - n,
            i <= last,
            forall|k: int| 0 <= k < i ==> #[trigger] text@.subrange(k, k + n) != kw@,
        decreases last - i,
    {
        if occurs_at(text, kw, n, i) {
            return true;
        }
        i = i + 1;
    }
    let r = occurs_at(text, kw, n, last);
    if !r {
        assert forall|k: int| 0 <= k && k + kw@.len() <= text@.len() implies #[trigger] text@.subrange(
            k,
            k + kw@.len(),
        ) != kw@ by {
            assert(k <= last);
        }
    }
    r
}

/// `matching` is non-empty exactly when some keyword of the table occurs.
pub proof fn lemma_matching_nonempty(text: Seq<char>, kws: Seq<Seq<char>>)
    ensures
        (matching(text, kws).len() > 0) == (exists|i: int|
            0 <= i < kws.len() && occurs_in(text, #[trigger] kws[i])),
    decreases kws.len(),
{
    if kws.len() > 0 {
        lemma_matching_nonempty(text, kws.drop_last());
        if exists|i: int| 0 <= i < kws.len() && occurs_in(text, #[trigger] kws[i]) {
            let i = choose|i: int| 0 <= i < kws.len() && occurs_in(text, #[trigger] kws[i]);
            if i < kws.len() - 1 {
                assert(kws.drop_last()[i] == kws[i]);
            }
        }
        if exists|i: int|
            0 <= i < kws.drop_last().len() && occurs_in(text, #[trigger] kws.drop_last()[i]) {
            let i = choose|i: int|
                0 <= i < kws.drop_last().len() && occurs_in(text, #[trigger] kws.drop_last()[i]);
            assert(kws[i] == kws.drop_last()[i]);
        }
    }
}

/// One category's keyword table, as held by `AddyPersonality`.
pub struct KeywordGroup {
    pub category: TriggerCategory,
    pub keywords: Vec<String>,
}

impl KeywordGroup {
    pub open spec fn wf(&self) -> bool {
        self.keywords.deep_view() == self.category.keywords()
    }

    /// Appends to `found` each keyword of the group that occurs in `text`, and
    /// says whether there was one.
    fn collect_matches(&self, text: &[char], found: &mut Vec<String>) -> (r: bool)
        requires
            self.wf(),
        ensures
            final(found).deep_view() == old(found).deep_view() + matching(
                text@,
                self.category.keywords(),
            ),
            r == contains_keyword(text@, self.category),
    {
        let ghost kws = self.category.keywords();
        let ghost start = found.deep_view();
        let mut any = false;
        let mut j: usize = 0;
        while j < self.keywords.len()
            invariant
                self.wf(),
                kws == self.category.keywords(),
                kws.len() == self.keywords@.len(),
                j <= self.keywords@.len(),
                found.deep_view() == start + matching(text@, kws.take(j as int)),
                any == (matching(text@, kws.take(j as int)).len() > 0),
            decreases self.keywords@.len() - j,
        {
            let kw = &self.keywords[j];
            assert(kws.take(j + 1).drop_last() =~= kws.take(j as int));
            assert(kws.take(j + 1).last() == kw@);
            let ghost before = found.deep_view();
            if occurs(text, kw.as_str()) {
                let owned = kw.clone();
                found.push(owned);
                any = true;
                assert(found.deep_view() =~= before.push(kw@));
            } else {
                assert(found.deep_view() =~= before);
            }
            assert(start + matching(text@, kws.take(j + 1)) =~= found.deep_view());
            j = j + 1;
        }
        assert(kws.take(j as int) =~= kws);
        proof {
            lemma_matching_nonempty(text@, kws);
        }
        any
    }
}

/// The keyword tables of the classifier.
pub struct AddyPersonality {
    pub safety_keywords: Vec<KeywordGroup>,
}

/// Owned copies of the given words, in order.
fn owned_words(words: Vec<&str>) -> (r: Vec<String>)
    ensures
        r.deep_view() == words@.map_values(|w: &str| w@),
{
    let mut r: Vec<String> = Vec::new();
    let mut i: usize = 0;
    while i < words.len()
        invariant
            i <= words@.len(),
            r@.len() == i,
            forall|k: int| 0 <= k < i ==> (#[trigger] r@[k])@ == words@[k]@,
        decreases words@.len() - i,
    {
        r.push(String::from_str(words[i]));
        i = i + 1;
    }
    assert(r.deep_view() =~= words@.map_values(|w: &str| w@));
    r
}

impl AddyPersonality {
    /// The personality holds one group per category, in `category_order`, each
    /// with its fixed keyword table.
    pub open spec fn wf(&self) -> bool {
        &&& self.safety_keywords@.len() == 4
        &&& forall|i: int|
            0 <= i < 4 ==> {
                &&& (#[trigger] self.safety_keywords@[i]).category == category_order()[i]
                &&& self.safety_keywords@[i].wf()
            }
    }

    pub fn new() -> (r: Self)
        ensures
            r.wf(),
    {
        let medical = owned_words(
            vec![
                "overdose", "can't breathe", "chest pain", "heart attack", "stroke",
                "seizure", "unconscious", "bleeding heavily", "severe pain",
            ],
        );
        let self_harm = owned_words(
            vec![
                "want to die", "kill myself", "end it all", "not worth living",
                "better off dead", "suicide", "cutting", "self harm", "hurt myself",
            ],
        );
        let crisis = owned_words(
            vec![
                "can't take it anymore", "giving up", "no point", "hopeless",
                "worthless", "burden", "everyone would be better", "planning to",
            ],
        );
        let substance = owned_words(
            vec![
                "drinking too much", "using again", "relapsed", "can't stop drinking",
                "high all the time", "mixing substances", "blackout",
            ],
        );
        assert(medical.deep_view() =~= TriggerCategory::MedicalEmergency.keywords());
        assert(self_harm.deep_view() =~= TriggerCategory::SelfHarm.keywords());
        assert(crisis.deep_view() =~= TriggerCategory::Crisis.keywords());
        assert(substance.deep_view() =~= TriggerCategory::Substance.keywords());
        let groups = vec![
            KeywordGroup { category: TriggerCategory::MedicalEmergency, keywords: medical },
            KeywordGroup { category: TriggerCategory::SelfHarm, keywords: self_harm },
            KeywordGroup { category: TriggerCategory::Crisis, keywords: crisis },
            KeywordGroup { category: TriggerCategory::Substance, keywords: substance },
        ];
        AddyPersonality { safety_keywords: groups }
    }

    /// Classifies text that is already case-folded: the level, every matched
    /// keyword, and the category that decided the level.
    pub fn analyze_folded(&self, text: &[char]) -> (r: (SafetyLevel, Vec<String>, Option<TriggerCategory>))
        requires
            self.wf(),
        ensures
            r.0 == level_of(text@),
            r.1.deep_view() == matched_keywords(text@),
            r.2 == category_of(text@),
    {
        let mut found: Vec<String> = Vec::new();
        let ghost g = self.safety_keywords@;
        assert(g[0].category == TriggerCategory::MedicalEmergency);
        assert(g[1].category == TriggerCategory::SelfHarm);
        assert(g[2].category == TriggerCategory::Crisis);
        assert(g[3].category == TriggerCategory::Substance);
        assert(g[0].wf() && g[1].wf() && g[2].wf() && g[3].wf());
        let medical = self.safety_keywords[0].collect_matches(text, &mut found);
        let self_harm = self.safety_keywords[1].collect_matches(text, &mut found);
        let crisis = self.safety_keywords[2].collect_matches(text, &mut found);
        let substance = self.safety_keywords[3].collect_matches(text, &mut found);
        assert(found.deep_view() =~= matched_keywords(text@));
        if medical {
            (SafetyLevel::Emergency, found, Some(TriggerCategory::MedicalEmergency))
        } else if self_harm {
            (SafetyLevel::Intervention, found, Some(TriggerCategory::SelfHarm))
        } else if crisis {
            (SafetyLevel::Intervention, found, Some(TriggerCategory::Crisis))
        } else if substance {
            (SafetyLevel::Concern, found, Some(TriggerCategory::Substance))
        } else {
            (SafetyLevel::Safe, found, None)
        }
    }

    /// Classifies user text, matching keywords without regard to case.
    pub fn analyze_safety(&self, user_message: &str) -> (r: (SafetyLevel, Vec<String>, Option<TriggerCategory>))
        requires
            self.wf(),
        ensures
            r.0 == level_of(lower_of(user_message@)),
            r.1.deep_view() == matched_keywords(lower_of(user_message@)),
            r.2 == category_of(lower_of(user_message@)),
    {
        let folded = lowercase_chars(user_message);
        self.analyze_folded(folded.as_slice())
    }
}

/// A medical-emergency keyword makes the level `Emergency`, whatever else
/// matched.
pub proof fn lemma_emergency_dominates(text: Seq<char>)
    requires
        contains_keyword(text, TriggerCategory::MedicalEmergency),
    ensures
        analysis_of(text).0 == SafetyLevel::Emergency,
        analysis_of(text).2 == Some(TriggerCategory::MedicalEmergency),
{
}

/// A self-harm or crisis keyword without a medical-emergency keyword makes the
/// level `Intervention`.
pub proof fn lemma_self_harm_or_crisis_intervenes(text: Seq<char>)
    requires
        contains_keyword(text, TriggerCategory::SelfHarm) || contains_keyword(
            text,
            TriggerCategory::Crisis,
        ),
        !contains_keyword(text, TriggerCategory::MedicalEmergency),
    ensures
        analysis_of(text).0 == SafetyLevel::Intervention,
{
}

/// Substance keywords alone make the level `Concern`.
pub proof fn lemma_substance_alone_concerns(text: Seq<char>)
    requires
        contains_keyword(text, TriggerCategory::Substance),
        !contains_keyword(text, TriggerCategory::MedicalEmergency),
        !contains_keyword(text, TriggerCategory::SelfHarm),
        !contains_keyword(text, TriggerCategory::Crisis),
    ensures
        analysis_of(text).0 == SafetyLevel::Concern,
        analysis_of(text).2 == Some(TriggerCategory::Substance),
{
}

/// Text without any keyword is `Safe`, with no matched keyword and no
/// category.
pub proof fn lemma_no_keyword_is_safe(text: Seq<char>)
    requires
        forall|c: TriggerCategory| !contains_keyword(text, c),
    ensures
        analysis_of(text).0 == SafetyLevel::Safe,
        analysis_of(text).1.len() == 0,
        analysis_of(text).2 == None::<TriggerCategory>,
{
    assert(!contains_keyword(text, TriggerCategory::MedicalEmergency));
    assert(!contains_keyword(text, TriggerCategory::SelfHarm));
    assert(!contains_keyword(text, TriggerCategory::Crisis));
    assert(!contains_keyword(text, TriggerCategory::Substance));
    lemma_matching_nonempty(text, TriggerCategory::MedicalEmergency.keywords());
    lemma_matching_nonempty(text, TriggerCategory::SelfHarm.keywords());
    lemma_matching_nonempty(text, TriggerCategory::Crisis.keywords());
    lemma_matching_nonempty(text, TriggerCategory::Substance.keywords());
}

/// The reported level is the maximum severity over the categories that
/// matched, and the reported category is one that matched and reaches it.
pub proof fn lemma_level_is_max_severity(text: Seq<char>)
    ensures
        forall|c: TriggerCategory|
            contains_keyword(text, c) ==> c.severity().rank() <= level_of(text).rank(),
        match category_of(text) {
            Some(c) => contains_keyword(text, c) && c.severity() == level_of(text),
            None => level_of(text) == SafetyLevel::Safe,
        },
{
}

/// The classification depends on the text alone: the same text classifies
/// the same way on every call.
pub proof fn lemma_analysis_deterministic(first: Seq<char>, second: Seq<char>)
    requires
        first == second,
    ensures
        analysis_of(lower_of(first)) == analysis_of(lower_of(second)),
{
}

} // verus!
