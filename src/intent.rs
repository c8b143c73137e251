use vstd::prelude::*;
use crate::text::{chars_of, contains, contains_seq, lower_of, lowercase};

verus! {

/// The category of a directive, which decides the tier that handles it.
#[derive(Clone, Copy, Debug, PartialEq, Eq, Structural)]
pub enum Intent {
    QuickAction,
    Strategy,
    Unknown,
}

/// Inputs with fewer characters than this count as short by default.
pub const DEFAULT_SHORT_THRESHOLD: usize = 50;

/// Some pattern of `pats` occurs in `text`.
pub open spec fn contains_any(text: Seq<char>, pats: Seq<Seq<char>>) -> bool {
    exists|j: int| 0 <= j < pats.len() && contains_seq(text, #[trigger] pats[j])
}

/// The classification rules, in order of precedence: a strategy keyword wins,
/// then a short input or an interrogative marker gives a quick action, and
/// anything else is unknown. Matching is done on the lower-cased text.
pub open spec fn intent_of(
    input_len: nat,
    lowered: Seq<char>,
    keywords: Seq<Seq<char>>,
    markers: Seq<Seq<char>>,
    threshold: nat,
) -> Intent {
    if contains_any(lowered, keywords) {
        Intent::Strategy
    } else if input_len < threshold || contains_any(lowered, markers) {
        Intent::QuickAction
    } else {
        Intent::Unknown
    }
}

pub open spec fn views_of(v: Seq<String>) -> Seq<Seq<char>> {
    v.map_values(|s: String| s@)
}

/// The keywords of deliberate, multi-step work.
pub open spec fn default_keywords() -> Seq<Seq<char>> {
    seq![
        "plan"@,
        "strategy"@,
        "analyze"@,
        "build architecture"@,
        "design"@,
        "roadmap"@,
        "approach"@,
    ]
}

/// The interrogative markers of a quick question.
pub open spec fn default_markers() -> Seq<Seq<char>> {
    seq!["what"@, "how"@]
}

/// Rule-based classifier whose keyword sets and length threshold are data.
pub struct IntentClassifier {
    pub strategy_keywords: Vec<String>,
    pub interrogatives: Vec<String>,
    pub short_threshold: usize,
}

impl IntentClassifier {
    pub open spec fn keywords(&self) -> Seq<Seq<char>> {
        views_of(self.strategy_keywords@)
    }

    pub open spec fn markers(&self) -> Seq<Seq<char>> {
        views_of(self.interrogatives@)
    }

    /// The intent of `input`, given its lower-cased copy `lowered`.
    pub open spec fn spec_classify(&self, input: Seq<char>, lowered: Seq<char>) -> Intent {
        intent_of(input.len(), lowered, self.keywords(), self.markers(), self.short_threshold as nat)
    }

    /// The classifier with the default keyword sets and threshold.
    pub fn new() -> (r: IntentClassifier)
        ensures
            r.keywords() == default_keywords(),
            r.markers() == default_markers(),
            r.short_threshold == DEFAULT_SHORT_THRESHOLD,
    {
        let strategy_keywords = vec![
            String::from_str("plan"),
            String::from_str("strategy"),
            String::from_str("analyze"),
            String::from_str("build architecture"),
            String::from_str("design"),
            String::from_str("roadmap"),
            String::from_str("approach"),
        ];
        let interrogatives = vec![String::from_str("what"), String::from_str("how")];
        let r = IntentClassifier {
            strategy_keywords,
            interrogatives,
            short_threshold: DEFAULT_SHORT_THRESHOLD,
        };
        assert(r.keywords() =~= default_keywords());
        assert(r.markers() =~= default_markers());
        r
    }

    /// Classifies `input`, whose lower-cased copy is `lowered`.
    pub fn classify_lowered(&self, input: &str, lowered: &str) -> (r: Intent)
        ensures
            r == self.spec_classify(input@, lowered@),
    {
        let text = chars_of(lowered);
        if any_occurs(&text, &self.strategy_keywords) {
            Intent::Strategy
        } else if input.unicode_len() < self.short_threshold || any_occurs(
            &text,
            &self.interrogatives,
        ) {
            Intent::QuickAction
        } else {
            Intent::Unknown
        }
    }

    /// Classifies `input` by case-insensitive matching on a lower-cased copy.
    pub fn classify(&self, input: &str) -> (r: Intent)
        ensures
            r == self.spec_classify(input@, lower_of(input@)),
    {
        let lowered = lowercase(input);
        self.classify_lowered(input, lowered.as_str())
    }
}

/// Whether some pattern of `pats` occurs in `text`.
fn any_occurs(text: &Vec<char>, pats: &Vec<String>) -> (r: bool)
    ensures
        r == contains_any(text@, views_of(pats@)),
{
    let mut j: usize = 0;
    while j < pats.len()
        invariant
            j <= pats@.len(),
            forall|k: int| 0 <= k < j ==> !contains_seq(text@, #[trigger] views_of(pats@)[k]),
        decreases pats@.len() - j,
    {
        let pat = chars_of(pats[j].as_str());
        if contains(text, &pat) {
            assert(contains_seq(text@, views_of(pats@)[j as int]));
            return true;
        }
        j = j + 1;
    }
    false
}

/// Classifies `input` with the default keyword sets and threshold.
pub fn classify_intent(input: &str) -> (r: Intent)
    ensures
        r == intent_of(
            input@.len(),
            lower_of(input@),
            default_keywords(),
            default_markers(),
            DEFAULT_SHORT_THRESHOLD as nat,
        ),
{
    let classifier = IntentClassifier::new();
    classifier.classify(input)
}

/// An input whose lower-cased copy holds any configured strategy keyword is
/// classified as `Strategy`, whatever its length or other words.
pub proof fn law_keyword_gives_strategy(c: &IntentClassifier, input: Seq<char>, j: int)
    requires
        0 <= j < c.keywords().len(),
        contains_seq(lower_of(input), c.keywords()[j]),
    ensures
        c.spec_classify(input, lower_of(input)) == Intent::Strategy,
{
}

/// An input shorter than the threshold that holds no strategy keyword is
/// classified as `QuickAction`.
pub proof fn law_short_input_gives_quick_action(c: &IntentClassifier, input: Seq<char>)
    requires
        input.len() < c.short_threshold,
        !contains_any(lower_of(input), c.keywords()),
    ensures
        c.spec_classify(input, lower_of(input)) == Intent::QuickAction,
{
}

/// Classification depends on the characters of the input alone: equal
/// inputs get equal intents.
pub proof fn law_classification_deterministic(c: &IntentClassifier, a: Seq<char>, b: Seq<char>)
    requires
        a == b,
    ensures
        c.spec_classify(a, lower_of(a)) == c.spec_classify(b, lower_of(b)),
{
}

} // verus!
