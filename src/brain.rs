use vstd::prelude::*;
use crate::intent::{Intent, IntentClassifier, default_keywords, default_markers, DEFAULT_SHORT_THRESHOLD};
use crate::text::lower_of;

verus! {

/// Settings fixed at start-up and shared read-only by every request.
pub struct BrainConfig {
    pub fast_model: String,
    pub slow_model: String,
    pub memory_path: Option<String>,
    pub knowledge_path: Option<String>,
}

/// The dispatcher's answer to one directive.
#[derive(Clone, Debug)]
pub struct Response {
    pub intent: Intent,
    /// The tier that handled the directive.
    pub system: String,
    pub content: String,
    /// Filled by the deep tier only.
    pub reasoning_trace: Option<String>,
    /// Wall-clock duration of the whole dispatch, in whole milliseconds.
    pub latency_ms: u64,
}

/// The steps of the deep tier's pipeline, in the order in which they run.
#[derive(Clone, Copy, Debug, PartialEq, Eq, Structural)]
pub enum Stage {
    Classified,
    KnowledgeLoaded,
    Grounded,
    PlanGenerated,
}

impl Stage {
    /// Position of the step in the pipeline.
    pub open spec fn rank(self) -> nat {
        match self {
            Stage::Classified => 0,
            Stage::KnowledgeLoaded => 1,
            Stage::Grounded => 2,
            Stage::PlanGenerated => 3,
        }
    }
}

/// What a tier hands back: its label, its content and its reasoning trace.
pub type TierReply = (String, String, Option<String>);

pub open spec fn opt_view(o: Option<String>) -> Option<Seq<char>> {
    match o {
        Some(s) => Some(s@),
        None => None,
    }
}

pub open spec fn reply_view(r: TierReply) -> (Seq<char>, Seq<char>, Option<Seq<char>>) {
    (r.0@, r.1@, opt_view(r.2))
}

pub open spec fn fast_label() -> Seq<char> {
    "cortex"@
}

pub open spec fn deep_label() -> Seq<char> {
    "deep_mind"@
}

/// The fast tier's templated acknowledgement, without a trace.
pub open spec fn fast_reply(input: Seq<char>) -> (Seq<char>, Seq<char>, Option<Seq<char>>) {
    (fast_label(), "[FAST] Processed: "@ + input, None)
}

/// The stages that the deep tier goes through.
pub open spec fn deep_stages() -> Seq<Stage> {
    seq![Stage::Classified, Stage::KnowledgeLoaded, Stage::Grounded, Stage::PlanGenerated]
}

/// One line of the trace, numbered by its step in the pipeline.
pub open spec fn stage_line(st: Stage, knowledge: Option<Seq<char>>) -> Seq<char> {
    match st {
        Stage::Classified => "1. Intent classified as Strategy"@,
        Stage::KnowledgeLoaded => match knowledge {
            Some(p) => "2. Loaded knowledge from "@ + p,
            None => "2. Loading knowledge base"@,
        },
        Stage::Grounded => "3. Grounding against constitution"@,
        Stage::PlanGenerated => "4. Generated plan"@,
    }
}

/// The lines of `stages`, one per stage, separated by newlines.
pub open spec fn render_trace(stages: Seq<Stage>, knowledge: Option<Seq<char>>) -> Seq<char>
    decreases stages.len(),
{
    if stages.len() == 0 {
        Seq::empty()
    } else if stages.len() == 1 {
        stage_line(stages[0], knowledge)
    } else {
        render_trace(stages.drop_last(), knowledge) + "\n"@ + stage_line(stages.last(), knowledge)
    }
}

impl BrainConfig {
    pub open spec fn knowledge(&self) -> Option<Seq<char>> {
        opt_view(self.knowledge_path)
    }
}

/// The deep tier's analysis with its staged reasoning trace.
pub open spec fn deep_reply(config: BrainConfig, input: Seq<char>) -> (
    Seq<char>,
    Seq<char>,
    Option<Seq<char>>,
) {
    (
        deep_label(),
        "[DEEP] Analyzing strategy for: "@ + input,
        Some(render_trace(deep_stages(), config.knowledge())),
    )
}

/// The reply of the tier that `intent` routes to: strategy goes to the deep
/// tier, everything else to the fast tier.
pub open spec fn reply_for(config: BrainConfig, intent: Intent, input: Seq<char>) -> (
    Seq<char>,
    Seq<char>,
    Option<Seq<char>>,
) {
    match intent {
        Intent::Strategy => deep_reply(config, input),
        _ => fast_reply(input),
    }
}

/// A duration in milliseconds as a latency, saturating at the largest `u64`.
pub open spec fn latency_of(elapsed_ms: u128) -> u64 {
    if elapsed_ms > u64::MAX as u128 {
        u64::MAX
    } else {
        elapsed_ms as u64
    }
}

/// `r` answers `input`, classified as `intent`, with the reply of the tier
/// that the intent routes to.
pub open spec fn answers(r: Response, config: BrainConfig, intent: Intent, input: Seq<char>) -> bool {
    let reply = reply_for(config, intent, input);
    &&& r.intent == intent
    &&& r.system@ == reply.0
    &&& r.content@ == reply.1
    &&& opt_view(r.reasoning_trace) == reply.2
}

/// Classifies directives and routes each to the fast or the deep tier.
pub struct Brain {
    config: BrainConfig,
    system_prompt: String,
    intent_classifier: IntentClassifier,
}

impl Brain {
    pub closed spec fn spec_config(&self) -> BrainConfig {
        self.config
    }

    pub closed spec fn spec_system_prompt(&self) -> Seq<char> {
        self.system_prompt@
    }

    pub closed spec fn classifier(&self) -> IntentClassifier {
        self.intent_classifier
    }

    /// The intent that this dispatcher gives `input`.
    pub open spec fn intent_for(&self, input: Seq<char>) -> Intent {
        self.classifier().spec_classify(input, lower_of(input))
    }

    pub fn config(&self) -> (r: &BrainConfig)
        ensures
            *r == self.spec_config(),
    {
        &self.config
    }

    pub fn system_prompt(&self) -> (r: &str)
        ensures
            r@ == self.spec_system_prompt(),
    {
        self.system_prompt.as_str()
    }

    /// A dispatcher with an empty system prompt and the default classifier.
    pub fn new(config: BrainConfig) -> (r: Brain)
        ensures
            r.spec_config() == config,
            r.spec_system_prompt() == Seq::<char>::empty(),
            r.classifier().keywords() == default_keywords(),
            r.classifier().markers() == default_markers(),
            r.classifier().short_threshold == DEFAULT_SHORT_THRESHOLD,
    {
        Brain { config, system_prompt: String::new(), intent_classifier: IntentClassifier::new() }
    }

    /// Takes the outcome of reading a system prompt: on success the whole
    /// prompt is replaced, on failure it is kept and the error handed back.
    pub fn load_system_prompt(&mut self, loaded: Result<String, String>) -> (r: Result<(), String>)
        ensures
            final(self).spec_config() == old(self).spec_config(),
            final(self).classifier() == old(self).classifier(),
            match loaded {
                Ok(p) => r is Ok && final(self).spec_system_prompt() == p@,
                Err(e) => r == Err::<(), String>(e) && final(self).spec_system_prompt()
                    == old(self).spec_system_prompt(),
            },
    {
        match loaded {
            Ok(p) => {
                self.system_prompt = p;
                Ok(())
            },
            Err(e) => Err(e),
        }
    }

    /// The fast tier: a templated acknowledgement, never a trace.
    fn fast_execute(&self, input: &str) -> (r: TierReply)
        ensures
            reply_view(r) == fast_reply(input@),
    {
        let mut content = String::from_str("[FAST] Processed: ");
        content.append(input);
        (String::from_str("cortex"), content, None)
    }

    /// The deep tier: an analysis and the trace of the stages it went through.
    fn deep_reason(&self, input: &str) -> (r: TierReply)
        ensures
            reply_view(r) == deep_reply(self.spec_config(), input@),
    {
        let mut content = String::from_str("[DEEP] Analyzing strategy for: ");
        content.append(input);
        let mut trace = String::from_str("1. Intent classified as Strategy");
        trace.append("\n");
        match &self.config.knowledge_path {
            Some(p) => {
                trace.append("2. Loaded knowledge from ");
                trace.append(p.as_str());
            },
            None => {
                trace.append("2. Loading knowledge base");
            },
        }
        trace.append("\n");
        trace.append("3. Grounding against constitution");
        trace.append("\n");
        trace.append("4. Generated plan");
        proof {
            let k = self.config.knowledge();
            let s = deep_stages();
            reveal_with_fuel(render_trace, 5);
            assert(s.drop_last().drop_last().drop_last() =~= seq![Stage::Classified]);
            assert(s.drop_last().drop_last() =~= seq![Stage::Classified, Stage::KnowledgeLoaded]);
            assert(s.drop_last() =~= seq![
                Stage::Classified,
                Stage::KnowledgeLoaded,
                Stage::Grounded,
            ]);
            assert(trace@ =~= render_trace(s, k));
        }
        (String::from_str("deep_mind"), content, Some(trace))
    }

    /// Hands `input`, classified as `intent`, to the tier that the intent
    /// routes to.
    pub fn dispatch(&self, input: &str, intent: Intent) -> (r: TierReply)
        ensures
            reply_view(r) == reply_for(self.spec_config(), intent, input@),
    {
        match intent {
            Intent::QuickAction => self.fast_execute(input),
            Intent::Strategy => self.deep_reason(input),
            Intent::Unknown => self.fast_execute(input),
        }
    }

    /// Classifies `input`, routes it to its tier and times the whole dispatch.
    pub fn process_directive(&self, input: &str) -> (r: Response)
        ensures
            answers(r, self.spec_config(), self.intent_for(input@), input@),
    {
        let start = std::time::Instant::now();
        let intent = self.intent_classifier.classify(input);
        let reply = self.dispatch(input, intent);
        let elapsed = start.elapsed();
        let elapsed_ms = elapsed.as_millis();
        assemble_response(intent, reply, elapsed_ms)
    }
}

/// The response for `intent` from the tier's `reply` and the measured
/// duration of the dispatch.
pub fn assemble_response(intent: Intent, reply: TierReply, elapsed_ms: u128) -> (r: Response)
    ensures
        r.intent == intent,
        r.system@ == reply.0@,
        r.content@ == reply.1@,
        opt_view(r.reasoning_trace) == opt_view(reply.2),
        r.latency_ms == latency_of(elapsed_ms),
{
    let latency_ms: u64 = if elapsed_ms > u64::MAX as u128 {
        u64::MAX
    } else {
        elapsed_ms as u64
    };
    let (system, content, reasoning_trace) = reply;
    Response { intent, system, content, reasoning_trace, latency_ms }
}

/// A directive classified as `Unknown` goes to the fast tier, never to the
/// deep tier.
pub proof fn law_unknown_routes_to_fast(config: BrainConfig, input: Seq<char>)
    ensures
        reply_for(config, Intent::Unknown, input) == fast_reply(input),
        reply_for(config, Intent::Unknown, input).0 != deep_label(),
{
    reveal_strlit("cortex");
    reveal_strlit("deep_mind");
    assert(fast_label()[0] != deep_label()[0]);
}

/// The reported latency never decreases as the measured duration grows, and
/// equals the duration wherever that fits in a `u64`.
pub proof fn law_latency_monotone(a: u128, b: u128)
    requires
        a <= b,
    ensures
        latency_of(a) <= latency_of(b),
        a <= u64::MAX ==> latency_of(a) as u128 == a,
{
}

/// The deep tier's trace lists a non-empty run of stages whose steps strictly
/// increase, one line each; the fast tier gives no trace.
pub proof fn law_trace_stages_ordered(config: BrainConfig, input: Seq<char>)
    ensures
        deep_stages().len() >= 3,
        forall|i: int, j: int|
            0 <= i < j < deep_stages().len() ==> #[trigger] deep_stages()[i].rank()
                < #[trigger] deep_stages()[j].rank(),
        deep_reply(config, input).2 == Some(render_trace(deep_stages(), config.knowledge())),
        fast_reply(input).2 is None,
{
}

} // verus!
