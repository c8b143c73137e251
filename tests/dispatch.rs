use aegnt_unltd::brain::assemble_response;
use aegnt_unltd::{Brain, BrainConfig, Intent};

fn config(knowledge: Option<&str>) -> BrainConfig {
    BrainConfig {
        fast_model: "ollama:llama3".to_string(),
        slow_model: "gemini-3.1-pro".to_string(),
        memory_path: None,
        knowledge_path: knowledge.map(|k| k.to_string()),
    }
}

#[test]
fn quick_question_goes_to_fast_tier() {
    let brain = Brain::new(config(None));
    let r = brain.process_directive("What time is it?");
    assert_eq!(r.intent, Intent::QuickAction);
    assert_eq!(r.system, "cortex");
    assert_eq!(r.content, "[FAST] Processed: What time is it?");
    assert_eq!(r.reasoning_trace, None);
}

#[test]
fn strategy_goes_to_deep_tier_with_ordered_trace() {
    let brain = Brain::new(config(Some("/data/knowledge")));
    let r = brain.process_directive("Build a pricing strategy for Q3");
    assert_eq!(r.intent, Intent::Strategy);
    assert_eq!(r.system, "deep_mind");
    assert_eq!(r.content, "[DEEP] Analyzing strategy for: Build a pricing strategy for Q3");
    let trace = r.reasoning_trace.expect("deep tier gives a trace");
    let lines: Vec<&str> = trace.lines().collect();
    assert!(lines.len() >= 3);
    assert_eq!(
        lines,
        vec![
            "1. Intent classified as Strategy",
            "2. Loaded knowledge from /data/knowledge",
            "3. Grounding against constitution",
            "4. Generated plan",
        ]
    );
    for (i, line) in lines.iter().enumerate() {
        assert!(line.starts_with(&format!("{}. ", i + 1)));
    }
}

#[test]
fn deep_trace_without_knowledge_path() {
    let brain = Brain::new(config(None));
    let r = brain.process_directive("Design the onboarding");
    assert_eq!(
        r.reasoning_trace.as_deref(),
        Some("1. Intent classified as Strategy\n2. Loading knowledge base\n3. Grounding against constitution\n4. Generated plan")
    );
}

#[test]
fn empty_input_goes_to_fast_tier() {
    let brain = Brain::new(config(None));
    let r = brain.process_directive("");
    assert_eq!(r.intent, Intent::QuickAction);
    assert_eq!(r.system, "cortex");
    assert_eq!(r.content, "[FAST] Processed: ");
    assert_eq!(r.reasoning_trace, None);
}

#[test]
fn unknown_goes_to_fast_tier() {
    let brain = Brain::new(config(Some("kb")));
    let input = "Please summarize the quarterly sales numbers for the northern region now";
    let r = brain.process_directive(input);
    assert_eq!(r.intent, Intent::Unknown);
    assert_eq!(r.system, "cortex");
    assert_eq!(r.reasoning_trace, None);
    let (system, _, trace) = brain.dispatch(input, Intent::Unknown);
    assert_eq!(system, "cortex");
    assert_eq!(trace, None);
}

#[test]
fn failed_prompt_load_keeps_prompt_and_dispatch_works() {
    let mut brain = Brain::new(config(None));
    assert_eq!(brain.system_prompt(), "");
    let r = brain.load_system_prompt(Err("No such file or directory".to_string()));
    assert_eq!(r, Err("No such file or directory".to_string()));
    assert_eq!(brain.system_prompt(), "");
    let resp = brain.process_directive("What time is it?");
    assert_eq!(resp.system, "cortex");
}

#[test]
fn prompt_load_replaces_whole_prompt() {
    let mut brain = Brain::new(config(None));
    assert_eq!(brain.load_system_prompt(Ok("You are helpful.".to_string())), Ok(()));
    assert_eq!(brain.system_prompt(), "You are helpful.");
    assert_eq!(brain.load_system_prompt(Ok("Be brief.".to_string())), Ok(()));
    assert_eq!(brain.system_prompt(), "Be brief.");
    assert!(brain.load_system_prompt(Err("denied".to_string())).is_err());
    assert_eq!(brain.system_prompt(), "Be brief.");
    assert_eq!(brain.config().fast_model, "ollama:llama3");
}

#[test]
fn two_directives_each_get_their_own_tier() {
    let brain = Brain::new(config(None));
    let a = brain.process_directive("Build a pricing strategy for Q3");
    let b = brain.process_directive("What time is it?");
    let b2 = brain.process_directive("What time is it?");
    let a2 = brain.process_directive("Build a pricing strategy for Q3");
    assert_eq!(a.system, "deep_mind");
    assert_eq!(a2.system, "deep_mind");
    assert_eq!(b.system, "cortex");
    assert_eq!(b2.system, "cortex");
}

#[test]
fn latency_is_reported_in_whole_milliseconds() {
    let reply = ("cortex".to_string(), "x".to_string(), None);
    let r = assemble_response(Intent::QuickAction, reply.clone(), 7);
    assert_eq!(r.latency_ms, 7);
    assert_eq!(r.system, "cortex");
    let r = assemble_response(Intent::QuickAction, reply.clone(), u128::MAX);
    assert_eq!(r.latency_ms, u64::MAX);
    let small = assemble_response(Intent::QuickAction, reply.clone(), 5).latency_ms;
    let large = assemble_response(Intent::QuickAction, reply, 900).latency_ms;
    assert!(small <= large);
}

#[test]
fn measured_latency_is_small_for_fast_tier() {
    let brain = Brain::new(config(None));
    let r = brain.process_directive("hi");
    assert!(r.latency_ms < 200);
}
