use ucl::analysis::{
    action_times, actor_names, effect_tags, operation_names, rank, tally, time_range,
};
use ucl::ast::{Action, Operation, Program};
use ucl::coordinator::{plan, substrate_of, MultiSubstrateCoordinator, Substrate, Task};
use ucl::error::ErrorKind;
use ucl::production::{step_record, task_lines};
use ucl::simulator::ai::{MockAISimulator, MockAIState};
use ucl::value::{Number, Value};

fn whole(n: u64) -> Value {
    Value::Number(Number::PosInt(n))
}

fn text(s: &str) -> Value {
    Value::String(s.to_string())
}

fn params(entries: Vec<(&str, Value)>) -> Vec<(String, Value)> {
    entries.into_iter().map(|(k, v)| (k.to_string(), v)).collect()
}

fn generate(target: &str, instruction: &str) -> Action {
    Action::new("ai_agent", Operation::Generate, target)
        .with_params(params(vec![("instruction", text(instruction))]))
}

#[test]
fn test_mock_ai_generates_code() {
    let mut program = Program::new();
    program.add_action(generate("factorial_code", "Write a function to compute Factorial"));
    program.add_action(Action::new("ai_agent", Operation::Emit, "done"));
    let mut ai = MockAISimulator::new();
    ai.execute(&program).unwrap();
    assert_eq!(ai.state().prompts.len(), 1);
    assert!(ai.state().prompts[0].contains("Factorial"));
    assert!(ai.state().generated_code.contains_key("factorial_code"));
    let generated = ai.state().generated_code.get("factorial_code").unwrap();
    assert_eq!(generated.actions.len(), 1);
    assert!(matches!(generated.actions[0].op, Operation::DefineFunction));
    assert_eq!(generated.actions[0].target, "factorial");
    assert_eq!(
        ai.state().responses,
        vec!["Generated factorial for: Write a function to compute Factorial"]
    );
}

#[test]
fn mock_ai_knows_three_programs() {
    let state = MockAIState::new();
    let keys: Vec<&str> = state.knowledge_base.entries.iter().map(|(k, _)| k.as_str()).collect();
    assert_eq!(keys, vec!["factorial", "fibonacci", "hello world"]);
    assert_eq!(state.model_name, "MockLLM-UCL-v1");
    assert_eq!(state.temperature, 0.0f64.to_bits());
    let factorial = state.knowledge_base.get("factorial").unwrap().to_json_text();
    assert_eq!(
        factorial,
        "[{\"actor\":\"VM\",\"op\":\"DefineFunction\",\"target\":\"factorial\",\"params\":{\"args\":[\"n\"],\"body\":[{\"actor\":\"VM\",\"op\":\"If\",\"target\":\"base_case\",\"condition\":{\"type\":\"comparison\",\"op\":\"<=\",\"left\":{\"var\":\"n\"},\"right\":1},\"then\":[{\"actor\":\"VM\",\"op\":\"Return\",\"target\":\"result\",\"params\":{\"value\":1}}],\"else\":[{\"actor\":\"VM\",\"op\":\"Return\",\"target\":\"result\",\"params\":{\"value\":{\"expr\":{\"op\":\"*\",\"left\":{\"var\":\"n\"},\"right\":{\"call\":\"factorial\",\"args\":{\"n\":{\"expr\":{\"op\":\"-\",\"left\":{\"var\":\"n\"},\"right\":1}}}}}}}}]}]}}]"
    );
    let hello = state.knowledge_base.get("hello world").unwrap().to_json_text();
    assert_eq!(
        hello,
        "[{\"actor\":\"VM\",\"op\":\"Emit\",\"target\":\"output\",\"params\":{\"content\":\"Hello, World!\"}}]"
    );
    let fibonacci = state.knowledge_base.get("fibonacci").unwrap().to_json_text();
    assert!(fibonacci.contains("\"value\":{\"var\":\"n\"}"));
    assert!(fibonacci.contains("\"op\":\"+\""));
}

#[test]
fn mock_ai_fails_on_what_it_does_not_know() {
    let mut ai = MockAISimulator::new();
    let err = ai.execute_action(&generate("x", "sort a list")).unwrap_err();
    assert_eq!(err.kind, ErrorKind::UnknownInstruction);
    assert_eq!(err.subject, "sort a list");
    assert_eq!(ai.state().prompts, vec!["sort a list"]);
    assert_eq!(ai.state().responses, vec!["I don't know how to: sort a list"]);
    let err = ai.execute_action(&Action::new("a", Operation::Generate, "x")).unwrap_err();
    assert_eq!(err.kind, ErrorKind::MalformedAction);
    let err = ai.execute_action(&Action::new("a", Operation::Execute, "x")).unwrap_err();
    assert_eq!(err.kind, ErrorKind::UnknownFunction);
    assert_eq!(err.subject, "x");
    ai.execute_action(&generate("greet", "say HELLO WORLD please")).unwrap();
    ai.execute_action(&Action::new("a", Operation::Execute, "greet")).unwrap();
    ai.execute_action(
        &Action::new("a", Operation::Execute, "other").with_params(params(vec![("code", text("greet"))])),
    )
    .unwrap();
    ai.execute_action(&Action::new("a", Operation::Parse, "greet")).unwrap();
    ai.execute_action(&Action::new("a", Operation::Heat, "greet")).unwrap();
    let mut program = Program::new();
    program.add_action(generate("a", "the fibonacci of factorial"));
    program.add_action(generate("b", "nothing known"));
    program.add_action(generate("c", "factorial"));
    assert!(ai.execute(&program).is_err());
    assert_eq!(ai.state().generated_code.get("a").unwrap().actions[0].target, "factorial");
    assert!(ai.state().generated_code.get("c").is_none());
}

#[test]
fn mock_ai_reports_its_state() {
    let mut ai = MockAISimulator::new();
    assert_eq!(
        ai.state().display(),
        "=== Mock AI State ===\n\nModel: MockLLM-UCL-v1 (temperature: 0)\n\nKnowledge Base: 3 preloaded tasks\n  • factorial\n  • fibonacci\n  • hello world\n"
    );
    ai.execute_action(&generate("one", "factorial")).unwrap();
    ai.execute_action(&generate("two", "hello world")).unwrap();
    assert_eq!(
        ai.state().display(),
        "=== Mock AI State ===\n\nModel: MockLLM-UCL-v1 (temperature: 0)\n\nPrompt History:\n  1. factorial\n  2. hello world\n\nGenerated Code:\n  one - 1 actions\n  two - 1 actions\n\nKnowledge Base: 3 preloaded tasks\n  • factorial\n  • fibonacci\n  • hello world\n"
    );
}

#[test]
fn actions_go_to_the_substrate_of_their_actor() {
    assert_eq!(substrate_of("RubyVM"), Substrate::Ruby);
    assert_eq!(substrate_of("BrainVM"), Substrate::Brain);
    assert_eq!(substrate_of("Coordinator"), Substrate::Coordinator);
    assert_eq!(substrate_of("anyone"), Substrate::Brain);
    let mut program = Program::new();
    for actor in ["RubyVM", "BrainVM", "RubyVM", "Coordinator", "someone", "RubyVM"] {
        program.add_action(Action::new(actor, Operation::Read, "x"));
    }
    let counts = plan(&program);
    assert_eq!((counts.ruby, counts.brain, counts.coordinator), (3, 2, 1));
}

#[test]
fn coordinator_passes_values_between_substrates() {
    let mut c = MultiSubstrateCoordinator::new();
    let bind = Action::new("BrainVM", Operation::Bind, "x")
        .with_params(params(vec![("value", whole(7))]));
    assert!(matches!(c.step(&bind).unwrap(), Task::Done));
    let receive = Action::new("Coordinator", Operation::Receive, "x")
        .with_params(params(vec![("source", text("BrainVM"))]));
    assert!(matches!(c.step(&receive).unwrap(), Task::Done));
    assert!(c.shared_memory().get("x").unwrap().equals(&whole(7)));
    let emit = Action::new("Coordinator", Operation::Emit, "x")
        .with_params(params(vec![("destination", text("RubyVM"))]));
    c.step(&emit).unwrap();
    assert!(c.ruby_state().get("x").unwrap().equals(&whole(7)));
    let ruby = Action::new("RubyVM", Operation::Call, "+")
        .with_params(params(vec![("lhs", whole(2)), ("rhs", whole(3))]));
    match c.step(&ruby).unwrap() {
        Task::RunRuby { code } => assert_eq!(
            code,
            "# Generated from UCL\n# Universal Causal Language -> Ruby Compiler\n\n(2 + 3)\n"
        ),
        Task::Done => panic!("nothing to run"),
    }
    c.record_ruby_result(&ruby, whole(5));
    assert!(c.ruby_state().get("+").unwrap().equals(&whole(5)));
    let receive = Action::new("Coordinator", Operation::Receive, "+")
        .with_params(params(vec![("source", text("RubyVM"))]));
    c.step(&receive).unwrap();
    assert!(c.shared_memory().get("+").unwrap().equals(&whole(5)));
    for action in [
        Action::new("Coordinator", Operation::Receive, "nothing")
            .with_params(params(vec![("source", text("BrainVM"))])),
        Action::new("Coordinator", Operation::Receive, "x")
            .with_params(params(vec![("source", text("Elsewhere"))])),
        Action::new("Coordinator", Operation::Emit, "x")
            .with_params(params(vec![("destination", text("BrainVM"))])),
        Action::new("Coordinator", Operation::Emit, "x"),
        Action::new("Coordinator", Operation::Wait, "x"),
    ] {
        c.step(&action).unwrap();
    }
    assert_eq!(c.shared_memory().len(), 2);
    assert_eq!(c.ruby_state().len(), 2);
    assert_eq!(c.brain().state().trace, vec!["Bind(x)"]);
    let broken = Action::new("RubyVM", Operation::Assign, "y");
    assert_eq!(c.step(&broken).unwrap_err().kind, ErrorKind::MalformedAction);
}

#[test]
fn tally_and_rank() {
    let names: Vec<String> =
        ["b", "a", "b", "c", "a", "b", "d"].iter().map(|s| s.to_string()).collect();
    let counts = tally(&names);
    let listed: Vec<(&str, usize)> =
        counts.entries.iter().map(|(k, n)| (k.as_str(), *n)).collect();
    assert_eq!(listed, vec![("b", 3), ("a", 2), ("c", 1), ("d", 1)]);
    let names: Vec<String> = ["x", "y", "y", "z", "z", "w"].iter().map(|s| s.to_string()).collect();
    let ranked = rank(&tally(&names));
    let listed: Vec<(&str, usize)> = ranked.iter().map(|(k, n)| (k.as_str(), *n)).collect();
    assert_eq!(listed, vec![("y", 2), ("z", 2), ("x", 1), ("w", 1)]);
    assert!(rank(&tally(&vec![])).is_empty());
}

#[test]
fn figures_of_a_program() {
    let mut program = Program::new();
    program.add_action(
        Action::new("piano", Operation::Emit, "note")
            .with_time(2.0f64.to_bits())
            .with_effects(vec!["Audio".to_string(), "Music".to_string()]),
    );
    program.add_action(Action::new("piano", Operation::Custom("Rest".to_string()), "beat"));
    program.add_action(
        Action::new("drum", Operation::Emit, "hit")
            .with_time((-1.5f64).to_bits())
            .with_effects(vec!["Audio".to_string()]),
    );
    program.add_action(Action::new("drum", Operation::Wait, "bar").with_time(0.5f64.to_bits()));
    assert_eq!(operation_names(&program), vec!["Emit", "Custom(\"Rest\")", "Emit", "Wait"]);
    assert_eq!(actor_names(&program), vec!["piano", "piano", "drum", "drum"]);
    assert_eq!(effect_tags(&program), vec!["Audio", "Music", "Audio"]);
    let times = action_times(&program);
    assert_eq!(times.len(), 3);
    let (lo, hi) = time_range(&times).unwrap();
    assert_eq!(f64::from_bits(lo), -1.5);
    assert_eq!(f64::from_bits(hi), 2.0);
    assert!(time_range(&vec![]).is_none());
}

#[test]
fn tasks_for_a_person() {
    let lines = |a: Action| task_lines(&a);
    assert_eq!(
        lines(Action::new("me", Operation::StoreFact, "cat")),
        vec!["   → Store this information in your memory", "   → Commit 'cat' to long-term storage"]
    );
    assert_eq!(
        lines(Action::new("me", Operation::Write, "z")),
        vec!["   → Update memory: z"]
    );
    assert_eq!(
        lines(Action::new("me", Operation::Write, "z").with_params(params(vec![("value", whole(1))]))),
        vec!["   → Update memory: z", "   → Store a new value"]
    );
    assert_eq!(
        lines(Action::new("me", Operation::Write, "z").with_params(params(vec![
            ("lhs_register", text("x")),
            ("rhs_register", whole(2)),
            ("operation", text("divide")),
        ]))),
        vec!["   → Recall x and ?", "   → Calculate: x ÷ ?", "   → Store the answer in: z"]
    );
    assert_eq!(
        lines(Action::new("me", Operation::Wait, "w").with_duration(2.5f64.to_bits())),
        vec!["   → Wait and let 2.5 seconds pass", "   → Be present in this moment"]
    );
    assert_eq!(
        lines(Action::new("me", Operation::Wait, "w"))[0],
        "   → Wait and let 1 seconds pass"
    );
    assert_eq!(
        lines(Action::new("me", Operation::GenRandomInt, "n").with_params(params(vec![("max", whole(5))]))),
        vec!["   → Think of a random number between 0 and 5", "   → Remember it as 'n'"]
    );
    assert_eq!(
        lines(Action::new("me", Operation::GenRandomInt, "n")),
        vec!["   → Generate a random number", "   → Remember it as 'n'"]
    );
    assert_eq!(lines(Action::new("me", Operation::Grok, "n")).len(), 3);
    assert_eq!(
        step_record(3, &Action::new("me", Operation::Emit, "hello"), "t", "e", "m"),
        "Step 3: Emit(hello)\n  Thought: t\n  Emotion: e\n  Memory: m"
    );
}
