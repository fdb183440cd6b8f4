use ucl::ast::{Action, Operation, Program};
use ucl::error::ErrorKind;
use ucl::simulator::brain::BrainSimulator;
use ucl::simulator::robot::RobotSimulator;
use ucl::value::{Number, Value};

fn float(x: f64) -> Value {
    Value::Number(Number::Float(x.to_bits()))
}

fn whole(n: u64) -> Value {
    Value::Number(Number::PosInt(n))
}

fn text(s: &str) -> Value {
    Value::String(s.to_string())
}

fn params(entries: Vec<(&str, Value)>) -> Vec<(String, Value)> {
    entries.into_iter().map(|(k, v)| (k.to_string(), v)).collect()
}

fn emotion(brain: &BrainSimulator, name: &str) -> f64 {
    f64::from_bits(*brain.state().emotions.get(name).unwrap())
}

#[test]
fn test_store_fact() {
    let mut brain = BrainSimulator::new();
    let action = Action::new("listener", Operation::StoreFact, "memory")
        .with_params(params(vec![("entity", text("cat")), ("color", text("black"))]));
    brain.execute_action(&action).unwrap();
    assert!(brain.state().beliefs.contains_key("cat.color"));
    assert!(brain.state().beliefs.get("cat.color").unwrap().equals(&text("black")));
    assert_eq!(brain.state().working_memory, vec!["The cat has properties: color"]);
    assert_eq!(brain.state().trace, vec!["StoreFact(memory)"]);
}

#[test]
fn test_emit() {
    let mut brain = BrainSimulator::new();
    let action = Action::new("speaker", Operation::Emit, "greeting")
        .with_params(params(vec![("content", text("Hello!"))]));
    brain.execute_action(&action).unwrap();
    assert_eq!(brain.state().output.len(), 1);
    assert_eq!(brain.state().output[0], "Hello!");
}

#[test]
fn test_decide() {
    let mut brain = BrainSimulator::new();
    let action = Action::new("decider", Operation::Decide, "path")
        .with_params(params(vec![("choice", text("go left"))]));
    brain.execute_action(&action).unwrap();
    assert!(!brain.state().thoughts.is_empty());
    assert_eq!(brain.state().thoughts[0], "Decided to: go left");
}

#[test]
fn emit_speaks_beliefs_as_json() {
    let mut brain = BrainSimulator::new();
    brain
        .execute_action(
            &Action::new("b", Operation::Bind, "note")
                .with_params(params(vec![("value", text("line\n\"two\"\\"))])),
        )
        .unwrap();
    brain.execute_action(&Action::new("b", Operation::Emit, "note")).unwrap();
    brain
        .execute_action(&Action::new("b", Operation::Emit, "x").with_params(params(vec![(
            "content",
            Value::List(vec![whole(1), float(0.5), Value::Null, Value::Bool(true)]),
        )])))
        .unwrap();
    brain
        .execute_action(
            &Action::new("b", Operation::Emit, "hi")
                .with_params(params(vec![("message", text("hello")), ("intent", text("greeting"))])),
        )
        .unwrap();
    brain
        .execute_action(&Action::new("b", Operation::Emit, "x").with_params(params(vec![(
            "content",
            Value::Object(vec![("k\u{1}".to_string(), text("\t"))]),
        )])))
        .unwrap();
    assert_eq!(
        brain.state().output,
        vec![
            "\"line\\n\\\"two\\\"\\\\\"",
            "[1,0.5,null,true]",
            "hello",
            "{\"k\\u0001\":\"\\t\"}"
        ]
    );
    assert_eq!(emotion(&brain, "warmth"), 0.0 + 0.3);
}

#[test]
fn write_computes_on_beliefs() {
    let mut brain = BrainSimulator::new();
    let bind = |name: &str, v: Value| {
        Action::new("b", Operation::Bind, name).with_params(params(vec![("value", v)]))
    };
    brain.execute_action(&bind("a", whole(6))).unwrap();
    brain.execute_action(&bind("b", float(1.5))).unwrap();
    let write = |target: &str, op: &str| {
        Action::new("b", Operation::Write, target).with_params(params(vec![
            ("operation", text(op)),
            ("lhs_register", text("a")),
            ("rhs_register", text("b")),
        ]))
    };
    for (target, op) in
        [("sum", "add"), ("diff", "subtract"), ("prod", "multiply"), ("quot", "divide"), ("odd", "?")]
    {
        brain.execute_action(&write(target, op)).unwrap();
    }
    let get = |name: &str| match brain.state().beliefs.get(name).unwrap() {
        Value::Number(Number::Float(bits)) => f64::from_bits(*bits),
        other => panic!("{:?}", other),
    };
    assert_eq!(get("sum"), 7.5);
    assert_eq!(get("diff"), 4.5);
    assert_eq!(get("prod"), 9.0);
    assert_eq!(get("quot"), 4.0);
    assert_eq!(get("odd"), 9.0);
    assert_eq!(
        brain.state().thoughts,
        vec![
            "Calculated: sum = 6 + 1.5 = 7.5",
            "Calculated: diff = 6 - 1.5 = 4.5",
            "Calculated: prod = 6 × 1.5 = 9",
            "Calculated: quot = 6 ÷ 1.5 = 4",
            "Calculated: odd = 6 × 1.5 = 9"
        ]
    );
    let by_zero = Action::new("b", Operation::Write, "z").with_params(params(vec![
        ("operation", text("divide")),
        ("lhs", whole(1)),
        ("rhs", whole(0)),
    ]));
    let mut brain = BrainSimulator::new();
    brain.execute_action(&by_zero).unwrap();
    assert!(brain.state().beliefs.get("z").unwrap().equals(&float(0.0)));
    assert_eq!(brain.state().thoughts, vec!["Calculated: z = 1 ÷ 0 = 0"]);
}

#[test]
fn brain_remembers_seven_items() {
    let mut brain = BrainSimulator::new();
    for i in 0..9 {
        let name = format!("pot{}", i);
        brain.execute_action(&Action::new("cook", Operation::Stir, &name)).unwrap();
    }
    assert_eq!(brain.state().working_memory.len(), 7);
    assert_eq!(brain.state().working_memory[0], "Stirring pot2");
    assert_eq!(brain.state().working_memory[6], "Stirring pot8");
    assert_eq!(brain.state().thoughts[0], "Performing action: Stirring pot0");
    let mut expected = 0.0f64;
    for _ in 0..9 {
        expected += 0.2;
    }
    assert_eq!(emotion(&brain, "focus"), expected);
}

#[test]
fn brain_leaf_actions() {
    let mut brain = BrainSimulator::new();
    let mut program = Program::new();
    program.add_action(
        Action::new("b", Operation::Assert, "sky")
            .with_params(params(vec![("statement", text("the sky is blue"))])),
    );
    program.add_action(
        Action::new("b", Operation::Receive, "ear")
            .with_params(params(vec![("content", text("a noise"))])),
    );
    program.add_action(
        Action::new("b", Operation::Measure, "tea")
            .with_params(params(vec![("temp", whole(80)), ("color", text("amber"))])),
    );
    program.add_action(Action::new("b", Operation::Read, "observed.tea.temp"));
    program.add_action(Action::new("b", Operation::Read, "unknown"));
    program.add_action(Action::new("b", Operation::Create, "unicorn"));
    program.add_action(
        Action::new("b", Operation::Oblige, "rent")
            .with_params(params(vec![("duty", text("pay rent"))])),
    );
    program.add_action(Action::new("b", Operation::Wait, "a bit"));
    program.add_action(Action::new("b", Operation::Wait, "longer").with_duration(2.25f64.to_bits()));
    program.add_action(
        Action::new("b", Operation::Decide, "d").with_params(params(vec![
            ("decision", text("stay")),
            ("goal", text("rest")),
        ])),
    );
    program.add_action(
        Action::new("b", Operation::Pour, "water").with_params(params(vec![
            ("from", text("kettle")),
            ("into", whole(3)),
            ("amount", text("200ml")),
        ])),
    );
    brain.execute(&program).unwrap();
    let state = brain.state();
    assert!(state.beliefs.get("assertion.sky").unwrap().equals(&text("the sky is blue")));
    assert!(state.beliefs.get("observed.tea.color").unwrap().equals(&text("amber")));
    assert_eq!(state.attention.as_deref(), Some("tea"));
    assert_eq!(
        state.working_memory,
        vec!["Heard: a noise", "Recalled: observed.tea.temp = 80", "Pouring water from kettle into ? (200ml)"]
    );
    assert_eq!(
        state.thoughts,
        vec![
            "I believe that: the sky is blue",
            "Conceived of: unicorn",
            "Waiting for 1.0s",
            "Waiting for 2.2s",
            "Decided to: stay",
            "Performing action: Pouring water from kettle into ? (200ml)"
        ]
    );
    assert_eq!(state.goals, vec!["Must: pay rent", "rest"]);
    assert_eq!(emotion(&brain, "responsibility"), 0.5);
    let concept = state.beliefs.get("concept.unicorn").unwrap();
    assert!(concept.equals(&Value::Object(vec![("exists".to_string(), Value::Bool(true))])));
    assert_eq!(state.trace.len(), 11);
}

#[test]
fn random_numbers_lie_between_the_bounds() {
    for seed in [0u64, 1, 7, 12345, u64::MAX] {
        let mut brain = BrainSimulator::new().with_seed(seed);
        let a = Action::new("b", Operation::GenRandomInt, "dice")
            .with_params(params(vec![("min", whole(1)), ("max", whole(6))]));
        brain.execute_action(&a).unwrap();
        brain.execute_action(&Action::new("b", Operation::GenRandomInt, "digit")).unwrap();
        let dice = brain.state().beliefs.get("dice").unwrap().as_i64().unwrap();
        let digit = brain.state().beliefs.get("digit").unwrap().as_i64().unwrap();
        assert!((1..=6).contains(&dice));
        assert!((0..=9).contains(&digit));
        assert_eq!(dice, 1 + (seed % 6) as i64);
        assert_eq!(
            brain.state().thoughts[0],
            format!("Generated random number: dice = {}", dice)
        );
    }
    let mut brain = BrainSimulator::new();
    let backwards = Action::new("b", Operation::GenRandomInt, "n")
        .with_params(params(vec![("min", whole(5)), ("max", whole(1))]));
    assert_eq!(brain.execute_action(&backwards).unwrap_err().kind, ErrorKind::MalformedAction);
    let whole_range = Action::new("b", Operation::GenRandomInt, "n").with_params(params(vec![
        ("min", Value::Number(Number::NegInt(i64::MIN))),
        ("max", whole(i64::MAX as u64)),
    ]));
    BrainSimulator::new().with_seed(u64::MAX).execute_action(&whole_range).unwrap();
}

#[test]
fn robot_makes_tea() {
    let mut robot = RobotSimulator::new();
    let mut program = Program::new();
    program.add_action(
        Action::new("robot", Operation::Gather, "tea").with_params(params(vec![(
            "items",
            Value::List(vec![text("kettle"), whole(3), text("cup")]),
        )])),
    );
    program.add_action(
        Action::new("robot", Operation::Measure, "water")
            .with_params(params(vec![("amount", text("250ml"))])),
    );
    program.add_action(Action::new("robot", Operation::Heat, "kettle"));
    program.add_action(
        Action::new("robot", Operation::Pour, "water").with_params(params(vec![
            ("from", text("kettle")),
            ("into", text("cup")),
        ])),
    );
    program.add_action(Action::new("robot", Operation::Pour, "nothing"));
    program.add_action(
        Action::new("robot", Operation::Place, "cup")
            .with_params(params(vec![("into", text("tray"))])),
    );
    program.add_action(Action::new("robot", Operation::Mix, "cup"));
    program.add_action(Action::new("robot", Operation::Stir, "cup"));
    program.add_action(
        Action::new("robot", Operation::Steep, "tea")
            .with_params(params(vec![("duration", text("3 minutes"))])),
    );
    program.add_action(Action::new("robot", Operation::Wait, "tea").with_duration(2.5f64.to_bits()));
    program.add_action(Action::new("robot", Operation::Wait, "more").with_duration(3.5f64.to_bits()));
    program.add_action(Action::new("robot", Operation::Wait, "tea"));
    program.add_action(Action::new("robot", Operation::Remove, "kettle"));
    program.add_action(Action::new("robot", Operation::Serve, "tea"));
    program.add_action(
        Action::new("robot", Operation::Emit, "done")
            .with_params(params(vec![("content", text("Tea is ready"))])),
    );
    program.add_action(Action::new("robot", Operation::Grok, "tea"));
    program.add_action(
        Action::new("robot", Operation::Bind, "cups").with_params(params(vec![("value", whole(1))])),
    );
    program.add_action(Action::new("robot", Operation::Return, "ignored"));
    robot.execute(&program).unwrap();
    let state = robot.state();
    assert_eq!(
        state.log,
        vec![
            "Gathered items for tea",
            "Measured 250ml of water",
            "Heating kettle to 100°C",
            "Poured water from kettle into cup (?)",
            "Placed cup into tray",
            "Mixed cup",
            "Stirred cup",
            "Steeping tea for 3 minutes",
            "Waiting 2s for tea",
            "Waiting 4s for more",
            "Waiting 1s for tea",
            "Removed kettle from ?",
            "Serving tea",
            "Output: Tea is ready"
        ]
    );
    assert_eq!(state.errors, vec!["Unsupported operation: Grok"]);
    assert_eq!(state.objects.len(), 2);
    let kettle = state.objects.get("kettle").unwrap();
    assert_eq!(f64::from_bits(kettle.temperature), 100.0);
    assert_eq!(kettle.state, "boiling");
    assert_eq!(kettle.container, None);
    let cup = state.objects.get("cup").unwrap();
    assert_eq!(f64::from_bits(cup.temperature), 20.0);
    assert_eq!(cup.state, "mixed");
    assert_eq!(cup.container.as_deref(), Some("tray"));
    assert_eq!(cup.position, (0, 0, 0));
    assert!(state.variables.get("cups").unwrap().equals(&whole(1)));
}

#[test]
fn robot_heats_only_what_it_knows() {
    let mut robot = RobotSimulator::new();
    robot.execute_action(&Action::new("robot", Operation::Heat, "soup")
        .with_params(params(vec![("temperature", text("60°C"))]))).unwrap();
    assert_eq!(robot.state().log, vec!["Heating soup to 60°C"]);
    assert_eq!(robot.state().objects.len(), 0);
}

#[test]
fn test_action_creation() {
    let action = Action::new("VM", Operation::Call, "Add")
        .with_time(0.0f64.to_bits())
        .with_effects(vec!["CPU".to_string()]);
    assert_eq!(action.actor, "VM");
    assert!(action.op.same(&Operation::Call));
    assert_eq!(action.target, "Add");
    assert_eq!(action.t, Some(0.0f64.to_bits()));
    assert_eq!(action.effects, Some(vec!["CPU".to_string()]));
    assert_eq!(action.dur, None);
    assert!(action.params.is_none());
}

#[test]
fn program_grows_by_its_actions() {
    let mut program = Program::new();
    assert_eq!(program.actions.len(), 0);
    assert!(program.metadata.is_none());
    program.add_action(Action::new("test", Operation::Create, "object"));
    assert_eq!(program.actions.len(), 1);
    assert_eq!(program.actions[0].target, "object");
}

#[test]
fn brain_reports_its_state() {
    let mut brain = BrainSimulator::new();
    assert_eq!(brain.state().display(), "=== Brain State ===\n\n");
    let mut program = Program::new();
    program.add_action(
        Action::new("b", Operation::Bind, "x").with_params(params(vec![("value", float(2.5))])),
    );
    program.add_action(
        Action::new("b", Operation::Bind, "name").with_params(params(vec![("value", text("Ada"))])),
    );
    program.add_action(
        Action::new("b", Operation::Emit, "hi").with_params(params(vec![("intent", text("greeting"))])),
    );
    program.add_action(
        Action::new("b", Operation::Emit, "hi").with_params(params(vec![("intent", text("greeting"))])),
    );
    program.add_action(
        Action::new("b", Operation::Oblige, "o").with_params(params(vec![("duty", text("tidy up"))])),
    );
    program.add_action(
        Action::new("b", Operation::Receive, "r").with_params(params(vec![("content", text("a bell"))])),
    );
    brain.execute(&program).unwrap();
    let warmth = format!("{:.2}", 0.0f64 + 0.3 + 0.3);
    let expected = format!(
        "=== Brain State ===\n\nBeliefs:\n  x = 2.5\n  name = \"Ada\"\n\nEmotional State:\n  warmth: {}\n  responsibility: 0.50\n\nWorking Memory:\n  - Heard: a bell\n\nCurrent Focus: a bell\n\nActive Goals:\n  → Must: tidy up\n\nOutput/Speech:\n  🗣️  hi\n  🗣️  hi\n\n",
        warmth
    );
    assert_eq!(brain.state().display(), expected);
    brain.execute_action(&Action::new("b", Operation::Create, "idea")).unwrap();
    assert!(brain.state().display().contains("Internal Thoughts:\n  💭 Conceived of: idea\n\n"));
}

#[test]
fn robot_reports_its_state() {
    let mut robot = RobotSimulator::new();
    assert_eq!(
        robot.state().display(),
        "=== Robot State ===\n\nArm Position: (0.00, 0.00, 0.00)\nGripper: Empty\n\n"
    );
    robot
        .execute_action(
            &Action::new("r", Operation::Gather, "tea")
                .with_params(params(vec![("items", Value::List(vec![text("kettle"), text("cup")]))])),
        )
        .unwrap();
    robot.execute_action(&Action::new("r", Operation::Heat, "kettle")).unwrap();
    robot.execute_action(&Action::new("r", Operation::Grok, "kettle")).unwrap();
    assert_eq!(
        robot.state().display(),
        "=== Robot State ===\n\nArm Position: (0.00, 0.00, 0.00)\nGripper: Empty\n\nObjects:\n  kettle - pos:(0.0, 0.0, 0.0), temp:100°C, state:boiling\n  cup - pos:(0.0, 0.0, 0.0), temp:20°C, state:ready\n\nExecution Log:\n  1. Gathered items for tea\n  2. Heating kettle to 100°C\n\n⚠️  Errors:\n  • Unsupported operation: Grok\n"
    );
}
