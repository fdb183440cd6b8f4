use ucl::ast::{Action, BinaryExpr, ComparisonOp, Condition, Expression, Operation, Program};
use ucl::value::{Number, Value};

fn float(x: f64) -> Value {
    Value::Number(Number::Float(x.to_bits()))
}

fn whole(n: u64) -> Value {
    Value::Number(Number::PosInt(n))
}

fn text(s: &str) -> Value {
    Value::String(s.to_string())
}

fn object(entries: Vec<(&str, Value)>) -> Value {
    Value::Object(entries.into_iter().map(|(k, v)| (k.to_string(), v)).collect())
}

fn params(entries: Vec<(&str, Value)>) -> Vec<(String, Value)> {
    entries.into_iter().map(|(k, v)| (k.to_string(), v)).collect()
}

fn var(name: &str) -> Expression {
    Expression::Variable { var: name.to_string() }
}

fn binary(op: &str, left: Expression, right: Expression) -> Expression {
    Expression::BinaryOp { expr: Box::new(BinaryExpr { op: op.to_string(), left, right }) }
}

fn same_expression(a: &Expression, b: &Expression) -> bool {
    a.to_value().equals(&b.to_value())
}

fn sample_program() -> Program {
    let mut branch = Action::new("VM", Operation::If, "check");
    branch.condition = Some(Condition::And {
        operands: vec![
            Condition::Comparison {
                op: ComparisonOp::GreaterThanOrEqual,
                left: var("x"),
                right: Expression::Value(float(1.5)),
            },
            Condition::Not {
                operand: Box::new(Condition::Or {
                    operands: vec![Condition::Comparison {
                        op: ComparisonOp::NotEqual,
                        left: Expression::FunctionCall {
                            call: "f".to_string(),
                            args: vec![
                                ("a".to_string(), binary("%", var("x"), Expression::Value(whole(2)))),
                                ("b".to_string(), Expression::Value(Value::Null)),
                            ],
                        },
                        right: Expression::Value(text("t")),
                    }],
                }),
            },
        ],
    });
    branch.then_actions = Some(vec![
        Action::new("a", Operation::Emit, "x").with_params(params(vec![("content", text("hi"))])),
        Action::new("a", Operation::Custom("Dance".to_string()), "floor"),
    ]);
    branch.else_actions = Some(vec![]);
    let mut each = Action::new("VM", Operation::For, "loop")
        .with_time(1.0f64.to_bits())
        .with_duration(0.25f64.to_bits())
        .with_effects(vec!["CPU".to_string(), "Memory".to_string()]);
    each.pre = Some("before".to_string());
    each.post = Some("after".to_string());
    each.loop_var = Some("i".to_string());
    each.from_expr = Some(Expression::Value(whole(1)));
    each.to_expr = Some(var("n"));
    each.body_actions = Some(vec![branch]);
    let mut repeat = Action::new("VM", Operation::While, "again");
    repeat.condition = Some(Condition::Comparison {
        op: ComparisonOp::LessThan,
        left: var("i"),
        right: Expression::Value(whole(3)),
    });
    Program {
        metadata: Some(params(vec![("language", text("Ruby")), ("version", whole(2))])),
        actions: vec![each, repeat, Action::new("VM", Operation::Flurble, "thing")],
    }
}

#[test]
fn program_reads_back_from_its_document() {
    let program = sample_program();
    let document = program.to_value();
    let back = Program::from_value(&document).unwrap();
    assert_eq!(back.actions.len(), program.actions.len());
    assert!(back.to_value().equals(&document));
    let each = &back.actions[0];
    assert!(each.op.same(&Operation::For));
    assert_eq!(each.t, Some(1.0f64.to_bits()));
    assert_eq!(each.dur, Some(0.25f64.to_bits()));
    assert_eq!(each.pre.as_deref(), Some("before"));
    assert_eq!(each.post.as_deref(), Some("after"));
    assert_eq!(each.effects, Some(vec!["CPU".to_string(), "Memory".to_string()]));
    assert_eq!(each.loop_var.as_deref(), Some("i"));
    let body = each.body_actions.as_ref().unwrap();
    assert_eq!(body.len(), 1);
    assert!(body[0].op.same(&Operation::If));
    assert_eq!(body[0].then_actions.as_ref().unwrap().len(), 2);
    assert!(body[0].then_actions.as_ref().unwrap()[1].op.same(&Operation::Custom("Dance".to_string())));
    assert_eq!(body[0].else_actions.as_ref().unwrap().len(), 0);
    assert!(back.actions[1].op.same(&Operation::While));
    assert!(back.actions[1].body_actions.is_none());
    assert!(back.actions[2].op.same(&Operation::Flurble));
    assert!(object(vec![("language", text("Ruby")), ("version", whole(2))])
        .equals(&Value::Object(back.metadata.unwrap())));
}

#[test]
fn document_of_an_action_lists_only_what_the_action_has() {
    let action = Action::new("listener", Operation::StoreFact, "cat")
        .with_params(params(vec![("color", text("black"))]));
    let expected = object(vec![
        ("actor", text("listener")),
        ("op", text("StoreFact")),
        ("target", text("cat")),
        ("params", object(vec![("color", text("black"))])),
    ]);
    assert!(action.to_value().equals(&expected));
    match action.to_value() {
        Value::Object(entries) => assert_eq!(entries.len(), 4),
        _ => panic!("no object"),
    }
    let custom = Action::new("a", Operation::Custom("Leap".to_string()), "t").to_value();
    let expected = object(vec![
        ("actor", text("a")),
        ("op", object(vec![("Custom", text("Leap"))])),
        ("target", text("t")),
    ]);
    assert!(custom.equals(&expected));
}

#[test]
fn test_json_serialization() {
    let action = Action::new("listener_brain", Operation::StoreFact, "cat")
        .with_params(params(vec![("color", text("black"))]));
    let parsed = Action::from_value(&action.to_value()).unwrap();
    assert_eq!(parsed.actor, "listener_brain");
    assert_eq!(parsed.target, "cat");
}

#[test]
fn test_program_creation() {
    let mut program = Program::new();
    program.add_action(Action::new("test", Operation::Create, "object"));
    assert_eq!(program.actions.len(), 1);
    let document = program.to_value();
    let parsed = Program::from_value(&document).unwrap();
    assert_eq!(parsed.actions.len(), 1);
}

#[test]
fn every_operation_is_read_by_its_name() {
    let names = [
        "Create", "Read", "Write", "Delete", "Bind", "Unbind", "Emit", "Receive", "Measure",
        "Decide", "Wait", "Assert", "StoreFact", "Oblige", "Permit", "Remedy", "Transcribe",
        "Translate", "Express", "Call", "Assign", "Return", "GenRandomInt", "If", "While", "For",
        "DefineFunction", "Gather", "Heat", "Pour", "Mix", "Stir", "Place", "Remove", "Steep",
        "Serve", "Generate", "Parse", "Execute", "Flurble", "Grok", "Defenestrate",
    ];
    for name in names {
        let op = Operation::from_name(name).unwrap();
        assert_eq!(op.name(), name);
        assert_eq!(format!("{:?}", op), name);
        assert_eq!(op.debug_text(), name);
        assert!(Operation::from_value(&op.to_value()).unwrap().same(&op));
    }
    assert!(Operation::from_name("Custom").is_none());
    assert!(Operation::from_name("create").is_none());
    assert!(Operation::from_value(&whole(1)).is_none());
    assert!(Operation::from_value(&object(vec![("Custom", whole(1))])).is_none());
    let custom = Operation::Custom("a \"b\"\n".to_string());
    assert_eq!(custom.debug_text(), format!("{:?}", custom));
    assert_eq!(custom.name(), "a \"b\"\n");
}

#[test]
fn expressions_are_read_by_their_form() {
    let read = |v: Value| Expression::from_value(&v);
    assert!(matches!(read(object(vec![("var", text("x"))])), Expression::Variable { var } if var == "x"));
    assert!(matches!(
        read(object(vec![("var", text("x")), ("other", whole(1))])),
        Expression::Variable { .. }
    ));
    assert!(matches!(read(object(vec![("var", whole(1))])), Expression::Value(_)));
    assert!(matches!(read(whole(1)), Expression::Value(_)));
    assert!(matches!(read(text("x")), Expression::Value(_)));
    assert!(matches!(read(Value::List(vec![])), Expression::Value(_)));
    let operation = object(vec![(
        "expr",
        object(vec![("op", text("+")), ("left", whole(1)), ("right", object(vec![("var", text("y"))]))]),
    )]);
    assert!(same_expression(&read(operation), &binary("+", Expression::Value(whole(1)), var("y"))));
    let half = object(vec![("expr", object(vec![("op", text("+")), ("left", whole(1))]))]);
    assert!(matches!(read(half), Expression::Value(_)));
    let call = object(vec![
        ("call", text("f")),
        ("args", object(vec![("b", whole(2)), ("a", object(vec![("var", text("x"))]))])),
    ]);
    match read(call) {
        Expression::FunctionCall { call, args } => {
            assert_eq!(call, "f");
            assert_eq!(args.len(), 2);
            assert_eq!(args[0].0, "b");
            assert_eq!(args[1].0, "a");
            assert!(matches!(args[1].1, Expression::Variable { .. }));
        }
        _ => panic!("no call"),
    }
    assert!(matches!(read(object(vec![("call", text("f"))])), Expression::Value(_)));
    assert!(matches!(
        read(object(vec![("call", text("f")), ("args", Value::List(vec![]))])),
        Expression::Value(_)
    ));
}

#[test]
fn conditions_are_read_by_their_type() {
    let read = |v: Value| Condition::from_value(&v);
    let comparison = |sign: &str| {
        object(vec![
            ("type", text("comparison")),
            ("op", text(sign)),
            ("left", whole(1)),
            ("right", whole(2)),
        ])
    };
    for (sign, op) in [
        ("==", ComparisonOp::Equal),
        ("!=", ComparisonOp::NotEqual),
        ("<", ComparisonOp::LessThan),
        ("<=", ComparisonOp::LessThanOrEqual),
        (">", ComparisonOp::GreaterThan),
        (">=", ComparisonOp::GreaterThanOrEqual),
    ] {
        match read(comparison(sign)).unwrap() {
            Condition::Comparison { op: got, .. } => assert_eq!(got, op),
            _ => panic!("no comparison"),
        }
        assert_eq!(op.name(), sign);
        assert_eq!(ComparisonOp::from_name(sign), Some(op));
    }
    assert!(read(comparison("=")).is_none());
    assert!(read(object(vec![("type", text("comparison")), ("op", text("<")), ("left", whole(1))]))
        .is_none());
    let and = object(vec![("type", text("and")), ("operands", Value::List(vec![comparison("<")]))]);
    assert!(matches!(read(and).unwrap(), Condition::And { operands } if operands.len() == 1));
    let or = object(vec![("type", text("or")), ("operands", Value::List(vec![]))]);
    assert!(matches!(read(or).unwrap(), Condition::Or { operands } if operands.is_empty()));
    let bad = object(vec![("type", text("or")), ("operands", Value::List(vec![whole(1)]))]);
    assert!(read(bad).is_none());
    let not = object(vec![("type", text("not")), ("operand", comparison(">="))]);
    assert!(matches!(read(not).unwrap(), Condition::Not { .. }));
    assert!(read(object(vec![("type", text("xor"))])).is_none());
    assert!(read(object(vec![("op", text("<"))])).is_none());
    assert!(read(whole(1)).is_none());
}

#[test]
fn actions_need_actor_operation_and_target() {
    let full = |skip: &str| {
        let entries: Vec<(&str, Value)> =
            vec![("actor", text("a")), ("op", text("Emit")), ("target", text("t"))]
                .into_iter()
                .filter(|(k, _)| *k != skip)
                .collect();
        object(entries)
    };
    assert!(Action::from_value(&full("")).is_some());
    for key in ["actor", "op", "target"] {
        assert!(Action::from_value(&full(key)).is_none());
    }
    assert!(Action::from_value(&whole(1)).is_none());
    let with = |key: &str, v: Value| {
        object(vec![("actor", text("a")), ("op", text("Emit")), ("target", text("t")), (key, v)])
    };
    assert!(Action::from_value(&with("op2", whole(1))).is_some());
    for key in ["t", "dur", "params", "pre", "post", "effects", "condition", "then", "else", "body", "var"]
    {
        assert!(Action::from_value(&with(key, Value::Null)).is_some(), "{}", key);
        assert!(Action::from_value(&with(key, Value::Bool(true))).is_none(), "{}", key);
    }
    let timed = Action::from_value(&with("t", whole(3))).unwrap();
    assert_eq!(timed.t, Some(3.0f64.to_bits()));
    let timed = Action::from_value(&with("dur", float(0.5))).unwrap();
    assert_eq!(timed.dur, Some(0.5f64.to_bits()));
    assert!(Action::from_value(&with("effects", Value::List(vec![text("a"), whole(1)]))).is_none());
    assert!(Action::from_value(&with("then", Value::List(vec![whole(1)]))).is_none());
    let bound = Action::from_value(&with("from", Value::Bool(true))).unwrap();
    assert!(matches!(bound.from_expr, Some(Expression::Value(Value::Bool(true)))));
    let unknown = object(vec![("actor", text("a")), ("op", text("Fly")), ("target", text("t"))]);
    assert!(Action::from_value(&unknown).is_none());
}

#[test]
fn programs_need_a_list_of_actions() {
    assert!(Program::from_value(&object(vec![("actions", Value::List(vec![]))])).is_some());
    assert!(Program::from_value(&object(vec![])).is_none());
    assert!(Program::from_value(&object(vec![("actions", whole(1))])).is_none());
    assert!(Program::from_value(&object(vec![
        ("actions", Value::List(vec![])),
        ("metadata", whole(1))
    ]))
    .is_none());
    assert!(Program::from_value(&Value::List(vec![])).is_none());
    let with_null = Program::from_value(&object(vec![
        ("metadata", Value::Null),
        ("actions", Value::List(vec![])),
    ]))
    .unwrap();
    assert!(with_null.metadata.is_none());
}

#[test]
fn copies_are_equal_to_what_was_copied() {
    let program = sample_program();
    for action in &program.actions {
        let copy = action.clone();
        assert!(copy.to_value().equals(&action.to_value()));
    }
    let v = object(vec![("a", Value::List(vec![whole(1), float(2.5), text("x"), Value::Null]))]);
    assert!(v.clone().equals(&v));
    assert_eq!(v.to_json_text(), "{\"a\":[1,2.5,\"x\",null]}");
    assert_eq!(v.as_object().unwrap().len(), 1);
    assert!(v.as_array().is_none());
    assert_eq!(text("s").as_str(), Some("s"));
    assert_eq!(whole(7).as_i64(), Some(7));
    assert_eq!(whole(u64::MAX).as_i64(), None);
    assert_eq!(float(7.0).as_i64(), Some(7));
    assert_eq!(float(7.5).as_i64(), None);
    assert_eq!(whole(7).as_float(), Some(7.0f64.to_bits()));
    assert_eq!(Value::Number(Number::NegInt(-7)).as_float(), Some((-7.0f64).to_bits()));
    assert_eq!(text("7").as_float(), None);
}

fn document(op: &str, extra: Vec<(&str, Value)>) -> Value {
    let mut entries = vec![("actor", text("VM")), ("op", text(op)), ("target", text("t"))];
    entries.extend(extra);
    object(entries)
}

#[test]
fn compound_actions_need_what_their_operation_requires() {
    let always = || object(vec![("type", text("and")), ("operands", Value::List(vec![]))]);
    for op in ["If", "While"] {
        assert!(Action::from_value(&document(op, vec![])).is_none(), "{}", op);
        assert!(Action::from_value(&document(op, vec![("condition", Value::Null)])).is_none());
        assert!(Action::from_value(&document(op, vec![("then", Value::List(vec![]))])).is_none());
        let read = Action::from_value(&document(op, vec![("condition", always())])).unwrap();
        assert!(read.has_required());
        assert!(matches!(read.condition, Some(Condition::And { .. })));
    }
    let bounds = |skip: &str| {
        let all = vec![("var", text("i")), ("from", whole(1)), ("to", whole(3))];
        document("For", all.into_iter().filter(|(k, _)| *k != skip).collect())
    };
    assert!(Action::from_value(&bounds("")).is_some());
    for key in ["var", "from", "to"] {
        assert!(Action::from_value(&bounds(key)).is_none(), "{}", key);
    }
    assert!(Action::from_value(&document("For", vec![])).is_none());
    let define = |args: Value, body: Value| {
        document("DefineFunction", vec![("params", object(vec![("args", args), ("body", body)]))])
    };
    assert!(Action::from_value(&define(Value::List(vec![text("n")]), Value::List(vec![]))).is_some());
    assert!(Action::from_value(&define(text("n"), Value::List(vec![]))).is_none());
    assert!(Action::from_value(&define(Value::List(vec![]), Value::Null)).is_none());
    assert!(Action::from_value(&document("DefineFunction", vec![])).is_none());
    assert!(Action::from_value(&define(Value::List(vec![]), Value::List(vec![whole(1)]))).is_none());
    let inner = Value::List(vec![document("While", vec![])]);
    assert!(Action::from_value(&define(Value::List(vec![]), inner)).is_none());
    let inner = Value::List(vec![document("Return", vec![])]);
    assert!(Action::from_value(&define(Value::List(vec![]), inner)).is_some());
    let nested = document(
        "If",
        vec![("condition", always()), ("then", Value::List(vec![document("While", vec![])]))],
    );
    assert!(Action::from_value(&nested).is_none());
    let program = object(vec![("actions", Value::List(vec![document("For", vec![])]))]);
    assert!(Program::from_value(&program).is_none());
    assert!(Action::from_value(&document("Emit", vec![])).is_some());
    assert!(!Action::new("VM", Operation::If, "t").has_required());
    assert!(Action::new("VM", Operation::Emit, "t").has_required());
}

#[test]
fn a_bound_is_the_expression_under_its_key_whatever_stands_there() {
    let read = Action::from_value(&document(
        "For",
        vec![("var", text("i")), ("from", Value::Null), ("to", object(vec![("var", text("n"))]))],
    ))
    .unwrap();
    assert!(matches!(read.from_expr, Some(Expression::Value(Value::Null))));
    assert!(matches!(read.to_expr, Some(Expression::Variable { .. })));
    let again = Action::from_value(&read.to_value()).unwrap();
    assert!(matches!(again.from_expr, Some(Expression::Value(Value::Null))));
    assert!(again.to_value().equals(&read.to_value()));
}

fn counted(from: Value) -> Program {
    let mut each = Action::new("VM", Operation::For, "loop");
    each.loop_var = Some("i".to_string());
    each.from_expr = Some(Expression::Value(from));
    each.to_expr = Some(Expression::Value(whole(3)));
    each.body_actions = Some(vec![
        Action::new("a", Operation::Emit, "x"),
        Action::new("a", Operation::Emit, "y"),
    ]);
    let mut program = Program::new();
    program.add_action(each);
    program.add_action(Action::new("b", Operation::Wait, "z"));
    program
}

#[test]
fn structure_survives_whatever_the_literals_are_read_as() {
    for literal in [
        object(vec![("var", text("x"))]),
        object(vec![("var", text("x")), ("z", whole(1))]),
        object(vec![("call", text("f")), ("args", object(vec![]))]),
        whole(1),
    ] {
        let program = counted(literal);
        let read = Program::from_value(&program.to_value()).unwrap();
        assert_eq!(read.actions.len(), program.actions.len());
        for (a, b) in program.actions.iter().zip(read.actions.iter()) {
            assert!(a.op.same(&b.op));
            assert_eq!(a.actor, b.actor);
            assert_eq!(a.target, b.target);
            assert_eq!(a.loop_var, b.loop_var);
            assert_eq!(a.from_expr.is_some(), b.from_expr.is_some());
            assert_eq!(
                a.body_actions.as_ref().map(|x| x.len()),
                b.body_actions.as_ref().map(|x| x.len())
            );
        }
    }
}

#[test]
fn a_second_writing_is_the_first_where_the_literals_write_back() {
    let exact = counted(object(vec![("var", text("x"))]));
    let first = exact.to_value();
    let read = Program::from_value(&first).unwrap();
    assert!(matches!(read.actions[0].from_expr, Some(Expression::Variable { .. })));
    assert!(read.to_value().equals(&first));
    let plain = counted(whole(1));
    let first = plain.to_value();
    assert!(Program::from_value(&first).unwrap().to_value().equals(&first));
    let more = counted(object(vec![("var", text("x")), ("z", whole(1))]));
    let first = more.to_value();
    let read = Program::from_value(&first).unwrap();
    assert!(matches!(read.actions[0].from_expr, Some(Expression::Variable { .. })));
    assert!(!read.to_value().equals(&first));
}
