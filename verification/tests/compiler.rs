use ucl::ast::{Action, BinaryExpr, ComparisonOp, Condition, Expression, Operation, Program};
use ucl::compiler::ruby::RubyCompiler;
use ucl::error::ErrorKind;
use ucl::value::{Number, Value};

fn float(x: f64) -> Value {
    Value::Number(Number::Float(x.to_bits()))
}

fn whole(n: u64) -> Value {
    Value::Number(Number::PosInt(n))
}

fn text(s: &str) -> Value {
    Value::String(s.to_string())
}

fn object(entries: Vec<(&str, Value)>) -> Value {
    Value::Object(entries.into_iter().map(|(k, v)| (k.to_string(), v)).collect())
}

fn params(entries: Vec<(&str, Value)>) -> Vec<(String, Value)> {
    entries.into_iter().map(|(k, v)| (k.to_string(), v)).collect()
}

fn var(name: &str) -> Expression {
    Expression::Variable { var: name.to_string() }
}

fn binary(op: &str, left: Expression, right: Expression) -> Expression {
    Expression::BinaryOp { expr: Box::new(BinaryExpr { op: op.to_string(), left, right }) }
}

fn action_doc(op: &str, target: &str, extra: Vec<(&str, Value)>) -> Value {
    let mut entries = vec![("actor", text("VM")), ("op", text(op)), ("target", text(target))];
    entries.extend(extra);
    object(entries)
}

#[test]
fn test_compile_assign() {
    let mut compiler = RubyCompiler::new();
    let action = Action::new("VM", Operation::Assign, "x")
        .with_params(params(vec![("value", whole(42))]));
    let code = compiler.compile_action(&action).unwrap();
    assert!(code.contains("x = 42"));
    assert_eq!(code, "x = 42");
    assert_eq!(compiler.variables.get("x").unwrap(), "assigned");
}

#[test]
fn test_compile_call() {
    let mut compiler = RubyCompiler::new();
    let action = Action::new("VM", Operation::Call, "+")
        .with_params(params(vec![("lhs", whole(2)), ("rhs", whole(3))]));
    let code = compiler.compile_action(&action).unwrap();
    assert!(code.contains("(2 + 3)"));
}

#[test]
fn test_compile_emit() {
    let mut compiler = RubyCompiler::new();
    let action = Action::new("speaker", Operation::Emit, "message")
        .with_params(params(vec![("content", text("Hello, World!"))]));
    let code = compiler.compile_action(&action).unwrap();
    assert!(code.contains("puts"));
    assert!(code.contains("Hello, World!"));
    assert_eq!(code, "puts \"Hello, World!\"");
}

#[test]
fn values_as_ruby_literals() {
    let c = RubyCompiler::new();
    assert_eq!(c.value_to_ruby(&text("say \"hi\"")), "\"say \\\"hi\\\"\"");
    assert_eq!(c.value_to_ruby(&Value::Null), "nil");
    assert_eq!(c.value_to_ruby(&Value::Bool(true)), "true");
    assert_eq!(c.value_to_ruby(&Value::Bool(false)), "false");
    assert_eq!(c.value_to_ruby(&whole(0)), "0");
    assert_eq!(c.value_to_ruby(&whole(u64::MAX)), "18446744073709551615");
    assert_eq!(c.value_to_ruby(&Value::Number(Number::NegInt(i64::MIN))), "-9223372036854775808");
    assert_eq!(c.value_to_ruby(&Value::Number(Number::NegInt(-17))), "-17");
    assert_eq!(
        c.value_to_ruby(&Value::List(vec![whole(1), text("a"), Value::List(vec![])])),
        "[1, \"a\", []]"
    );
    assert_eq!(
        c.value_to_ruby(&object(vec![("a", whole(1)), ("b", Value::Null)])),
        "{a: 1, b: nil}"
    );
}

#[test]
fn floats_are_written_as_the_shortest_text_that_reads_back() {
    let c = RubyCompiler::new();
    let samples: [f64; 14] = [
        0.0,
        -0.0,
        1.0,
        42.0,
        0.1,
        -2.5,
        3.14,
        1e21,
        1e-7,
        123456789.123,
        1.7976931348623157e308,
        5e-324,
        0.30000000000000004,
        1e15,
    ];
    for x in samples {
        let got = c.value_to_ruby(&float(x));
        let expected = format!("{:?}", x);
        let back: f64 = got.parse().unwrap();
        assert_eq!(back.to_bits(), x.to_bits(), "{} reads back as {}", got, back);
        if x.abs() >= 1e-5 && x.abs() < 1e16 || x == 0.0 {
            assert_eq!(got, expected);
        }
    }
}

#[test]
fn expressions_and_conditions() {
    let c = RubyCompiler::new();
    let e = binary("-", var("n"), Expression::Value(whole(1)));
    assert_eq!(c.compile_expression(&e).unwrap(), "(n - 1)");
    let call = Expression::FunctionCall {
        call: "fibonacci".to_string(),
        args: vec![("n".to_string(), e)],
    };
    assert_eq!(c.compile_expression(&call).unwrap(), "fibonacci((n - 1))");
    let le = Condition::Comparison {
        op: ComparisonOp::LessThanOrEqual,
        left: var("n"),
        right: Expression::Value(whole(1)),
    };
    assert_eq!(c.compile_condition(&le).unwrap(), "n <= 1");
    let ne = Condition::Comparison {
        op: ComparisonOp::NotEqual,
        left: var("a"),
        right: Expression::Value(text("x")),
    };
    let both = Condition::And { operands: vec![le, ne] };
    assert_eq!(c.compile_condition(&both).unwrap(), "(n <= 1 && a != \"x\")");
    let either = Condition::Or { operands: vec![] };
    assert_eq!(c.compile_condition(&either).unwrap(), "false");
    let all = Condition::And { operands: vec![] };
    assert_eq!(c.compile_condition(&all).unwrap(), "true");
    let not = Condition::Not { operand: Box::new(both) };
    assert_eq!(c.compile_condition(&not).unwrap(), "!((n <= 1 && a != \"x\"))");
}

fn fibonacci() -> Program {
    let n = || object(vec![("var", text("n"))]);
    let fib_of = |k: u64| {
        object(vec![
            ("call", text("fibonacci")),
            (
                "args",
                object(vec![(
                    "n",
                    object(vec![(
                        "expr",
                        object(vec![("op", text("-")), ("left", n()), ("right", whole(k))]),
                    )]),
                )]),
            ),
        ])
    };
    let sum = object(vec![(
        "expr",
        object(vec![("op", text("+")), ("left", fib_of(1)), ("right", fib_of(2))]),
    )]);
    let base = action_doc(
        "If",
        "base_case",
        vec![
            (
                "condition",
                object(vec![
                    ("type", text("comparison")),
                    ("op", text("<=")),
                    ("left", n()),
                    ("right", whole(1)),
                ]),
            ),
            (
                "then",
                Value::List(vec![action_doc(
                    "Return",
                    "result",
                    vec![("params", object(vec![("value", n())]))],
                )]),
            ),
            (
                "else",
                Value::List(vec![action_doc(
                    "Return",
                    "result",
                    vec![("params", object(vec![("value", sum)]))],
                )]),
            ),
        ],
    );
    let define = Action::new("VM", Operation::DefineFunction, "fibonacci").with_params(params(
        vec![("args", Value::List(vec![text("n")])), ("body", Value::List(vec![base]))],
    ));
    let mut each = Action::new("VM", Operation::For, "loop");
    each.loop_var = Some("i".to_string());
    each.from_expr = Some(Expression::Value(whole(0)));
    each.to_expr = Some(Expression::Value(whole(10)));
    each.body_actions = Some(vec![Action::new("VM", Operation::Emit, "out").with_params(params(
        vec![("content", object(vec![("call", text("fibonacci")), ("args", object(vec![("n", object(vec![("var", text("i"))]))]))]))],
    ))]);
    let mut program = Program::new();
    program.add_action(define);
    program.add_action(each);
    program
}

#[test]
fn fibonacci_program() {
    let mut compiler = RubyCompiler::new();
    let code = compiler.compile(&fibonacci()).unwrap();
    let expected = "# Generated from UCL\n\
# Universal Causal Language -> Ruby Compiler\n\
\n\
def fibonacci(n)\n\
\x20 if n <= 1\n\
\x20   return n\n\
\x20 else\n\
\x20   return (fibonacci((n - 1)) + fibonacci((n - 2)))\n\
\x20 end\n\
end\n\
(0 .. 10).each do |i|\n\
\x20 puts fibonacci(i)\n\
end\n";
    assert_eq!(code, expected);
    assert!(code.contains("def fibonacci(n)"));
    assert!(code.contains("if n <= 1"));
    assert!(code.contains("return"));
    assert!(code.contains("fibonacci((n - 1))"));
    assert!(code.contains("fibonacci((n - 2))"));
    assert_eq!(compiler.indent_level, 0);
}

#[test]
fn leaf_actions() {
    let mut c = RubyCompiler::new();
    let line = |c: &mut RubyCompiler, a: Action| c.compile_action(&a).unwrap();
    assert_eq!(line(&mut c, Action::new("VM", Operation::Read, "x")), "x");
    assert_eq!(line(&mut c, Action::new("VM", Operation::Create, "Dog")), "Dog.new");
    assert_eq!(
        line(
            &mut c,
            Action::new("VM", Operation::Create, "Dog")
                .with_params(params(vec![("name", text("Rex")), ("age", whole(3))]))
        ),
        "Dog.new(name: \"Rex\", age: 3)"
    );
    assert_eq!(
        line(
            &mut c,
            Action::new("VM", Operation::Write, "z").with_params(params(vec![
                ("operation", text("add")),
                ("lhs_register", text("x")),
                ("rhs", whole(2)),
            ]))
        ),
        "z = x + 2"
    );
    assert_eq!(
        line(
            &mut c,
            Action::new("VM", Operation::Write, "z").with_params(params(vec![
                ("operation", text("weird")),
                ("lhs", float(1.5)),
                ("rhs_register", whole(2)),
            ]))
        ),
        "z = 1.5 * "
    );
    assert_eq!(
        line(
            &mut c,
            Action::new("VM", Operation::Write, "z").with_params(params(vec![("value", text("v"))]))
        ),
        "z = \"v\""
    );
    assert_eq!(
        line(&mut c, Action::new("VM", Operation::Call, "**").with_params(params(vec![
            ("lhs_register", text("a")),
            ("rhs_register", text("b")),
        ]))),
        "(a ** b)"
    );
    assert_eq!(
        line(&mut c, Action::new("VM", Operation::Call, "puts").with_params(params(vec![
            ("x", whole(1)),
            ("a", whole(2)),
            ("other", whole(3)),
        ]))),
        "puts(2, 1)"
    );
    assert_eq!(
        line(&mut c, Action::new("VM", Operation::Call, "open").with_params(params(vec![
            ("receiver", whole(1)),
            ("path", text("f")),
            ("mode", text("r")),
        ]))),
        "open(path: \"f\", mode: \"r\")"
    );
    assert_eq!(line(&mut c, Action::new("VM", Operation::Call, "run")), "run()");
    assert_eq!(line(&mut c, Action::new("VM", Operation::Emit, "x")), "puts x");
    assert_eq!(
        line(
            &mut c,
            Action::new("VM", Operation::Emit, "x").with_params(params(vec![("message", text("m"))]))
        ),
        "puts \"m\""
    );
    assert_eq!(line(&mut c, Action::new("VM", Operation::Assert, "sky")), "# Assert: \"sky\"");
    assert_eq!(
        line(&mut c, Action::new("VM", Operation::StoreFact, "cat")),
        "# Store fact about cat"
    );
    assert_eq!(
        line(
            &mut c,
            Action::new("VM", Operation::StoreFact, "cat")
                .with_params(params(vec![("color", text("black")), ("legs", whole(4))]))
        ),
        "# Store fact: cat.color = \"black\", cat.legs = 4"
    );
    assert_eq!(
        line(
            &mut c,
            Action::new("VM", Operation::Bind, "y")
                .with_params(params(vec![("value", object(vec![("var", text("x"))]))]))
        ),
        "y = x"
    );
    assert_eq!(line(&mut c, Action::new("VM", Operation::Return, "r")), "return r");
    assert_eq!(line(&mut c, Action::new("VM", Operation::Decide, "d")), "if true");
    assert_eq!(line(&mut c, Action::new("VM", Operation::Wait, "w")), "sleep 1");
    assert_eq!(
        line(&mut c, Action::new("VM", Operation::Wait, "w").with_duration(2.5f64.to_bits())),
        "sleep 2.5"
    );
    assert_eq!(
        line(
            &mut c,
            Action::new("VM", Operation::Wait, "w")
                .with_params(params(vec![("duration", whole(3))]))
        ),
        "sleep 3"
    );
    assert_eq!(
        line(&mut c, Action::new("VM", Operation::GenRandomInt, "dice").with_params(params(vec![
            ("min", whole(1)),
            ("max", whole(6)),
        ]))),
        "dice = rand(1..6)"
    );
    assert_eq!(line(&mut c, Action::new("VM", Operation::GenRandomInt, "n")), "n = rand(0..9)");
    assert_eq!(
        line(&mut c, Action::new("VM", Operation::Grok, "it")),
        "# Unsupported operation: Grok on it"
    );
    assert_eq!(
        line(&mut c, Action::new("VM", Operation::Custom("Hop".to_string()), "it")),
        "# Unsupported operation: Custom(\"Hop\") on it"
    );
    assert_eq!(c.variables.get("y").unwrap(), "bound");
    assert_eq!(c.variables.get("dice").unwrap(), "random_int");
}

#[test]
fn actions_that_lack_a_field_have_no_text() {
    let mut c = RubyCompiler::new();
    for op in [
        Operation::Assign,
        Operation::Bind,
        Operation::Write,
        Operation::If,
        Operation::While,
        Operation::For,
        Operation::DefineFunction,
    ] {
        let err = c.compile_action(&Action::new("VM", op.clone(), "t")).unwrap_err();
        assert_eq!(err.kind, ErrorKind::MalformedAction);
        assert_eq!(err.subject, format!("{:?}(t)", op));
    }
    assert!(c.variables.get("t").is_none());
    let write = Action::new("VM", Operation::Write, "t")
        .with_params(params(vec![("operation", text("add")), ("lhs", whole(1))]));
    assert_eq!(c.compile_action(&write).unwrap_err().kind, ErrorKind::MalformedAction);
}

#[test]
fn while_is_indented_at_the_generators_level() {
    let mut c = RubyCompiler::new();
    c.indent_level = 1;
    let mut action = Action::new("VM", Operation::While, "loop");
    action.condition = Some(Condition::Comparison {
        op: ComparisonOp::LessThan,
        left: var("i"),
        right: Expression::Value(whole(3)),
    });
    action.body_actions = Some(vec![
        Action::new("VM", Operation::Read, "i"),
        Action::new("VM", Operation::Read, ""),
    ]);
    assert_eq!(c.compile_action(&action).unwrap(), "  while i < 3\n    i\n    \n  end");
}
