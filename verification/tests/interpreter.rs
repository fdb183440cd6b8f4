use ucl::ast::{Action, BinaryExpr, ComparisonOp, Condition, Expression, Operation, Program};
use ucl::error::ErrorKind;
use ucl::guard::RecursionGuard;
use ucl::interp::{
    apply_binary_op, compare_values, evaluate_condition, evaluate_expression, execute,
    execute_action, run, FunctionTable,
};
use ucl::handler::VariableStore;
use ucl::simulator::brain::{BrainMind, BrainSimulator};
use ucl::value::{Number, Value};

fn float(x: f64) -> Value {
    Value::Number(Number::Float(x.to_bits()))
}

fn whole(n: u64) -> Value {
    Value::Number(Number::PosInt(n))
}

fn text(s: &str) -> Value {
    Value::String(s.to_string())
}

fn lit(v: Value) -> Expression {
    Expression::Value(v)
}

fn var(name: &str) -> Expression {
    Expression::Variable { var: name.to_string() }
}

fn binary(op: &str, left: Expression, right: Expression) -> Expression {
    Expression::BinaryOp { expr: Box::new(BinaryExpr { op: op.to_string(), left, right }) }
}

fn call(name: &str, args: Vec<(&str, Expression)>) -> Expression {
    Expression::FunctionCall {
        call: name.to_string(),
        args: args.into_iter().map(|(k, e)| (k.to_string(), e)).collect(),
    }
}

fn object(entries: Vec<(&str, Value)>) -> Value {
    Value::Object(entries.into_iter().map(|(k, v)| (k.to_string(), v)).collect())
}

fn params(entries: Vec<(&str, Value)>) -> Vec<(String, Value)> {
    entries.into_iter().map(|(k, v)| (k.to_string(), v)).collect()
}

fn compare(op: ComparisonOp, left: Expression, right: Expression) -> Condition {
    Condition::Comparison { op, left, right }
}

struct Run {
    store: VariableStore,
    functions: FunctionTable,
    mind: BrainMind,
}

fn fresh() -> Run {
    Run { store: VariableStore::new(), functions: FunctionTable::new(), mind: BrainMind::new() }
}

fn eval(run: &mut Run, e: &Expression) -> Result<Value, ucl::error::ExecError> {
    evaluate_expression(e, &mut run.store, &mut run.functions, &mut run.mind, RecursionGuard::default())
}

fn test(run: &mut Run, c: &Condition) -> Result<bool, ucl::error::ExecError> {
    evaluate_condition(c, &mut run.store, &mut run.functions, &mut run.mind, RecursionGuard::default())
}

fn exec(run: &mut Run, a: &Action) -> Result<(), ucl::error::ExecError> {
    execute_action(a, &mut run.store, &mut run.functions, &mut run.mind, RecursionGuard::default())
}

fn as_f64(v: &Value) -> f64 {
    match v {
        Value::Number(Number::Float(bits)) => f64::from_bits(*bits),
        other => panic!("not a float: {:?}", other),
    }
}

fn add_to(target: &str, left: &str, right: &str) -> Action {
    Action::new("VM", Operation::Write, target).with_params(params(vec![
        ("lhs_register", text(left)),
        ("rhs_register", text(right)),
        ("operation", text("add")),
    ]))
}

fn return_of(value: Value) -> Action {
    Action::new("VM", Operation::Return, "result").with_params(params(vec![("value", value)]))
}

fn define(name: &str, args: Vec<&str>, body: Vec<Value>) -> Action {
    Action::new("VM", Operation::DefineFunction, name).with_params(params(vec![
        ("args", Value::List(args.into_iter().map(text).collect())),
        ("body", Value::List(body)),
    ]))
}

fn action_doc(op: &str, target: &str, extra: Vec<(&str, Value)>) -> Value {
    let mut entries = vec![("actor", text("VM")), ("op", text(op)), ("target", text(target))];
    entries.extend(extra);
    object(entries)
}

#[test]
fn arithmetic_matches_native_binary64() {
    let samples: [(f64, f64); 8] = [
        (1.0, 2.0),
        (0.1, 0.2),
        (-7.5, 3.25),
        (1e308, 1e-308),
        (123456789.123, 0.000987),
        (5.0, -3.0),
        (-5.5, 2.0),
        (4.9e-324, 2.0),
    ];
    for (a, b) in samples {
        let cases: [(&str, f64); 5] =
            [("+", a + b), ("-", a - b), ("*", a * b), ("/", a / b), ("%", a % b)];
        for (op, expected) in cases {
            let got = apply_binary_op(op, &float(a), &float(b)).unwrap();
            if expected.is_nan() {
                assert!(as_f64(&got).is_nan(), "{} {} {}", a, op, b);
            } else {
                assert_eq!(as_f64(&got).to_bits(), expected.to_bits(), "{} {} {}", a, op, b);
            }
        }
    }
}

#[test]
fn integer_operands_are_converted_to_binary64() {
    let mut run = fresh();
    let e = binary("+", lit(whole(2)), lit(whole(3)));
    assert_eq!(as_f64(&eval(&mut run, &e).unwrap()), 5.0);
    let big = 9_007_199_254_740_993u64;
    let e = binary("+", lit(whole(big)), lit(whole(0)));
    assert_eq!(as_f64(&eval(&mut run, &e).unwrap()), big as f64);
    let e = binary("*", lit(Value::Number(Number::NegInt(-4))), lit(float(0.5)));
    assert_eq!(as_f64(&eval(&mut run, &e).unwrap()), -2.0);
}

#[test]
fn an_overflowing_result_is_the_infinity_of_binary64() {
    let got = apply_binary_op("*", &float(1e308), &float(10.0)).unwrap();
    assert_eq!(as_f64(&got), f64::INFINITY);
    let got = apply_binary_op("*", &float(-1e308), &float(10.0)).unwrap();
    assert_eq!(as_f64(&got), f64::NEG_INFINITY);
    let none = apply_binary_op("-", &got, &got).unwrap();
    assert!(as_f64(&none).is_nan());
    assert!(!none.equals(&none));
    assert_eq!(got.to_json_text(), "null");
}

#[test]
fn division_by_literal_zero_fails() {
    let mut run = fresh();
    for zero in [whole(0), float(0.0), float(-0.0), Value::Number(Number::NegInt(0))] {
        for op in ["/", "%"] {
            let e = binary(op, lit(float(1.0)), lit(zero.clone()));
            let err = eval(&mut run, &e).unwrap_err();
            assert_eq!(err.kind, ErrorKind::DivideByZero);
            assert_eq!(err.subject, op);
        }
    }
}

#[test]
fn evaluation_errors() {
    let mut run = fresh();
    let err = eval(&mut run, &var("missing")).unwrap_err();
    assert_eq!(err.kind, ErrorKind::UnboundVariable);
    assert_eq!(err.subject, "missing");
    assert_eq!(err.action, None);
    let err = eval(&mut run, &binary("+", lit(text("a")), lit(whole(1)))).unwrap_err();
    assert_eq!(err.kind, ErrorKind::TypeMismatch);
    let err = eval(&mut run, &binary("^", lit(whole(2)), lit(whole(1)))).unwrap_err();
    assert_eq!(err.kind, ErrorKind::UnknownOperator);
    let err = eval(&mut run, &call("nobody", vec![])).unwrap_err();
    assert_eq!(err.kind, ErrorKind::UnknownFunction);
    assert_eq!(err.subject, "nobody");
}

#[test]
fn left_operand_is_evaluated_before_right() {
    let mut run = fresh();
    let e = binary("+", var("first"), var("second"));
    assert_eq!(eval(&mut run, &e).unwrap_err().subject, "first");
}

#[test]
fn empty_conjunction_is_true_and_empty_disjunction_false() {
    let mut run = fresh();
    assert_eq!(test(&mut run, &Condition::And { operands: vec![] }).unwrap(), true);
    assert_eq!(test(&mut run, &Condition::Or { operands: vec![] }).unwrap(), false);
    run.store.insert("x".to_string(), whole(1));
    assert_eq!(test(&mut run, &Condition::And { operands: vec![] }).unwrap(), true);
    assert_eq!(test(&mut run, &Condition::Or { operands: vec![] }).unwrap(), false);
}

#[test]
fn conjunction_and_disjunction_short_circuit() {
    let mut run = fresh();
    let fails = compare(ComparisonOp::Equal, var("unbound"), lit(whole(1)));
    let yes = compare(ComparisonOp::Equal, lit(whole(1)), lit(whole(1)));
    let no = compare(ComparisonOp::Equal, lit(whole(1)), lit(whole(2)));
    let and = Condition::And { operands: vec![no.clone(), fails.clone()] };
    assert_eq!(test(&mut run, &and).unwrap(), false);
    let or = Condition::Or { operands: vec![yes.clone(), fails.clone()] };
    assert_eq!(test(&mut run, &or).unwrap(), true);
    let and = Condition::And { operands: vec![yes, fails.clone()] };
    assert_eq!(test(&mut run, &and).unwrap_err().kind, ErrorKind::UnboundVariable);
    let not = Condition::Not { operand: Box::new(no) };
    assert_eq!(test(&mut run, &not).unwrap(), true);
}

#[test]
fn string_never_equals_number() {
    assert!(!compare_values(ComparisonOp::Equal, &text("1"), &whole(1)));
    assert!(compare_values(ComparisonOp::NotEqual, &text("1"), &whole(1)));
    let mut run = fresh();
    let mut action = Action::new("VM", Operation::If, "check");
    action.condition = Some(compare(ComparisonOp::Equal, lit(text("5")), lit(whole(5))));
    action.then_actions = Some(vec![Action::new("VM", Operation::Bind, "taken")
        .with_params(params(vec![("value", text("then"))]))]);
    action.else_actions = Some(vec![Action::new("VM", Operation::Bind, "taken")
        .with_params(params(vec![("value", text("else"))]))]);
    exec(&mut run, &action).unwrap();
    assert!(run.store.get("taken").unwrap().equals(&text("else")));
}

#[test]
fn orderings_of_values_that_are_no_numbers_are_false() {
    for op in [
        ComparisonOp::LessThan,
        ComparisonOp::LessThanOrEqual,
        ComparisonOp::GreaterThan,
        ComparisonOp::GreaterThanOrEqual,
    ] {
        assert!(!compare_values(op, &text("a"), &text("b")));
        assert!(!compare_values(op, &text("1"), &whole(2)));
        assert!(!compare_values(op, &Value::Null, &Value::Null));
    }
    assert!(compare_values(ComparisonOp::LessThan, &whole(1), &float(1.5)));
    assert!(compare_values(ComparisonOp::LessThanOrEqual, &whole(2), &float(2.0)));
    assert!(compare_values(ComparisonOp::GreaterThan, &float(-1.0), &float(-2.0)));
    assert!(compare_values(ComparisonOp::GreaterThanOrEqual, &float(0.0), &float(-0.0)));
    assert!(!compare_values(ComparisonOp::LessThan, &float(-0.0), &float(0.0)));
}

#[test]
fn equality_is_structural() {
    let a = object(vec![("x", whole(1)), ("y", Value::List(vec![text("a"), Value::Null]))]);
    let b = object(vec![("y", Value::List(vec![text("a"), Value::Null])), ("x", whole(1))]);
    assert!(a.equals(&b));
    let c = object(vec![("x", whole(1))]);
    assert!(!a.equals(&c));
    assert!(!c.equals(&a));
    assert!(whole(1).equals(&float(1.0)));
    assert!(float(1.0).equals(&whole(1)));
    assert!(!whole(1).equals(&float(1.5)));
    assert!(Value::Number(Number::NegInt(-2)).equals(&float(-2.0)));
    assert!(!whole(2).equals(&whole(3)));
    assert!(whole(0).equals(&float(-0.0)));
    assert!(float(0.0).equals(&float(-0.0)));
    assert!(Value::Number(Number::NegInt(-3)).equals(&Value::Number(Number::NegInt(-3))));
    assert!(!Value::Bool(true).equals(&Value::Bool(false)));
}

#[test]
fn for_leaves_total_and_loop_variable() {
    let mut run = fresh();
    run.store.insert("total".to_string(), whole(0));
    let mut action = Action::new("VM", Operation::For, "sum");
    action.loop_var = Some("i".to_string());
    action.from_expr = Some(lit(whole(1)));
    action.to_expr = Some(lit(whole(3)));
    action.body_actions = Some(vec![add_to("total", "total", "i")]);
    exec(&mut run, &action).unwrap();
    assert_eq!(as_f64(run.store.get("total").unwrap()), 6.0);
    assert!(run.store.get("i").unwrap().equals(&whole(3)));
}

#[test]
fn for_with_descending_bounds_runs_nothing() {
    let mut run = fresh();
    let mut action = Action::new("VM", Operation::For, "none");
    action.loop_var = Some("i".to_string());
    action.from_expr = Some(lit(whole(3)));
    action.to_expr = Some(lit(whole(1)));
    action.body_actions = Some(vec![add_to("total", "total", "i")]);
    exec(&mut run, &action).unwrap();
    assert!(run.store.get("i").is_none());
    assert!(run.store.get("total").is_none());
}

#[test]
fn for_bounds_must_be_integers() {
    let mut run = fresh();
    let mut action = Action::new("VM", Operation::For, "loop");
    action.loop_var = Some("i".to_string());
    action.from_expr = Some(lit(float(1.5)));
    action.to_expr = Some(lit(whole(3)));
    let err = exec(&mut run, &action).unwrap_err();
    assert_eq!(err.kind, ErrorKind::NonIntegerBound);
    assert_eq!(err.subject, "For(loop)");
    action.from_expr = Some(lit(whole(1)));
    action.to_expr = Some(lit(text("3")));
    let err = exec(&mut run, &action).unwrap_err();
    assert_eq!(err.kind, ErrorKind::NonIntegerBound);
    action.to_expr = Some(lit(float(1e19)));
    let err = exec(&mut run, &action).unwrap_err();
    assert_eq!(err.kind, ErrorKind::NonIntegerBound);
    action.to_expr = Some(lit(Value::Null));
    let err = exec(&mut run, &action).unwrap_err();
    assert_eq!(err.kind, ErrorKind::NonIntegerBound);
}

#[test]
fn for_takes_a_bound_that_arithmetic_gives() {
    let mut run = fresh();
    run.store.insert("total".to_string(), whole(0));
    let mut action = Action::new("VM", Operation::For, "sum");
    action.loop_var = Some("i".to_string());
    action.from_expr = Some(lit(float(1.0)));
    action.to_expr = Some(binary("+", lit(whole(1)), lit(whole(2))));
    action.body_actions = Some(vec![add_to("total", "total", "i")]);
    exec(&mut run, &action).unwrap();
    assert_eq!(as_f64(run.store.get("total").unwrap()), 6.0);
    assert!(run.store.get("i").unwrap().equals(&whole(3)));
}

#[test]
fn a_difference_equals_the_integer_that_it_is() {
    let mut run = fresh();
    let one = binary("-", lit(whole(2)), lit(whole(1)));
    assert!(test(&mut run, &compare(ComparisonOp::Equal, one.clone(), lit(whole(1)))).unwrap());
    assert!(!test(&mut run, &compare(ComparisonOp::NotEqual, one.clone(), lit(whole(1)))).unwrap());
    assert!(!test(&mut run, &compare(ComparisonOp::Equal, one, lit(whole(2)))).unwrap());
}

#[test]
fn integers_are_read_from_integral_floats_only() {
    assert_eq!(float(3.0).as_i64(), Some(3));
    assert_eq!(float(-0.0).as_i64(), Some(0));
    assert_eq!(float(-7.0).as_i64(), Some(-7));
    assert_eq!(float(1.5).as_i64(), None);
    assert_eq!(float(0.5).as_i64(), None);
    assert_eq!(float(-2.5).as_i64(), None);
    assert_eq!(float(9223372036854775808.0).as_i64(), None);
    assert_eq!(float(-9223372036854775808.0).as_i64(), Some(i64::MIN));
    assert_eq!(float(9007199254740993.0).as_i64(), Some(9007199254740992));
    assert_eq!(whole(7).as_i64(), Some(7));
    assert_eq!(whole(u64::MAX).as_i64(), None);
}

#[test]
fn for_reaches_the_largest_integer() {
    let mut run = fresh();
    let mut action = Action::new("VM", Operation::For, "loop");
    action.loop_var = Some("i".to_string());
    action.from_expr = Some(lit(whole(i64::MAX as u64 - 1)));
    action.to_expr = Some(lit(whole(i64::MAX as u64)));
    exec(&mut run, &action).unwrap();
    assert!(run.store.get("i").unwrap().equals(&whole(i64::MAX as u64)));
}

#[test]
fn compound_actions_lacking_a_field_are_malformed() {
    let mut run = fresh();
    for op in [Operation::If, Operation::While, Operation::For, Operation::DefineFunction] {
        let err = exec(&mut run, &Action::new("VM", op.clone(), "broken")).unwrap_err();
        assert_eq!(err.kind, ErrorKind::MalformedAction);
        assert_eq!(err.subject, format!("{:?}(broken)", op));
    }
}

#[test]
fn while_stops_after_exactly_ten_thousand_runs() {
    let mut run = fresh();
    run.store.insert("count".to_string(), whole(0));
    run.store.insert("one".to_string(), whole(1));
    let mut action = Action::new("VM", Operation::While, "forever");
    action.condition = Some(compare(ComparisonOp::Equal, lit(whole(1)), lit(whole(1))));
    action.body_actions = Some(vec![add_to("count", "count", "one")]);
    let err = exec(&mut run, &action).unwrap_err();
    assert_eq!(err.kind, ErrorKind::LoopLimitExceeded);
    assert_eq!(err.subject, "While(forever)");
    assert_eq!(err.action.as_deref(), Some("While(forever)"));
    assert_eq!(as_f64(run.store.get("count").unwrap()), 10000.0);
}

#[test]
fn while_runs_until_the_condition_fails() {
    let mut run = fresh();
    run.store.insert("count".to_string(), whole(0));
    run.store.insert("one".to_string(), whole(1));
    let mut action = Action::new("VM", Operation::While, "some");
    action.condition = Some(compare(ComparisonOp::LessThan, var("count"), lit(whole(10000))));
    action.body_actions = Some(vec![add_to("count", "count", "one")]);
    exec(&mut run, &action).unwrap();
    assert_eq!(as_f64(run.store.get("count").unwrap()), 10000.0);
}

#[test]
fn function_that_returns_its_own_call_hits_the_recursion_limit() {
    let mut run = fresh();
    let own_call = object(vec![("call", text("again")), ("args", object(vec![]))]);
    exec(&mut run, &define("again", vec![], vec![action_doc(
        "Return",
        "result",
        vec![("params", object(vec![("value", own_call)]))],
    )]))
    .unwrap();
    let err = eval(&mut run, &call("again", vec![])).unwrap_err();
    assert_eq!(err.kind, ErrorKind::RecursionLimitExceeded);
    assert_eq!(err.subject, "again");
    assert_eq!(err.action.as_deref(), Some("Return(result)"));
}

#[test]
fn nesting_deeper_than_the_guard_allows_fails() {
    let mut run = fresh();
    let mut inner = Action::new("VM", Operation::If, "inner");
    inner.condition = Some(Condition::And { operands: vec![] });
    inner.then_actions = Some(vec![Action::new("VM", Operation::Bind, "x")
        .with_params(params(vec![("value", whole(1))]))]);
    let mut outer = Action::new("VM", Operation::If, "outer");
    outer.condition = Some(Condition::And { operands: vec![] });
    outer.then_actions = Some(vec![inner]);
    let guard = RecursionGuard::new(2);
    let err = execute_action(&outer, &mut run.store, &mut run.functions, &mut run.mind, guard)
        .unwrap_err();
    assert_eq!(err.kind, ErrorKind::RecursionLimitExceeded);
    assert!(run.store.get("x").is_none());
    let guard = RecursionGuard::new(3);
    execute_action(&outer, &mut run.store, &mut run.functions, &mut run.mind, guard).unwrap();
    assert!(run.store.get("x").unwrap().equals(&whole(1)));
}

#[test]
fn top_level_return_halts_the_body() {
    let mut run = fresh();
    let body = vec![
        Action::new("VM", Operation::Bind, "seen").with_params(params(vec![("value", whole(1))])),
        return_of(object(vec![("var", text("seen"))])),
        Action::new("VM", Operation::Bind, "after").with_params(params(vec![("value", whole(2))])),
    ];
    let r = run_body(&mut run, &body).unwrap();
    assert!(r.unwrap().equals(&whole(1)));
    assert!(run.store.get("after").is_none());
}

fn run_body(run: &mut Run, body: &Vec<Action>) -> Result<Option<Value>, ucl::error::ExecError> {
    run_with(run, body)
}

fn run_with(r: &mut Run, body: &Vec<Action>) -> Result<Option<Value>, ucl::error::ExecError> {
    run(body, &mut r.store, &mut r.functions, &mut r.mind, RecursionGuard::default())
}

#[test]
fn return_nested_in_a_branch_does_not_halt_the_body() {
    let mut r = fresh();
    let mut branch = Action::new("VM", Operation::If, "branch");
    branch.condition = Some(Condition::And { operands: vec![] });
    branch.then_actions = Some(vec![return_of(whole(7))]);
    let body = vec![
        branch,
        Action::new("VM", Operation::Bind, "after").with_params(params(vec![("value", whole(2))])),
    ];
    let returned = run_with(&mut r, &body).unwrap();
    assert!(returned.is_none());
    assert!(r.store.get("after").unwrap().equals(&whole(2)));
}

#[test]
fn body_without_return_yields_null_from_a_call() {
    let mut run = fresh();
    exec(&mut run, &define("quiet", vec![], vec![])).unwrap();
    assert!(matches!(eval(&mut run, &call("quiet", vec![])).unwrap(), Value::Null));
    exec(&mut run, &define("bare", vec![], vec![action_doc("Return", "result", vec![])])).unwrap();
    assert!(matches!(eval(&mut run, &call("bare", vec![])).unwrap(), Value::Null));
}

fn factorial_with_nested_returns() -> Action {
    let n_minus_one = object(vec![(
        "expr",
        object(vec![("op", text("-")), ("left", object(vec![("var", text("n"))])), ("right", whole(1))]),
    )]);
    let product = object(vec![(
        "expr",
        object(vec![
            ("op", text("*")),
            ("left", object(vec![("var", text("n"))])),
            (
                "right",
                object(vec![("call", text("factorial")), ("args", object(vec![("n", n_minus_one)]))]),
            ),
        ]),
    )]);
    let base = action_doc(
        "If",
        "base_case",
        vec![
            (
                "condition",
                object(vec![
                    ("type", text("comparison")),
                    ("op", text("<=")),
                    ("left", object(vec![("var", text("n"))])),
                    ("right", whole(1)),
                ]),
            ),
            (
                "then",
                Value::List(vec![action_doc(
                    "Return",
                    "result",
                    vec![("params", object(vec![("value", whole(1))]))],
                )]),
            ),
            (
                "else",
                Value::List(vec![action_doc(
                    "Return",
                    "result",
                    vec![("params", object(vec![("value", product)]))],
                )]),
            ),
        ],
    );
    define("factorial", vec!["n"], vec![base])
}

#[test]
fn factorial_whose_returns_are_nested_returns_nothing() {
    let mut run = fresh();
    exec(&mut run, &factorial_with_nested_returns()).unwrap();
    let got = eval(&mut run, &call("factorial", vec![("n", lit(whole(5)))])).unwrap();
    assert!(matches!(got, Value::Null));
}

#[test]
fn factorial_of_five_is_120() {
    let mut run = fresh();
    let step = action_doc(
        "Write",
        "result",
        vec![(
            "params",
            object(vec![
                ("lhs_register", text("result")),
                ("rhs_register", text("i")),
                ("operation", text("multiply")),
            ]),
        )],
    );
    let body = vec![
        action_doc("Bind", "result", vec![("params", object(vec![("value", whole(1))]))]),
        action_doc(
            "For",
            "each",
            vec![
                ("var", text("i")),
                ("from", whole(1)),
                ("to", object(vec![("var", text("n"))])),
                ("body", Value::List(vec![step])),
            ],
        ),
        action_doc(
            "Return",
            "result",
            vec![("params", object(vec![("value", object(vec![("var", text("result"))]))]))],
        ),
    ];
    exec(&mut run, &define("factorial", vec!["n"], body)).unwrap();
    let got = eval(&mut run, &call("factorial", vec![("n", lit(whole(5)))])).unwrap();
    assert_eq!(as_f64(&got), 120.0);
}

#[test]
fn call_restores_parameters_and_keeps_other_bindings() {
    let mut run = fresh();
    run.store.insert("n".to_string(), text("outer"));
    let body = vec![
        action_doc("Bind", "temp", vec![("params", object(vec![("value", whole(9))]))]),
        action_doc(
            "Return",
            "result",
            vec![("params", object(vec![("value", object(vec![("var", text("n"))]))]))],
        ),
    ];
    exec(&mut run, &define("identity", vec!["n"], body)).unwrap();
    let got =
        eval(&mut run, &call("identity", vec![("n", lit(whole(4))), ("extra", lit(whole(5)))])).unwrap();
    assert!(got.equals(&whole(4)));
    assert!(run.store.get("n").unwrap().equals(&text("outer")));
    assert!(run.store.get("temp").unwrap().equals(&whole(9)));
    assert!(run.store.get("extra").unwrap().equals(&whole(5)));
}

#[test]
fn parameter_without_prior_value_stays_bound() {
    let mut run = fresh();
    exec(&mut run, &define("f", vec!["p"], vec![])).unwrap();
    eval(&mut run, &call("f", vec![("p", lit(whole(1)))])).unwrap();
    assert!(run.store.get("p").unwrap().equals(&whole(1)));
}

#[test]
fn error_in_a_body_keeps_what_was_done_before() {
    let mut run = fresh();
    let program = Program {
        metadata: None,
        actions: vec![
            Action::new("VM", Operation::Bind, "a").with_params(params(vec![("value", whole(1))])),
            {
                let mut bad = Action::new("VM", Operation::If, "bad");
                bad.condition = Some(compare(ComparisonOp::Equal, var("nowhere"), lit(whole(1))));
                bad
            },
            Action::new("VM", Operation::Bind, "b").with_params(params(vec![("value", whole(2))])),
        ],
    };
    let err = execute(
        &program,
        &mut run.store,
        &mut run.functions,
        &mut run.mind,
        RecursionGuard::default(),
    )
    .unwrap_err();
    assert_eq!(err.kind, ErrorKind::UnboundVariable);
    assert_eq!(err.subject, "nowhere");
    assert_eq!(err.action.as_deref(), Some("If(bad)"));
    assert!(run.store.get("a").unwrap().equals(&whole(1)));
    assert!(run.store.get("b").is_none());
}

#[test]
fn unsupported_operation_does_not_stop_the_run() {
    let mut sim = BrainSimulator::new();
    let mut program = Program::new();
    program.add_action(Action::new("someone", Operation::Flurble, "thing"));
    program.add_action(Action::new("someone", Operation::Custom("Dance".to_string()), "floor"));
    program.add_action(
        Action::new("someone", Operation::Bind, "x").with_params(params(vec![("value", whole(1))])),
    );
    sim.execute(&program).unwrap();
    assert!(sim.state().beliefs.get("x").unwrap().equals(&whole(1)));
    assert_eq!(sim.state().output.len(), 2);
    assert_eq!(sim.state().output[0], "I'm not sure what you mean...");
    assert_eq!(sim.state().thoughts[0], "Sorry, I don't know what that means: Flurble");
    assert_eq!(
        sim.state().thoughts[1],
        "Sorry, I don't know what that means: Custom(\"Dance\")"
    );
    assert_eq!(sim.state().trace, vec!["Flurble(thing)", "Custom(\"Dance\")(floor)", "Bind(x)"]);
}

#[test]
fn redefinition_overwrites() {
    let mut run = fresh();
    exec(&mut run, &define("f", vec![], vec![action_doc(
        "Return",
        "r",
        vec![("params", object(vec![("value", whole(1))]))],
    )]))
    .unwrap();
    exec(&mut run, &define("f", vec![], vec![action_doc(
        "Return",
        "r",
        vec![("params", object(vec![("value", whole(2))]))],
    )]))
    .unwrap();
    assert!(eval(&mut run, &call("f", vec![])).unwrap().equals(&whole(2)));
    assert_eq!(run.functions.len(), 1);
}

#[test]
fn error_names_the_innermost_action() {
    let mut run = fresh();
    let mut inner = Action::new("VM", Operation::While, "inner");
    inner.condition = Some(compare(ComparisonOp::Equal, binary("/", lit(whole(1)), lit(whole(0))), lit(whole(1))));
    let mut outer = Action::new("VM", Operation::If, "outer");
    outer.condition = Some(Condition::And { operands: vec![] });
    outer.then_actions = Some(vec![inner]);
    let err = exec(&mut run, &outer).unwrap_err();
    assert_eq!(err.kind, ErrorKind::DivideByZero);
    assert_eq!(err.subject, "/");
    assert_eq!(err.action.as_deref(), Some("While(inner)"));
}
