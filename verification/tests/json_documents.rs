use ucl::ast::{Action, Expression, Operation, Program};
use ucl::compiler::ruby::RubyCompiler;
use ucl::document::actions_from_items;
use ucl::guard::RecursionGuard;
use ucl::interp::{evaluate_expression, execute, FunctionTable};
use ucl::handler::VariableStore;
use ucl::simulator::brain::BrainMind;
use ucl::value::{Number, Value};

fn from_serde(v: &serde_json::Value) -> Value {
    match v {
        serde_json::Value::Null => Value::Null,
        serde_json::Value::Bool(b) => Value::Bool(*b),
        serde_json::Value::Number(n) => {
            if let Some(u) = n.as_u64() {
                Value::Number(Number::PosInt(u))
            } else if let Some(i) = n.as_i64() {
                Value::Number(Number::NegInt(i))
            } else {
                Value::Number(Number::Float(n.as_f64().unwrap().to_bits()))
            }
        }
        serde_json::Value::String(s) => Value::String(s.clone()),
        serde_json::Value::Array(items) => Value::List(items.iter().map(from_serde).collect()),
        serde_json::Value::Object(entries) => {
            Value::Object(entries.iter().map(|(k, v)| (k.clone(), from_serde(v))).collect())
        }
    }
}

fn read(json: &str) -> Value {
    from_serde(&serde_json::from_str(json).unwrap())
}

const FIBONACCI: &str = r#"{
  "metadata": { "language": "UCL", "version": 1.5 },
  "actions": [
    {
      "actor": "VM",
      "op": "DefineFunction",
      "target": "fibonacci",
      "params": {
        "args": ["n"],
        "body": [
          {
            "actor": "VM",
            "op": "If",
            "target": "base_case",
            "condition": {
              "type": "comparison",
              "op": "<=",
              "left": {"var": "n"},
              "right": 1
            },
            "then": [
              {
                "actor": "VM",
                "op": "Return",
                "target": "result",
                "params": {"value": {"var": "n"}}
              }
            ],
            "else": [
              {
                "actor": "VM",
                "op": "Return",
                "target": "result",
                "params": {
                  "value": {
                    "expr": {
                      "op": "+",
                      "left": {
                        "call": "fibonacci",
                        "args": {"n": {"expr": {"op": "-", "left": {"var": "n"}, "right": 1}}}
                      },
                      "right": {
                        "call": "fibonacci",
                        "args": {"n": {"expr": {"op": "-", "left": {"var": "n"}, "right": 2}}}
                      }
                    }
                  }
                }
              }
            ]
          }
        ]
      }
    },
    {
      "actor": "VM",
      "op": "Emit",
      "target": "banner",
      "t": 0,
      "dur": 0.5,
      "params": {"content": "Fibonacci sequence:"},
      "effects": ["IO"]
    },
    {
      "actor": "VM",
      "op": "For",
      "target": "loop",
      "var": "i",
      "from": 0,
      "to": 10,
      "body": [
        {
          "actor": "VM",
          "op": "Emit",
          "target": "value",
          "params": {"content": {"call": "fibonacci", "args": {"n": {"var": "i"}}}}
        }
      ]
    }
  ]
}"#;

#[test]
fn test_fibonacci_example() {
    let program = Program::from_value(&read(FIBONACCI)).unwrap();
    assert_eq!(program.actions.len(), 3);
    assert!(matches!(program.actions[0].op, Operation::DefineFunction));
    assert_eq!(program.actions[0].target, "fibonacci");
    assert!(program.actions[0].params.is_some());
    let params = program.actions[0].params.as_ref().unwrap();
    assert!(params.iter().any(|(k, _)| k == "args"));
    assert!(params.iter().any(|(k, _)| k == "body"));
    assert_eq!(program.actions[1].t, Some(0.0f64.to_bits()));
    assert_eq!(program.actions[1].dur, Some(0.5f64.to_bits()));
    assert_eq!(program.actions[1].effects, Some(vec!["IO".to_string()]));
    assert_eq!(program.actions[2].loop_var.as_deref(), Some("i"));
    assert!(matches!(program.actions[2].from_expr, Some(Expression::Value(_))));
    assert_eq!(program.actions[2].body_actions.as_ref().unwrap().len(), 1);
    let metadata = program.metadata.as_ref().unwrap();
    assert_eq!(metadata[0].0, "language");
    assert_eq!(metadata[0].1.as_str(), Some("UCL"));
}

#[test]
fn test_fibonacci_compiles() {
    let program = Program::from_value(&read(FIBONACCI)).unwrap();
    let mut compiler = RubyCompiler::new();
    let ruby_code = compiler.compile(&program).unwrap();
    assert!(ruby_code.contains("def fibonacci(n)"));
    assert!(ruby_code.contains("if n <= 1"));
    assert!(ruby_code.contains("return"));
    assert!(ruby_code.contains("fibonacci((n - 1))"));
    assert!(ruby_code.contains("fibonacci((n - 2))"));
    assert!(ruby_code.contains("puts \"Fibonacci sequence:\""));
    assert!(ruby_code.contains("(0 .. 10).each do |i|\n  puts fibonacci(i)\nend"));
}

#[test]
fn test_all_examples_roundtrip() {
    let documents = [
        FIBONACCI,
        r#"{"actions": []}"#,
        r#"{"actions": [{"actor": "a", "op": {"Custom": "Sing"}, "target": "song", "pre": "p", "post": "q"}]}"#,
        r#"{"metadata": {"gene": "MYC"}, "actions": [{"actor": "cell", "op": "Transcribe", "target": "MYC", "t": 1, "dur": 2.5, "effects": ["Bio"]}]}"#,
        r#"{"actions": [{"actor": "a", "op": "While", "target": "w", "condition": {"type": "not", "operand": {"type": "or", "operands": [{"type": "and", "operands": []}]}}, "body": []}]}"#,
    ];
    for document in documents {
        let program = Program::from_value(&read(document)).unwrap();
        let written = program.to_value();
        let reparsed = Program::from_value(&written).unwrap();
        assert_eq!(program.actions.len(), reparsed.actions.len());
        assert!(reparsed.to_value().equals(&written));
    }
}

#[test]
fn program_read_from_json_runs() {
    let program = Program::from_value(&read(FIBONACCI)).unwrap();
    let mut store = VariableStore::new();
    let mut functions = FunctionTable::new();
    let mut mind = BrainMind::new();
    execute(&program, &mut store, &mut functions, &mut mind, RecursionGuard::default()).unwrap();
    assert_eq!(functions.len(), 1);
    let function = functions.get("fibonacci").unwrap();
    assert_eq!(function.args, vec!["n".to_string()]);
    assert_eq!(function.body.len(), 1);
    assert!(store.get("i").unwrap().equals(&Value::Number(Number::PosInt(10))));
    assert_eq!(mind.output.len(), 12);
    assert_eq!(mind.output[0], "Fibonacci sequence:");
    let call = Expression::from_value(&read(r#"{"call": "fibonacci", "args": {"n": 3}}"#));
    let got = evaluate_expression(&call, &mut store, &mut functions, &mut mind, RecursionGuard::default())
        .unwrap();
    assert!(matches!(got, Value::Null));
}

#[test]
fn actions_in_a_list_are_read_in_order() {
    let items = match read(
        r#"[{"actor": "a", "op": "Emit", "target": "1"}, {"actor": "a", "op": "Wait", "target": "2"}]"#,
    ) {
        Value::List(items) => items,
        _ => panic!("no list"),
    };
    let actions: Vec<Action> = actions_from_items(&items).unwrap();
    assert_eq!(actions.len(), 2);
    assert_eq!(actions[0].target, "1");
    assert_eq!(actions[1].target, "2");
}
