use ucl::ast::{Action, Condition, Operation, Program};
use ucl::error::{ErrorKind, ExecError};
use ucl::guard::RecursionGuard;
use ucl::handler::{EffectHandler, VariableStore};
use ucl::interp::{execute, FunctionTable};
use ucl::value::{Number, Value};

/// A host that records what it is handed and supports `Emit` and `Assign`.
struct Recorder {
    seen: Vec<String>,
}

impl EffectHandler for Recorder {
    type Model = ();

    fn handle(&mut self, action: &Action, store: &mut VariableStore) -> Result<(), ExecError> {
        self.seen.push(format!("{:?} {} ({} bound)", action.op, action.target, store.len()));
        match action.op {
            Operation::Emit => Ok(()),
            Operation::Assign => {
                store.insert(action.target.clone(), Value::Number(Number::PosInt(1)));
                Ok(())
            }
            Operation::Delete => Err(ExecError::new(ErrorKind::TypeMismatch, "host failure")),
            _ => Err(ExecError::new(ErrorKind::UnsupportedOperation, "unsupported")),
        }
    }
}

#[test]
fn host_sees_leaf_actions_in_order_with_the_current_store() {
    let mut branch = Action::new("a", Operation::If, "branch");
    branch.condition = Some(Condition::Or { operands: vec![] });
    branch.then_actions = Some(vec![Action::new("a", Operation::Emit, "then")]);
    branch.else_actions = Some(vec![
        Action::new("a", Operation::Assign, "x"),
        Action::new("a", Operation::Emit, "else"),
    ]);
    let program = Program {
        metadata: None,
        actions: vec![
            Action::new("a", Operation::Emit, "first"),
            branch,
            Action::new("a", Operation::Grok, "odd"),
            Action::new("a", Operation::Emit, "last"),
        ],
    };
    let mut store = VariableStore::new();
    let mut functions = FunctionTable::new();
    let mut host = Recorder { seen: vec![] };
    execute(&program, &mut store, &mut functions, &mut host, RecursionGuard::default()).unwrap();
    assert_eq!(
        host.seen,
        vec![
            "Emit first (0 bound)",
            "Assign x (0 bound)",
            "Emit else (1 bound)",
            "Grok odd (1 bound)",
            "Emit last (1 bound)"
        ]
    );
}

#[test]
fn error_of_the_host_ends_the_run() {
    let program = Program {
        metadata: None,
        actions: vec![
            Action::new("a", Operation::Delete, "x"),
            Action::new("a", Operation::Emit, "never"),
        ],
    };
    let mut store = VariableStore::new();
    let mut functions = FunctionTable::new();
    let mut host = Recorder { seen: vec![] };
    let err = execute(&program, &mut store, &mut functions, &mut host, RecursionGuard::default())
        .unwrap_err();
    assert_eq!(err.kind, ErrorKind::TypeMismatch);
    assert_eq!(err.subject, "host failure");
    assert_eq!(err.action.as_deref(), Some("Delete(x)"));
    assert_eq!(host.seen.len(), 1);
}
