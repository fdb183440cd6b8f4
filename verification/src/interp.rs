//! The interpreter: evaluation of expressions and conditions, and execution
//! of actions, against a variable store, a function table and a host.
//!
//! Every function here computes what the function of the same role in
//! [`crate::semantics`] defines, and leaves the store, the function table and
//! the host in the state which that function gives.

use crate::ast::{
    actions_view, args_view, conds_view, lemma_view_action, lemma_view_call, lemma_view_operands,
    Action, ComparisonOp, Condition, Expression, FunctionDef, Operation, Program,
};
use crate::document::{action_label, actions_from_items};
use crate::error::{ErrorKind, ErrorModel, ExecError};
use crate::float;
use crate::guard::RecursionGuard;
use crate::handler::{outcome_view, EffectHandler, VariableStore};
use crate::semantics::{
    apply_binary, bind_args, compare, defined_function, eval_cond, eval_expr, eval_operands,
    exec_action, exec_block, exec_counted, exec_for, exec_if, exec_while, handle_leaf,
    float_value, reinstate, returned_expr, run_body, saved_bindings, texts_among, Outcome,
    World, MAX_ITERATIONS,
};
use crate::table::Table;
use crate::text::{str_equal, texts_view};
use crate::value::{entries_view, get_entry, items_view, lemma_view_list, JsonModel, Number, Value};
use vstd::prelude::*;

verus! {

/// The function table of a run: the functions that the program has defined,
/// by name.
pub type FunctionTable = Table<FunctionDef>;

/// The state that a store, a function table and a host make up.
pub open spec fn world_of<H: EffectHandler>(
    store: VariableStore,
    functions: FunctionTable,
    handler: H,
) -> World<H::Model> {
    World { store: store@, functions: functions@, host: handler.model() }
}

/// The model of the result of an evaluation.
pub open spec fn value_outcome(r: Result<Value, ExecError>) -> Result<JsonModel, ErrorModel> {
    match r {
        Ok(v) => Ok(v@),
        Err(e) => Err(e@),
    }
}

/// The model of the result of a test.
pub open spec fn flag_outcome(r: Result<bool, ExecError>) -> Result<bool, ErrorModel> {
    match r {
        Ok(b) => Ok(b),
        Err(e) => Err(e@),
    }
}

/// The model of the result of a function body.
pub open spec fn return_outcome(r: Result<Option<Value>, ExecError>) -> Result<
    Option<JsonModel>,
    ErrorModel,
> {
    match r {
        Ok(Some(v)) => Ok(Some(v@)),
        Ok(None) => Ok(None),
        Err(e) => Err(e@),
    }
}

/// The value of a binary64 result: the number with that pattern.
pub fn float_value_of(bits: u64) -> (r: Value)
    ensures
        r@ == float_value(bits),
{
    Value::Number(Number::Float(bits))
}

/// Applies the operator `op` to two values.
pub fn apply_binary_op(op: &str, left: &Value, right: &Value) -> (r: Result<Value, ExecError>)
    ensures
        value_outcome(r) == apply_binary(op@, left@, right@),
{
    let a = match left.as_float() {
        Some(a) => a,
        None => {
            return Err(ExecError::new(ErrorKind::TypeMismatch, op));
        },
    };
    let b = match right.as_float() {
        Some(b) => b,
        None => {
            return Err(ExecError::new(ErrorKind::TypeMismatch, op));
        },
    };
    if str_equal(op, "+") {
        Ok(float_value_of(float::apfloat_add(a, b)))
    } else if str_equal(op, "-") {
        Ok(float_value_of(float::apfloat_sub(a, b)))
    } else if str_equal(op, "*") {
        Ok(float_value_of(float::apfloat_mul(a, b)))
    } else if str_equal(op, "/") {
        if float::bits_is_zero(b) {
            Err(ExecError::new(ErrorKind::DivideByZero, op))
        } else {
            Ok(float_value_of(float::apfloat_div(a, b)))
        }
    } else if str_equal(op, "%") {
        if float::bits_is_zero(b) {
            Err(ExecError::new(ErrorKind::DivideByZero, op))
        } else {
            Ok(float_value_of(float::apfloat_rem(a, b)))
        }
    } else {
        Err(ExecError::new(ErrorKind::UnknownOperator, op))
    }
}

/// Whether the comparison `op` holds of two values.
pub fn compare_values(op: ComparisonOp, left: &Value, right: &Value) -> (r: bool)
    ensures
        r == compare(op, left@, right@),
{
    match op {
        ComparisonOp::Equal => left.equals(right),
        ComparisonOp::NotEqual => !left.equals(right),
        _ => match (left.as_float(), right.as_float()) {
            (Some(a), Some(b)) => match op {
                ComparisonOp::LessThan => float::bits_less_than(a, b),
                ComparisonOp::LessThanOrEqual => float::bits_less_equal(a, b),
                ComparisonOp::GreaterThan => float::bits_less_than(b, a),
                _ => float::bits_less_equal(b, a),
            },
            _ => false,
        },
    }
}

/// The bindings that the names have in the store, in the order of the names.
pub fn save_bindings(names: &Vec<String>, store: &VariableStore) -> (r: Vec<(String, Value)>)
    ensures
        entries_view(r@) == saved_bindings(texts_view(names@), names.len() as nat, store@),
{
    let ghost nv = texts_view(names@);
    let mut out: Vec<(String, Value)> = Vec::new();
    let mut i: usize = 0;
    while i < names.len()
        invariant
            i <= names.len(),
            nv == texts_view(names@),
            entries_view(out@) == saved_bindings(nv, i as nat, store@),
        decreases names.len() - i,
    {
        let ghost before = entries_view(out@);
        match store.get(names[i].as_str()) {
            Some(v) => {
                let copy = v.clone();
                out.push((names[i].clone(), copy));
                assert(entries_view(out@) =~= before.push((nv[i as int], store@[nv[i as int]])));
            },
            None => {},
        }
        i += 1;
    }
    out
}

/// Puts saved bindings back into the store.
pub fn restore_bindings(saved: &Vec<(String, Value)>, store: &mut VariableStore)
    ensures
        final(store)@ == reinstate(entries_view(saved@), saved.len() as nat, old(store)@),
{
    let ghost sv = entries_view(saved@);
    let ghost start = store@;
    let mut i: usize = 0;
    while i < saved.len()
        invariant
            i <= saved.len(),
            sv == entries_view(saved@),
            store@ == reinstate(sv, i as nat, start),
        decreases saved.len() - i,
    {
        store.insert(saved[i].0.clone(), saved[i].1.clone());
        i += 1;
    }
}

/// The texts among the items of a list, in order.
pub fn texts_from_items(items: &Vec<Value>) -> (r: Vec<String>)
    ensures
        texts_view(r@) == texts_among(items_view(items@), items.len() as nat),
{
    let ghost iv = items_view(items@);
    let mut out: Vec<String> = Vec::new();
    let mut i: usize = 0;
    while i < items.len()
        invariant
            i <= items.len(),
            iv == items_view(items@),
            texts_view(out@) == texts_among(iv, i as nat),
        decreases items.len() - i,
    {
        let ghost before = texts_view(out@);
        match &items[i] {
            Value::String(s) => {
                out.push(s.clone());
                assert(texts_view(out@) =~= before.push(s@));
            },
            _ => {},
        }
        i += 1;
    }
    out
}

/// The function that a `DefineFunction` action defines.
pub fn function_of(action: &Action) -> (r: Option<FunctionDef>)
    ensures
        match r {
            Some(def) => defined_function(action@) == Some(def@),
            None => defined_function(action@) is None,
        },
{
    let params = match &action.params {
        Some(params) => params,
        None => {
            return None;
        },
    };
    let names = match get_entry(params, "args") {
        Some(Value::List(names)) => names,
        _ => {
            return None;
        },
    };
    let items = match get_entry(params, "body") {
        Some(Value::List(items)) => items,
        _ => {
            return None;
        },
    };
    proof {
        lemma_view_list(*names);
        lemma_view_list(*items);
    }
    match actions_from_items(items) {
        Some(body) => Some(FunctionDef { args: texts_from_items(names), body }),
        None => None,
    }
}

/// The expression that a `Return` action yields, if it names one.
pub fn returned_expression(action: &Action) -> (r: Option<Expression>)
    ensures
        match r {
            Some(e) => returned_expr(action@) == Some(e@),
            None => returned_expr(action@) is None,
        },
{
    match &action.params {
        Some(params) => match get_entry(params, "value") {
            Some(v) => Some(Expression::from_value(v)),
            None => None,
        },
        None => None,
    }
}

/// Evaluates an expression.
pub fn evaluate_expression<H: EffectHandler>(
    expr: &Expression,
    store: &mut VariableStore,
    functions: &mut FunctionTable,
    handler: &mut H,
    guard: RecursionGuard,
) -> (r: Result<Value, ExecError>)
    ensures
        (Outcome {
            result: value_outcome(r),
            world: world_of(*final(store), *final(functions), *final(handler)),
        }) == eval_expr::<H>(expr@, world_of(*old(store), *old(functions), *old(handler)), guard),
    decreases guard.remaining(), 0nat, expr, 0nat, 0nat,
{
    match expr {
        Expression::Value(v) => Ok(v.clone()),
        Expression::Variable { var } => match store.get(var.as_str()) {
            Some(v) => Ok(v.clone()),
            None => Err(ExecError::new(ErrorKind::UnboundVariable, var.as_str())),
        },
        Expression::BinaryOp { expr: operation } => {
            let left = match evaluate_expression(
                &operation.left,
                store,
                functions,
                handler,
                guard,
            ) {
                Ok(v) => v,
                Err(e) => {
                    return Err(e);
                },
            };
            let right = match evaluate_expression(
                &operation.right,
                store,
                functions,
                handler,
                guard,
            ) {
                Ok(v) => v,
                Err(e) => {
                    return Err(e);
                },
            };
            apply_binary_op(operation.op.as_str(), &left, &right)
        },
        Expression::FunctionCall { call, args } => {
            proof {
                lemma_view_call(*call, *args);
            }
            let def = match functions.get(call.as_str()) {
                Some(def) => def.clone(),
                None => {
                    return Err(ExecError::new(ErrorKind::UnknownFunction, call.as_str()));
                },
            };
            let saved = save_bindings(&def.args, store);
            match bind_arguments(args, store, functions, handler, guard) {
                Ok(()) => {},
                Err(e) => {
                    return Err(e);
                },
            }
            let inner = match guard.enter() {
                Some(inner) => inner,
                None => {
                    return Err(
                        ExecError::new(ErrorKind::RecursionLimitExceeded, call.as_str()),
                    );
                },
            };
            let returned = match run(&def.body, store, functions, handler, inner) {
                Ok(returned) => returned,
                Err(e) => {
                    return Err(e);
                },
            };
            restore_bindings(&saved, store);
            match returned {
                Some(v) => Ok(v),
                None => Ok(Value::Null),
            }
        },
    }
}

/// Evaluates the arguments of a call in order and binds each under its name.
pub fn bind_arguments<H: EffectHandler>(
    args: &Vec<(String, Expression)>,
    store: &mut VariableStore,
    functions: &mut FunctionTable,
    handler: &mut H,
    guard: RecursionGuard,
) -> (r: Result<(), ExecError>)
    ensures
        (Outcome {
            result: outcome_view(r),
            world: world_of(*final(store), *final(functions), *final(handler)),
        }) == bind_args::<H>(
            args_view(args@),
            0,
            world_of(*old(store), *old(functions), *old(handler)),
            guard,
        ),
    decreases guard.remaining(), 0nat, args, 0nat, 0nat,
{
    let ghost av = args_view(args@);
    let ghost start = world_of(*store, *functions, *handler);
    let mut i: usize = 0;
    while i < args.len()
        invariant
            i <= args.len(),
            av == args_view(args@),
            start == world_of(*old(store), *old(functions), *old(handler)),
            bind_args::<H>(av, 0, start, guard) == bind_args::<H>(
                av,
                i as nat,
                world_of(*store, *functions, *handler),
                guard,
            ),
        decreases args.len() - i,
    {
        match evaluate_expression(&args[i].1, store, functions, handler, guard) {
            Ok(value) => {
                store.insert(args[i].0.clone(), value);
            },
            Err(e) => {
                return Err(e);
            },
        }
        i += 1;
    }
    Ok(())
}

/// Evaluates a condition.
pub fn evaluate_condition<H: EffectHandler>(
    condition: &Condition,
    store: &mut VariableStore,
    functions: &mut FunctionTable,
    handler: &mut H,
    guard: RecursionGuard,
) -> (r: Result<bool, ExecError>)
    ensures
        (Outcome {
            result: flag_outcome(r),
            world: world_of(*final(store), *final(functions), *final(handler)),
        }) == eval_cond::<H>(
            condition@,
            world_of(*old(store), *old(functions), *old(handler)),
            guard,
        ),
    decreases guard.remaining(), 1nat, condition, 0nat, 0nat,
{
    match condition {
        Condition::Comparison { op, left, right } => {
            let l = match evaluate_expression(left, store, functions, handler, guard) {
                Ok(v) => v,
                Err(e) => {
                    return Err(e);
                },
            };
            let r = match evaluate_expression(right, store, functions, handler, guard) {
                Ok(v) => v,
                Err(e) => {
                    return Err(e);
                },
            };
            Ok(compare_values(*op, &l, &r))
        },
        Condition::And { operands } => {
            proof {
                lemma_view_operands(*operands);
            }
            evaluate_operands(operands, false, store, functions, handler, guard)
        },
        Condition::Or { operands } => {
            proof {
                lemma_view_operands(*operands);
            }
            evaluate_operands(operands, true, store, functions, handler, guard)
        },
        Condition::Not { operand } => {
            let inner: &Condition = &**operand;
            match evaluate_condition(inner, store, functions, handler, guard) {
                Ok(b) => Ok(!b),
                Err(e) => Err(e),
            }
        },
    }
}

/// Evaluates operands in order until one has the value `decisive`.
pub fn evaluate_operands<H: EffectHandler>(
    operands: &Vec<Condition>,
    decisive: bool,
    store: &mut VariableStore,
    functions: &mut FunctionTable,
    handler: &mut H,
    guard: RecursionGuard,
) -> (r: Result<bool, ExecError>)
    ensures
        (Outcome {
            result: flag_outcome(r),
            world: world_of(*final(store), *final(functions), *final(handler)),
        }) == eval_operands::<H>(
            conds_view(operands@),
            0,
            decisive,
            world_of(*old(store), *old(functions), *old(handler)),
            guard,
        ),
    decreases guard.remaining(), 1nat, operands, 0nat, 0nat,
{
    let ghost cv = conds_view(operands@);
    let ghost start = world_of(*store, *functions, *handler);
    let mut i: usize = 0;
    while i < operands.len()
        invariant
            i <= operands.len(),
            cv == conds_view(operands@),
            start == world_of(*old(store), *old(functions), *old(handler)),
            eval_operands::<H>(cv, 0, decisive, start, guard) == eval_operands::<H>(
                cv,
                i as nat,
                decisive,
                world_of(*store, *functions, *handler),
                guard,
            ),
        decreases operands.len() - i,
    {
        match evaluate_condition(&operands[i], store, functions, handler, guard) {
            Ok(b) => {
                if b == decisive {
                    return Ok(decisive);
                }
            },
            Err(e) => {
                return Err(e);
            },
        }
        i += 1;
    }
    Ok(!decisive)
}

/// Hands a leaf action to the host. An operation that the host does not
/// support is passed over.
pub fn dispatch_leaf<H: EffectHandler>(
    action: &Action,
    store: &mut VariableStore,
    functions: &FunctionTable,
    handler: &mut H,
) -> (r: Result<(), ExecError>)
    ensures
        (Outcome {
            result: outcome_view(r),
            world: world_of(*final(store), *functions, *final(handler)),
        }) == handle_leaf::<H>(action@, world_of(*old(store), *functions, *old(handler))),
{
    match handler.handle(action, store) {
        Ok(()) => Ok(()),
        Err(e) => {
            if e.is_fatal() {
                Err(e)
            } else {
                Ok(())
            }
        },
    }
}

/// Executes one action.
pub fn execute_action<H: EffectHandler>(
    action: &Action,
    store: &mut VariableStore,
    functions: &mut FunctionTable,
    handler: &mut H,
    guard: RecursionGuard,
) -> (r: Result<(), ExecError>)
    ensures
        (Outcome {
            result: outcome_view(r),
            world: world_of(*final(store), *final(functions), *final(handler)),
        }) == exec_action::<H>(
            action@,
            world_of(*old(store), *old(functions), *old(handler)),
            guard,
        ),
    decreases guard.remaining(), 2nat, action, 2nat, 0nat,
{
    let done = if guard.is_exhausted() {
        Err(ExecError::about(ErrorKind::RecursionLimitExceeded, action.label()))
    } else {
        match &action.op {
            Operation::If => execute_if(action, store, functions, handler, guard),
            Operation::While => execute_while(action, store, functions, handler, guard),
            Operation::For => execute_for(action, store, functions, handler, guard),
            Operation::DefineFunction => execute_define_function(action, functions),
            _ => dispatch_leaf(action, store, functions, handler),
        }
    };
    match done {
        Ok(()) => Ok(()),
        Err(e) => Err(e.within(action.label())),
    }
}

/// Executes an `If`: the branch that the condition selects, one level
/// further down.
pub fn execute_if<H: EffectHandler>(
    action: &Action,
    store: &mut VariableStore,
    functions: &mut FunctionTable,
    handler: &mut H,
    guard: RecursionGuard,
) -> (r: Result<(), ExecError>)
    ensures
        (Outcome {
            result: outcome_view(r),
            world: world_of(*final(store), *final(functions), *final(handler)),
        }) == exec_if::<H>(
            action@,
            world_of(*old(store), *old(functions), *old(handler)),
            guard,
        ),
    decreases guard.remaining(), 2nat, action, 0nat, 0nat,
{
    proof {
        lemma_view_action(*action);
    }
    let inner = match guard.enter() {
        Some(inner) => inner,
        None => {
            return Err(
                ExecError::about(ErrorKind::RecursionLimitExceeded, action.label()),
            );
        },
    };
    let condition = match &action.condition {
        Some(c) => c,
        None => {
            return Err(ExecError::about(ErrorKind::MalformedAction, action.label()));
        },
    };
    let holds = match evaluate_condition(condition, store, functions, handler, guard) {
        Ok(b) => b,
        Err(e) => {
            return Err(e);
        },
    };
    let branch = if holds {
        &action.then_actions
    } else {
        &action.else_actions
    };
    match branch {
        Some(actions) => execute_block(actions, store, functions, handler, inner),
        None => Ok(()),
    }
}

/// Executes a nested sequence, each action at the guard's depth.
pub fn execute_block<H: EffectHandler>(
    actions: &Vec<Action>,
    store: &mut VariableStore,
    functions: &mut FunctionTable,
    handler: &mut H,
    guard: RecursionGuard,
) -> (r: Result<(), ExecError>)
    ensures
        (Outcome {
            result: outcome_view(r),
            world: world_of(*final(store), *final(functions), *final(handler)),
        }) == exec_block::<H>(
            actions_view(actions@),
            0,
            world_of(*old(store), *old(functions), *old(handler)),
            guard,
        ),
    decreases guard.remaining(), 2nat, actions, 0nat, 0nat,
{
    let ghost av = actions_view(actions@);
    let ghost start = world_of(*store, *functions, *handler);
    let mut i: usize = 0;
    while i < actions.len()
        invariant
            i <= actions.len(),
            av == actions_view(actions@),
            start == world_of(*old(store), *old(functions), *old(handler)),
            exec_block::<H>(av, 0, start, guard) == exec_block::<H>(
                av,
                i as nat,
                world_of(*store, *functions, *handler),
                guard,
            ),
        decreases actions.len() - i,
    {
        match execute_action(&actions[i], store, functions, handler, guard) {
            Ok(()) => {},
            Err(e) => {
                return Err(e);
            },
        }
        i += 1;
    }
    Ok(())
}

/// Executes a `While`.
pub fn execute_while<H: EffectHandler>(
    action: &Action,
    store: &mut VariableStore,
    functions: &mut FunctionTable,
    handler: &mut H,
    guard: RecursionGuard,
) -> (r: Result<(), ExecError>)
    ensures
        (Outcome {
            result: outcome_view(r),
            world: world_of(*final(store), *final(functions), *final(handler)),
        }) == exec_while::<H>(
            action@,
            0,
            world_of(*old(store), *old(functions), *old(handler)),
            guard,
        ),
    decreases guard.remaining(), 2nat, action, 0nat, 0nat,
{
    proof {
        lemma_view_action(*action);
    }
    let ghost start = world_of(*store, *functions, *handler);
    let condition = match &action.condition {
        Some(c) => c,
        None => {
            return Err(ExecError::about(ErrorKind::MalformedAction, action.label()));
        },
    };
    let mut done: usize = 0;
    loop
        invariant
            done <= MAX_ITERATIONS,
            start == world_of(*old(store), *old(functions), *old(handler)),
            action.condition == Some(*condition),
            action@.body_actions == crate::ast::block_view(action.body_actions),
            exec_while::<H>(action@, 0, start, guard) == exec_while::<H>(
                action@,
                done as nat,
                world_of(*store, *functions, *handler),
                guard,
            ),
        decreases MAX_ITERATIONS - done,
    {
        let holds = match evaluate_condition(condition, store, functions, handler, guard) {
            Ok(b) => b,
            Err(e) => {
                return Err(e);
            },
        };
        if !holds {
            return Ok(());
        }
        if done >= MAX_ITERATIONS {
            return Err(ExecError::about(ErrorKind::LoopLimitExceeded, action.label()));
        }
        let inner = match guard.enter() {
            Some(inner) => inner,
            None => {
                return Err(
                    ExecError::about(ErrorKind::RecursionLimitExceeded, action.label()),
                );
            },
        };
        match &action.body_actions {
            Some(actions) => match execute_block(actions, store, functions, handler, inner) {
                Ok(()) => {},
                Err(e) => {
                    return Err(e);
                },
            },
            None => {},
        }
        done += 1;
    }
}

/// Executes a `For`.
pub fn execute_for<H: EffectHandler>(
    action: &Action,
    store: &mut VariableStore,
    functions: &mut FunctionTable,
    handler: &mut H,
    guard: RecursionGuard,
) -> (r: Result<(), ExecError>)
    ensures
        (Outcome {
            result: outcome_view(r),
            world: world_of(*final(store), *final(functions), *final(handler)),
        }) == exec_counted::<H>(
            action@,
            world_of(*old(store), *old(functions), *old(handler)),
            guard,
        ),
    decreases guard.remaining(), 2nat, action, 1nat, 0nat,
{
    proof {
        lemma_view_action(*action);
    }
    let (name, from, to) = match (&action.loop_var, &action.from_expr, &action.to_expr) {
        (Some(name), Some(from), Some(to)) => (name, from, to),
        _ => {
            return Err(ExecError::about(ErrorKind::MalformedAction, action.label()));
        },
    };
    let from_value = match evaluate_expression(from, store, functions, handler, guard) {
        Ok(v) => v,
        Err(e) => {
            return Err(e);
        },
    };
    let to_value = match evaluate_expression(to, store, functions, handler, guard) {
        Ok(v) => v,
        Err(e) => {
            return Err(e);
        },
    };
    let (lo, hi) = match (from_value.as_i64(), to_value.as_i64()) {
        (Some(lo), Some(hi)) => (lo, hi),
        _ => {
            return Err(ExecError::about(ErrorKind::NonIntegerBound, action.label()));
        },
    };
    if lo > hi {
        return Ok(());
    }
    let mut i: i64 = lo;
    loop
        invariant
            lo <= i <= hi,
            action.loop_var == Some(*name),
            action@.body_actions == crate::ast::block_view(action.body_actions),
            exec_counted::<H>(
                action@,
                world_of(*old(store), *old(functions), *old(handler)),
                guard,
            ) == exec_for::<H>(
                action@,
                i as int,
                hi as int,
                world_of(*store, *functions, *handler),
                guard,
            ),
        decreases hi - i,
    {
        store.insert(name.clone(), Value::Number(Number::from_i64(i)));
        let inner = match guard.enter() {
            Some(inner) => inner,
            None => {
                return Err(
                    ExecError::about(ErrorKind::RecursionLimitExceeded, action.label()),
                );
            },
        };
        match &action.body_actions {
            Some(actions) => match execute_block(actions, store, functions, handler, inner) {
                Ok(()) => {},
                Err(e) => {
                    return Err(e);
                },
            },
            None => {},
        }
        if i == hi {
            proof {
                let now = world_of(*store, *functions, *handler);
                assert(exec_for::<H>(action@, i + 1, hi as int, now, guard) == (Outcome {
                    result: Ok::<(), ErrorModel>(()),
                    world: now,
                }));
            }
            return Ok(());
        }
        i += 1;
    }
}

/// Executes a `DefineFunction`: installs the function under the action's
/// target.
pub fn execute_define_function(action: &Action, functions: &mut FunctionTable) -> (r: Result<
    (),
    ExecError,
>)
    ensures
        match defined_function(action@) {
            Some(def) => r is Ok && final(functions)@ == old(functions)@.insert(
                action@.target,
                def,
            ),
            None => outcome_view(r) == Err::<(), ErrorModel>(
                ErrorModel { kind: ErrorKind::MalformedAction, subject: action_label(action@), action: None },
            ) && final(functions)@ == old(functions)@,
        },
{
    match function_of(action) {
        Some(def) => {
            functions.insert(action.target.clone(), def);
            Ok(())
        },
        None => Err(ExecError::about(ErrorKind::MalformedAction, action.label())),
    }
}

/// Runs the body of a function at the guard's depth and returns what it
/// returns: the value of the first `Return` among the body's own actions, or
/// nothing where the body ends without one.
pub fn run<H: EffectHandler>(
    actions: &Vec<Action>,
    store: &mut VariableStore,
    functions: &mut FunctionTable,
    handler: &mut H,
    guard: RecursionGuard,
) -> (r: Result<Option<Value>, ExecError>)
    ensures
        (Outcome {
            result: return_outcome(r),
            world: world_of(*final(store), *final(functions), *final(handler)),
        }) == run_body::<H>(
            actions_view(actions@),
            0,
            world_of(*old(store), *old(functions), *old(handler)),
            guard,
        ),
    decreases guard.remaining(), 3nat, actions, 0nat, 0nat,
{
    let ghost av = actions_view(actions@);
    let ghost start = world_of(*store, *functions, *handler);
    let mut i: usize = 0;
    while i < actions.len()
        invariant
            i <= actions.len(),
            av == actions_view(actions@),
            start == world_of(*old(store), *old(functions), *old(handler)),
            run_body::<H>(av, 0, start, guard) == run_body::<H>(
                av,
                i as nat,
                world_of(*store, *functions, *handler),
                guard,
            ),
        decreases actions.len() - i,
    {
        let action = &actions[i];
        if matches!(action.op, Operation::Return) {
            return match returned_expression(action) {
                Some(e) => match evaluate_expression(&e, store, functions, handler, guard) {
                    Ok(v) => Ok(Some(v)),
                    Err(e) => Err(e.within(action.label())),
                },
                None => Ok(Some(Value::Null)),
            };
        }
        match execute_action(action, store, functions, handler, guard) {
            Ok(()) => {},
            Err(e) => {
                return Err(e);
            },
        }
        i += 1;
    }
    Ok(None)
}

/// Executes a program: its actions in order, each at the guard's depth.
pub fn execute<H: EffectHandler>(
    program: &Program,
    store: &mut VariableStore,
    functions: &mut FunctionTable,
    handler: &mut H,
    guard: RecursionGuard,
) -> (r: Result<(), ExecError>)
    ensures
        (Outcome {
            result: outcome_view(r),
            world: world_of(*final(store), *final(functions), *final(handler)),
        }) == exec_block::<H>(
            program@.actions,
            0,
            world_of(*old(store), *old(functions), *old(handler)),
            guard,
        ),
{
    execute_block(&program.actions, store, functions, handler, guard)
}

} // verus!
