//! What running a program means: the result of every expression, condition
//! and action, and the state they leave, as mathematical functions of the
//! program, the state before, and the host's description of its effects.
//!
//! A state is a [`World`]: the variable store, the function table and the
//! host's state. Every function here returns an [`Outcome`]: a result and the
//! world in which it ended. On an error that world holds everything that was
//! done before the error.

use crate::ast::{ActionModel, ComparisonOp, CondModel, ExprModel, FunctionModel, OperationModel};
use crate::document::{action_label, decode_actions, decode_expr};
use crate::error::{located, ErrorKind, ErrorModel};
use crate::float;
use crate::guard::RecursionGuard;
use crate::handler::EffectHandler;
use crate::value::{float_of, integer_of, json_equal, lookup, JsonModel, Number};
use vstd::prelude::*;

verus! {

/// The number of times that a `While` may run its body.
pub const MAX_ITERATIONS: usize = 10000;

/// The state of a run.
pub struct World<S> {
    pub store: Map<Seq<char>, JsonModel>,
    pub functions: Map<Seq<char>, FunctionModel>,
    pub host: S,
}

/// A result and the state in which it was reached.
pub struct Outcome<T, S> {
    pub result: Result<T, ErrorModel>,
    pub world: World<S>,
}

/// The failure of kind `kind` about `subject`, in world `world`.
pub open spec fn failure<T, S>(kind: ErrorKind, subject: Seq<char>, world: World<S>) -> Outcome<
    T,
    S,
> {
    Outcome { result: Err(ErrorModel { kind, subject, action: None }), world }
}

/// The value that a binary64 result is: the number with that pattern,
/// whether it is finite, an infinity or a NaN.
pub open spec fn float_value(bits: u64) -> JsonModel {
    JsonModel::Number(Number::Float(bits))
}

/// The result of a binary operation on two values. Both operands must be
/// numbers; they are combined as binary64 numbers. A zero divisor of `/` or
/// `%` is an error.
pub open spec fn apply_binary(op: Seq<char>, left: JsonModel, right: JsonModel) -> Result<
    JsonModel,
    ErrorModel,
> {
    match (float_of(left), float_of(right)) {
        (Some(a), Some(b)) => if op == "+"@ {
            Ok(float_value(float::ieee_add(a, b)))
        } else if op == "-"@ {
            Ok(float_value(float::ieee_sub(a, b)))
        } else if op == "*"@ {
            Ok(float_value(float::ieee_mul(a, b)))
        } else if op == "/"@ {
            if float::is_zero(b) {
                Err(ErrorModel { kind: ErrorKind::DivideByZero, subject: op, action: None })
            } else {
                Ok(float_value(float::ieee_div(a, b)))
            }
        } else if op == "%"@ {
            if float::is_zero(b) {
                Err(ErrorModel { kind: ErrorKind::DivideByZero, subject: op, action: None })
            } else {
                Ok(float_value(float::ieee_rem(a, b)))
            }
        } else {
            Err(ErrorModel { kind: ErrorKind::UnknownOperator, subject: op, action: None })
        },
        _ => Err(ErrorModel { kind: ErrorKind::TypeMismatch, subject: op, action: None }),
    }
}

/// Whether a comparison holds of two values. Equality is structural and
/// holds of no two values of different kinds. An ordering holds only of two
/// numbers, compared as binary64 numbers; of anything else it is false.
pub open spec fn compare(op: ComparisonOp, left: JsonModel, right: JsonModel) -> bool {
    match op {
        ComparisonOp::Equal => json_equal(left, right),
        ComparisonOp::NotEqual => !json_equal(left, right),
        _ => match (float_of(left), float_of(right)) {
            (Some(a), Some(b)) => match op {
                ComparisonOp::LessThan => float::less_than(a, b),
                ComparisonOp::LessThanOrEqual => float::less_equal(a, b),
                ComparisonOp::GreaterThan => float::less_than(b, a),
                _ => float::less_equal(b, a),
            },
            _ => false,
        },
    }
}

/// The bindings that the first `n` of `names` have in `store`, in the order
/// of the names.
pub open spec fn saved_bindings(
    names: Seq<Seq<char>>,
    n: nat,
    store: Map<Seq<char>, JsonModel>,
) -> Seq<(Seq<char>, JsonModel)>
    decreases n,
{
    if n == 0 || n > names.len() {
        Seq::empty()
    } else {
        let front = saved_bindings(names, (n - 1) as nat, store);
        if store.contains_key(names[n - 1]) {
            front.push((names[n - 1], store[names[n - 1]]))
        } else {
            front
        }
    }
}

/// The store after the first `n` of the saved bindings are put back.
pub open spec fn reinstate(
    saved: Seq<(Seq<char>, JsonModel)>,
    n: nat,
    store: Map<Seq<char>, JsonModel>,
) -> Map<Seq<char>, JsonModel>
    decreases n,
{
    if n == 0 || n > saved.len() {
        store
    } else {
        reinstate(saved, (n - 1) as nat, store).insert(saved[n - 1].0, saved[n - 1].1)
    }
}

/// The texts among the first `n` items, in order; items that are no strings
/// are passed over.
pub open spec fn texts_among(items: Seq<JsonModel>, n: nat) -> Seq<Seq<char>>
    decreases n,
{
    if n == 0 || n > items.len() {
        Seq::empty()
    } else {
        let front = texts_among(items, (n - 1) as nat);
        match items[n - 1] {
            JsonModel::String(s) => front.push(s),
            _ => front,
        }
    }
}

/// The function that a `DefineFunction` action defines: its `args`
/// parameter lists the parameter names, its `body` parameter the actions.
pub open spec fn defined_function(a: ActionModel) -> Option<FunctionModel> {
    match a.params {
        Some(params) => match (lookup(params, "args"@), lookup(params, "body"@)) {
            (Some(JsonModel::List(names)), Some(JsonModel::List(items))) => match decode_actions(
                items,
                items.len(),
            ) {
                Some(body) => Some(
                    FunctionModel { args: texts_among(names, names.len()), body },
                ),
                None => None,
            },
            _ => None,
        },
        None => None,
    }
}

/// The expression that a `Return` action yields, if it names one.
pub open spec fn returned_expr(a: ActionModel) -> Option<ExprModel> {
    match a.params {
        Some(params) => match lookup(params, "value"@) {
            Some(v) => Some(decode_expr(v)),
            None => None,
        },
        None => None,
    }
}

/// What a leaf action does: the host's effect on its state and on the store.
/// An error of kind `UnsupportedOperation` is passed over; any other error
/// of the host is the action's error.
pub open spec fn handle_leaf<H: EffectHandler>(a: ActionModel, w: World<H::Model>) -> Outcome<
    (),
    H::Model,
> {
    let effect = H::effect(w.host, a, w.store);
    Outcome {
        result: match effect.result {
            Ok(()) => Ok(()),
            Err(e) => if e.kind == ErrorKind::UnsupportedOperation {
                Ok(())
            } else {
                Err(e)
            },
        },
        world: World { store: effect.store, functions: w.functions, host: effect.host },
    }
}

/// The value of an expression.
///
/// A literal is its value and a variable what the store binds it to. A
/// binary operation evaluates its left operand, then its right one, and
/// combines them by [`apply_binary`]. A call evaluates its arguments in the
/// order in which the call lists them, binding each in the store under its
/// name; then, one level further down, it runs the function's body, and on
/// success puts back the value that each parameter had before the call. A
/// name that was not bound before the call stays bound. Where the guard is
/// exhausted the body does not run, and the call fails with
/// `RecursionLimitExceeded`.
pub open spec fn eval_expr<H: EffectHandler>(
    e: ExprModel,
    w: World<H::Model>,
    g: RecursionGuard,
) -> Outcome<JsonModel, H::Model>
    decreases g.remaining(), 0nat, e, 0nat, 0nat,
{
    match e {
        ExprModel::Value(v) => Outcome { result: Ok(v), world: w },
        ExprModel::Variable { var } => if w.store.contains_key(var) {
            Outcome { result: Ok(w.store[var]), world: w }
        } else {
            failure(ErrorKind::UnboundVariable, var, w)
        },
        ExprModel::BinaryOp { op, left, right } => {
            let l = eval_expr::<H>(*left, w, g);
            match l.result {
                Err(e) => Outcome { result: Err(e), world: l.world },
                Ok(lv) => {
                    let r = eval_expr::<H>(*right, l.world, g);
                    match r.result {
                        Err(e) => Outcome { result: Err(e), world: r.world },
                        Ok(rv) => Outcome { result: apply_binary(op, lv, rv), world: r.world },
                    }
                },
            }
        },
        ExprModel::FunctionCall { call, args } => if w.functions.contains_key(call) {
            let def = w.functions[call];
            let saved = saved_bindings(def.args, def.args.len(), w.store);
            let bound = bind_args::<H>(args, 0, w, g);
            match bound.result {
                Err(e) => Outcome { result: Err(e), world: bound.world },
                Ok(()) => if g.exhausted() {
                    failure(ErrorKind::RecursionLimitExceeded, call, bound.world)
                } else {
                    let ran = run_body::<H>(def.body, 0, bound.world, g.deeper());
                    match ran.result {
                        Err(e) => Outcome { result: Err(e), world: ran.world },
                        Ok(returned) => Outcome {
                            result: Ok(
                                match returned {
                                    Some(v) => v,
                                    None => JsonModel::Null,
                                },
                            ),
                            world: World {
                                store: reinstate(saved, saved.len(), ran.world.store),
                                ..ran.world
                            },
                        },
                    }
                },
            }
        } else {
            failure(ErrorKind::UnknownFunction, call, w)
        },
    }
}

/// Evaluates the arguments of a call from the `i`-th on, in order, and binds
/// each under its name.
pub open spec fn bind_args<H: EffectHandler>(
    args: Seq<(Seq<char>, ExprModel)>,
    i: nat,
    w: World<H::Model>,
    g: RecursionGuard,
) -> Outcome<(), H::Model>
    decreases g.remaining(), 0nat, args, 0nat, args.len() - i,
{
    if i >= args.len() {
        Outcome { result: Ok(()), world: w }
    } else {
        let v = eval_expr::<H>(args[i as int].1, w, g);
        match v.result {
            Err(e) => Outcome { result: Err(e), world: v.world },
            Ok(value) => bind_args::<H>(
                args,
                i + 1,
                World { store: v.world.store.insert(args[i as int].0, value), ..v.world },
                g,
            ),
        }
    }
}

/// Whether a condition holds.
///
/// A comparison evaluates its left side, then its right side, and compares
/// them by [`compare`]. A conjunction is true unless an operand is false, a
/// disjunction false unless an operand is true; both evaluate their operands
/// in order and stop at the first that decides.
pub open spec fn eval_cond<H: EffectHandler>(
    c: CondModel,
    w: World<H::Model>,
    g: RecursionGuard,
) -> Outcome<bool, H::Model>
    decreases g.remaining(), 1nat, c, 0nat, 0nat,
{
    match c {
        CondModel::Comparison { op, left, right } => {
            let l = eval_expr::<H>(left, w, g);
            match l.result {
                Err(e) => Outcome { result: Err(e), world: l.world },
                Ok(lv) => {
                    let r = eval_expr::<H>(right, l.world, g);
                    match r.result {
                        Err(e) => Outcome { result: Err(e), world: r.world },
                        Ok(rv) => Outcome { result: Ok(compare(op, lv, rv)), world: r.world },
                    }
                },
            }
        },
        CondModel::And { operands } => eval_operands::<H>(operands, 0, false, w, g),
        CondModel::Or { operands } => eval_operands::<H>(operands, 0, true, w, g),
        CondModel::Not { operand } => {
            let inner = eval_cond::<H>(*operand, w, g);
            match inner.result {
                Err(e) => Outcome { result: Err(e), world: inner.world },
                Ok(b) => Outcome { result: Ok(!b), world: inner.world },
            }
        },
    }
}

/// Evaluates operands from the `i`-th on until one has the value `decisive`,
/// which is then the result; if none has, the result is the other value.
pub open spec fn eval_operands<H: EffectHandler>(
    operands: Seq<CondModel>,
    i: nat,
    decisive: bool,
    w: World<H::Model>,
    g: RecursionGuard,
) -> Outcome<bool, H::Model>
    decreases g.remaining(), 1nat, operands, 0nat, operands.len() - i,
{
    if i >= operands.len() {
        Outcome { result: Ok(!decisive), world: w }
    } else {
        let first = eval_cond::<H>(operands[i as int], w, g);
        match first.result {
            Err(e) => Outcome { result: Err(e), world: first.world },
            Ok(b) => if b == decisive {
                Outcome { result: Ok(decisive), world: first.world }
            } else {
                eval_operands::<H>(operands, i + 1, decisive, first.world, g)
            },
        }
    }
}

/// What an `If` does: it tests its condition and runs the branch that the
/// test selects, one level further down. Without a condition it is
/// malformed; a branch that is absent runs nothing.
pub open spec fn exec_if<H: EffectHandler>(
    a: ActionModel,
    w: World<H::Model>,
    g: RecursionGuard,
) -> Outcome<(), H::Model>
    decreases g.remaining(), 2nat, a, 0nat, 0nat,
{
    if g.exhausted() {
        failure(ErrorKind::RecursionLimitExceeded, action_label(a), w)
    } else {
        match a.condition {
            None => failure(ErrorKind::MalformedAction, action_label(a), w),
            Some(c) => {
                let tested = eval_cond::<H>(c, w, g);
                match tested.result {
                    Err(e) => Outcome { result: Err(e), world: tested.world },
                    Ok(holds) => {
                        let branch = if holds {
                            a.then_actions
                        } else {
                            a.else_actions
                        };
                        match branch {
                            Some(actions) => exec_block::<H>(actions, 0, tested.world, g.deeper()),
                            None => Outcome { result: Ok(()), world: tested.world },
                        }
                    },
                }
            },
        }
    }
}

/// What a `For` does: it evaluates its first bound, then its last, both of
/// which must be integers, and runs as [`exec_for`] says. Without a loop
/// variable or a bound it is malformed.
pub open spec fn exec_counted<H: EffectHandler>(
    a: ActionModel,
    w: World<H::Model>,
    g: RecursionGuard,
) -> Outcome<(), H::Model>
    decreases g.remaining(), 2nat, a, 1nat, 0nat,
{
    match (a.loop_var, a.from_expr, a.to_expr) {
        (Some(_), Some(from), Some(to)) => {
            let first = eval_expr::<H>(from, w, g);
            match first.result {
                Err(e) => Outcome { result: Err(e), world: first.world },
                Ok(from_value) => {
                    let last = eval_expr::<H>(to, first.world, g);
                    match last.result {
                        Err(e) => Outcome { result: Err(e), world: last.world },
                        Ok(to_value) => match (integer_of(from_value), integer_of(to_value)) {
                            (Some(lo), Some(hi)) => exec_for::<H>(
                                a,
                                lo as int,
                                hi as int,
                                last.world,
                                g,
                            ),
                            _ => failure(ErrorKind::NonIntegerBound, action_label(a), last.world),
                        },
                    }
                },
            }
        },
        _ => failure(ErrorKind::MalformedAction, action_label(a), w),
    }
}

/// What a `DefineFunction` does: it installs the function that it defines
/// under its target, in place of any function of that name.
pub open spec fn exec_define<S>(a: ActionModel, w: World<S>) -> Outcome<(), S> {
    match defined_function(a) {
        Some(def) => Outcome {
            result: Ok(()),
            world: World { functions: w.functions.insert(a.target, def), ..w },
        },
        None => failure(ErrorKind::MalformedAction, action_label(a), w),
    }
}

/// The outcome as it is reached within an action: an error is located in
/// the action, unless it is located in an action already.
pub open spec fn within_action<T, S>(outcome: Outcome<T, S>, a: ActionModel) -> Outcome<T, S> {
    match outcome.result {
        Err(e) => Outcome { result: Err(located(e, action_label(a))), world: outcome.world },
        Ok(_) => outcome,
    }
}

/// What an action does.
///
/// Nothing runs where the guard is exhausted. `If`, `While`, `For` and
/// `DefineFunction` are interpreted here; each lacks no field that it
/// requires, or fails as malformed. The sequences nested in them run one
/// level further down. Every other action is the host's. An error names the
/// innermost action within which it arose.
pub open spec fn exec_action<H: EffectHandler>(
    a: ActionModel,
    w: World<H::Model>,
    g: RecursionGuard,
) -> Outcome<(), H::Model>
    decreases g.remaining(), 2nat, a, 2nat, 0nat,
{
    within_action(
        if g.exhausted() {
            failure(ErrorKind::RecursionLimitExceeded, action_label(a), w)
        } else {
            match a.op {
                OperationModel::If => exec_if::<H>(a, w, g),
                OperationModel::While => exec_while::<H>(a, 0, w, g),
                OperationModel::For => exec_counted::<H>(a, w, g),
                OperationModel::DefineFunction => exec_define(a, w),
                _ => handle_leaf::<H>(a, w),
            }
        },
        a,
    )
}

/// Runs a nested sequence from its `i`-th action on, each at the guard's depth.
pub open spec fn exec_block<H: EffectHandler>(
    actions: Seq<ActionModel>,
    i: nat,
    w: World<H::Model>,
    g: RecursionGuard,
) -> Outcome<(), H::Model>
    decreases g.remaining(), 2nat, actions, 0nat, actions.len() - i,
{
    if i >= actions.len() {
        Outcome { result: Ok(()), world: w }
    } else {
        let first = exec_action::<H>(actions[i as int], w, g);
        match first.result {
            Err(e) => Outcome { result: Err(e), world: first.world },
            Ok(()) => exec_block::<H>(actions, i + 1, first.world, g),
        }
    }
}

/// Runs a `While` that has run its body `done` times: tests the condition,
/// and where it holds runs the body one level further down and goes on. Where
/// the condition holds after [`MAX_ITERATIONS`] runs of the body, the loop
/// fails with `LoopLimitExceeded`.
pub open spec fn exec_while<H: EffectHandler>(
    a: ActionModel,
    done: nat,
    w: World<H::Model>,
    g: RecursionGuard,
) -> Outcome<(), H::Model>
    decreases g.remaining(), 2nat, a, 0nat, MAX_ITERATIONS + 1 - done,
{
    match a.condition {
        None => failure(ErrorKind::MalformedAction, action_label(a), w),
        Some(c) => {
            let tested = eval_cond::<H>(c, w, g);
            match tested.result {
                Err(e) => Outcome { result: Err(e), world: tested.world },
                Ok(holds) => if !holds {
                    Outcome { result: Ok(()), world: tested.world }
                } else if done >= MAX_ITERATIONS || g.exhausted() {
                    failure(
                        if done >= MAX_ITERATIONS {
                            ErrorKind::LoopLimitExceeded
                        } else {
                            ErrorKind::RecursionLimitExceeded
                        },
                        action_label(a),
                        tested.world,
                    )
                } else {
                    let body = match a.body_actions {
                        Some(actions) => exec_block::<H>(actions, 0, tested.world, g.deeper()),
                        None => Outcome { result: Ok(()), world: tested.world },
                    };
                    match body.result {
                        Err(e) => Outcome { result: Err(e), world: body.world },
                        Ok(()) => exec_while::<H>(a, done + 1, body.world, g),
                    }
                },
            }
        },
    }
}

/// Runs a `For` from `i` up to `hi`, both included: binds the loop variable
/// to `i`, runs the body one level further down, and goes on with `i + 1`.
/// The variable stays bound when the loop ends.
pub open spec fn exec_for<H: EffectHandler>(
    a: ActionModel,
    i: int,
    hi: int,
    w: World<H::Model>,
    g: RecursionGuard,
) -> Outcome<(), H::Model>
    decreases g.remaining(), 2nat, a, 0nat, hi - i + 1,
{
    if i > hi || !(i64::MIN <= i <= i64::MAX) {
        Outcome { result: Ok(()), world: w }
    } else {
        match a.loop_var {
            None => failure(ErrorKind::MalformedAction, action_label(a), w),
            Some(name) => {
                let bound = World {
                    store: w.store.insert(name, JsonModel::Number(Number::of_int(i as i64))),
                    ..w
                };
                if g.exhausted() {
                    failure(ErrorKind::RecursionLimitExceeded, action_label(a), bound)
                } else {
                    let body = match a.body_actions {
                        Some(actions) => exec_block::<H>(actions, 0, bound, g.deeper()),
                        None => Outcome { result: Ok(()), world: bound },
                    };
                    match body.result {
                        Err(e) => Outcome { result: Err(e), world: body.world },
                        Ok(()) => exec_for::<H>(a, i + 1, hi, body.world, g),
                    }
                }
            },
        }
    }
}

/// Runs the body of a function from its `i`-th action on, at the guard's
/// depth. A `Return` at this level ends the body: the result is the value of
/// the expression under its `value` parameter, or null where it has none.
/// Every other action runs as [`exec_action`] says, so a `Return` nested in
/// a branch or a loop body is a leaf action like any other and ends
/// nothing. A body that ends without a `Return` returns nothing.
pub open spec fn run_body<H: EffectHandler>(
    actions: Seq<ActionModel>,
    i: nat,
    w: World<H::Model>,
    g: RecursionGuard,
) -> Outcome<Option<JsonModel>, H::Model>
    decreases g.remaining(), 3nat, actions, 0nat, actions.len() - i,
{
    if i >= actions.len() {
        Outcome { result: Ok(None), world: w }
    } else if actions[i as int].op is Return {
        match returned_expr(actions[i as int]) {
            Some(e) => {
                let v = eval_expr::<H>(e, w, g);
                match v.result {
                    Err(e) => Outcome {
                        result: Err(located(e, action_label(actions[i as int]))),
                        world: v.world,
                    },
                    Ok(value) => Outcome { result: Ok(Some(value)), world: v.world },
                }
            },
            None => Outcome { result: Ok(Some(JsonModel::Null)), world: w },
        }
    } else {
        let first = exec_action::<H>(actions[i as int], w, g);
        match first.result {
            Err(e) => Outcome { result: Err(e), world: first.world },
            Ok(()) => run_body::<H>(actions, i + 1, first.world, g),
        }
    }
}

} // verus!
