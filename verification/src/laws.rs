//! Laws of the interpreter: what holds of every expression, condition and
//! loop of a given form, in every state and for every host.

use crate::ast::{ActionModel, CondModel, ExprModel, FunctionModel};
use crate::document::{action_label, decode_call, decode_expr};
use crate::error::{ErrorKind, ErrorModel};
use crate::float;
use crate::guard::RecursionGuard;
use crate::handler::EffectHandler;
use crate::semantics::{
    apply_binary, bind_args, eval_cond, eval_expr, eval_operands, exec_action, exec_block,
    exec_while, failure, float_value, returned_expr, run_body, Outcome, World, MAX_ITERATIONS,
};
use crate::table::{lemma_first_match, lemma_no_match};
use crate::value::{lookup, JsonModel, Number};
use vstd::prelude::*;

verus! {

/// The binary operation `op` on two number literals.
pub open spec fn literal_operation(op: Seq<char>, a: Number, b: Number) -> ExprModel {
    ExprModel::BinaryOp {
        op,
        left: Box::new(ExprModel::Value(JsonModel::Number(a))),
        right: Box::new(ExprModel::Value(JsonModel::Number(b))),
    }
}

/// A binary operation on two number literals changes nothing and has the
/// value that [`apply_binary`] gives: for `+ - * / %` with a divisor that is
/// not zero, the binary64 result of the operator on the two operands.
pub proof fn law_literal_arithmetic<H: EffectHandler>(
    op: Seq<char>,
    a: Number,
    b: Number,
    w: World<H::Model>,
    g: RecursionGuard,
)
    ensures
        eval_expr::<H>(literal_operation(op, a, b), w, g) == (Outcome {
            result: apply_binary(op, JsonModel::Number(a), JsonModel::Number(b)),
            world: w,
        }),
        op == "+"@ ==> eval_expr::<H>(literal_operation(op, a, b), w, g).result == Ok::<
            JsonModel,
            ErrorModel,
        >(float_value(float::ieee_add(a.float_bits(), b.float_bits()))),
        op == "-"@ ==> eval_expr::<H>(literal_operation(op, a, b), w, g).result == Ok::<
            JsonModel,
            ErrorModel,
        >(float_value(float::ieee_sub(a.float_bits(), b.float_bits()))),
        op == "*"@ ==> eval_expr::<H>(literal_operation(op, a, b), w, g).result == Ok::<
            JsonModel,
            ErrorModel,
        >(float_value(float::ieee_mul(a.float_bits(), b.float_bits()))),
        op == "/"@ && !float::is_zero(b.float_bits()) ==> eval_expr::<H>(
            literal_operation(op, a, b),
            w,
            g,
        ).result == Ok::<JsonModel, ErrorModel>(
            float_value(float::ieee_div(a.float_bits(), b.float_bits())),
        ),
        op == "%"@ && !float::is_zero(b.float_bits()) ==> eval_expr::<H>(
            literal_operation(op, a, b),
            w,
            g,
        ).result == Ok::<JsonModel, ErrorModel>(
            float_value(float::ieee_rem(a.float_bits(), b.float_bits())),
        ),
{
    reveal_with_fuel(eval_expr, 2);
    lemma_operators_differ();
}

/// The five operators are five different texts.
proof fn lemma_operators_differ()
    ensures
        "+"@ != "-"@ && "+"@ != "*"@ && "+"@ != "/"@ && "+"@ != "%"@,
        "-"@ != "*"@ && "-"@ != "/"@ && "-"@ != "%"@,
        "*"@ != "/"@ && "*"@ != "%"@,
        "/"@ != "%"@,
{
    reveal_strlit("+");
    reveal_strlit("-");
    reveal_strlit("*");
    reveal_strlit("/");
    reveal_strlit("%");
    assert("+"@[0] == '+' && "-"@[0] == '-' && "*"@[0] == '*' && "/"@[0] == '/' && "%"@[0] == '%');
}

/// Whether a number is zero: the integer 0, or a float that is one of the
/// two zeros.
pub open spec fn is_zero_number(n: Number) -> bool {
    match n {
        Number::PosInt(k) => k == 0,
        Number::NegInt(k) => k == 0,
        Number::Float(bits) => float::is_zero(bits),
    }
}

/// Dividing a number literal by a literal zero, with `/` or with `%`, fails
/// with `DivideByZero` and changes nothing.
pub proof fn law_divide_by_zero<H: EffectHandler>(
    op: Seq<char>,
    a: Number,
    b: Number,
    w: World<H::Model>,
    g: RecursionGuard,
)
    requires
        op == "/"@ || op == "%"@,
        is_zero_number(b),
    ensures
        eval_expr::<H>(literal_operation(op, a, b), w, g) == failure::<JsonModel, H::Model>(
            ErrorKind::DivideByZero,
            op,
            w,
        ),
{
    law_literal_arithmetic::<H>(op, a, b, w, g);
    lemma_operators_differ();
    assert(0u64 & 0x7fff_ffff_ffff_ffffu64 == 0) by (bit_vector);
}

/// A conjunction of no operands is true and a disjunction of no operands is
/// false, in every state, and neither changes the state.
pub proof fn law_empty_operands<H: EffectHandler>(w: World<H::Model>, g: RecursionGuard)
    ensures
        eval_cond::<H>(CondModel::And { operands: Seq::empty() }, w, g) == (Outcome {
            result: Ok::<bool, ErrorModel>(true),
            world: w,
        }),
        eval_cond::<H>(CondModel::Or { operands: Seq::empty() }, w, g) == (Outcome {
            result: Ok::<bool, ErrorModel>(false),
            world: w,
        }),
{
    reveal_with_fuel(eval_cond, 2);
    reveal_with_fuel(eval_operands, 2);
}

/// What one run of a loop's body does, one level below the guard.
pub open spec fn body_outcome<H: EffectHandler>(
    a: ActionModel,
    w: World<H::Model>,
    g: RecursionGuard,
) -> Outcome<(), H::Model> {
    match a.body_actions {
        Some(actions) => exec_block::<H>(actions, 0, w, g.deeper()),
        None => Outcome { result: Ok(()), world: w },
    }
}

/// The state in which a `While` tests its condition for the `k + 1`-th time:
/// the state after `k` tests and `k` runs of the body.
pub open spec fn state_before_test<H: EffectHandler>(
    a: ActionModel,
    k: nat,
    w: World<H::Model>,
    g: RecursionGuard,
) -> World<H::Model>
    decreases k,
{
    if k == 0 {
        w
    } else {
        let before = state_before_test::<H>(a, (k - 1) as nat, w, g);
        body_outcome::<H>(a, eval_cond::<H>(a.condition->0, before, g).world, g).world
    }
}

/// The condition of a `While` holds at each of its first `tests` tests, and
/// the body succeeds after each of the first `runs` of them.
pub open spec fn keeps_going<H: EffectHandler>(
    a: ActionModel,
    tests: nat,
    runs: nat,
    w: World<H::Model>,
    g: RecursionGuard,
) -> bool {
    &&& forall|k: nat|
        k < tests ==> (#[trigger] eval_cond::<H>(
            a.condition->0,
            state_before_test::<H>(a, k, w, g),
            g,
        )).result == Ok::<bool, ErrorModel>(true)
    &&& forall|k: nat|
        k < runs ==> (#[trigger] body_outcome::<H>(
            a,
            eval_cond::<H>(a.condition->0, state_before_test::<H>(a, k, w, g), g).world,
            g,
        )).result is Ok
}

/// A `While` that has run its body `done` times, and whose condition keeps
/// holding, goes on to the limit.
proof fn lemma_while_runs_on<H: EffectHandler>(
    a: ActionModel,
    done: nat,
    w: World<H::Model>,
    g: RecursionGuard,
)
    requires
        a.condition is Some,
        !g.exhausted(),
        done <= MAX_ITERATIONS,
        keeps_going::<H>(a, (MAX_ITERATIONS + 1) as nat, MAX_ITERATIONS as nat, w, g),
    ensures
        exec_while::<H>(a, done, state_before_test::<H>(a, done, w, g), g) == failure::<
            (),
            H::Model,
        >(
            ErrorKind::LoopLimitExceeded,
            action_label(a),
            eval_cond::<H>(
                a.condition->0,
                state_before_test::<H>(a, MAX_ITERATIONS as nat, w, g),
                g,
            ).world,
        ),
    decreases MAX_ITERATIONS - done,
{
    let here = state_before_test::<H>(a, done, w, g);
    let tested = eval_cond::<H>(a.condition->0, here, g);
    assert(tested.result == Ok::<bool, ErrorModel>(true));
    if done < MAX_ITERATIONS {
        let body = body_outcome::<H>(a, tested.world, g);
        assert(body.result is Ok);
        assert(state_before_test::<H>(a, done + 1, w, g) == body.world);
        lemma_while_runs_on::<H>(a, done + 1, w, g);
    }
}

/// A `While` whose condition holds at every test, and whose body succeeds,
/// runs its body [`MAX_ITERATIONS`] times and no more: it fails with
/// `LoopLimitExceeded` in the state that the test after the last of these
/// runs leaves.
pub proof fn law_loop_limit<H: EffectHandler>(
    a: ActionModel,
    w: World<H::Model>,
    g: RecursionGuard,
)
    requires
        a.op is While,
        a.condition is Some,
        !g.exhausted(),
        keeps_going::<H>(a, (MAX_ITERATIONS + 1) as nat, MAX_ITERATIONS as nat, w, g),
    ensures
        exec_action::<H>(a, w, g) == (Outcome {
            result: Err::<(), ErrorModel>(
                ErrorModel {
                    kind: ErrorKind::LoopLimitExceeded,
                    subject: action_label(a),
                    action: Some(action_label(a)),
                },
            ),
            world: eval_cond::<H>(
                a.condition->0,
                state_before_test::<H>(a, MAX_ITERATIONS as nat, w, g),
                g,
            ).world,
        }),
{
    lemma_while_runs_on::<H>(a, 0, w, g);
}

/// The document form of a call of `name` without arguments.
pub open spec fn own_call(name: Seq<char>) -> JsonModel {
    JsonModel::Object(
        seq![
            ("call"@, JsonModel::String(name)),
            ("args"@, JsonModel::Object(Seq::empty())),
        ],
    )
}

/// The function's body begins with a `Return` of a call of `name` without
/// arguments.
pub open spec fn returns_call_of(def: FunctionModel, name: Seq<char>) -> bool {
    &&& def.body.len() > 0
    &&& def.body[0].op is Return
    &&& def.body[0].params is Some
    &&& lookup(def.body[0].params->0, "value"@) == Some(own_call(name))
}

/// The call of `name` without arguments.
pub open spec fn call_of(name: Seq<char>) -> ExprModel {
    ExprModel::FunctionCall { call: name, args: Seq::empty() }
}

/// The document form of a call stands for that call.
proof fn lemma_decode_own_call(name: Seq<char>)
    ensures
        decode_expr(own_call(name)) == call_of(name),
{
    let entries = own_call(name)->Object_0;
    crate::round_trip::lemma_key_marks();
    lemma_no_match(entries, "var"@);
    lemma_no_match(entries, "expr"@);
    lemma_first_match(entries, "call"@, 0);
    lemma_first_match(entries, "args"@, 1);
    assert(decode_expr(own_call(name)) == decode_call(own_call(name), entries));
    reveal_with_fuel(crate::document::decode_args, 2);
}

/// A function that returns a call of itself never returns: whatever the
/// depth at which it is called, the call fails with
/// `RecursionLimitExceeded`, yields no value, and leaves the state as it
/// was. The error names the function, and the `Return` within which the
/// last call was made, if any was.
pub proof fn law_recursion_limit<H: EffectHandler>(
    name: Seq<char>,
    w: World<H::Model>,
    g: RecursionGuard,
)
    requires
        w.functions.contains_key(name),
        returns_call_of(w.functions[name], name),
    ensures
        eval_expr::<H>(call_of(name), w, g) == (Outcome {
            result: Err::<JsonModel, ErrorModel>(
                ErrorModel {
                    kind: ErrorKind::RecursionLimitExceeded,
                    subject: name,
                    action: if g.exhausted() {
                        None
                    } else {
                        Some(action_label(w.functions[name].body[0]))
                    },
                },
            ),
            world: w,
        }),
    decreases g.remaining(),
{
    let def = w.functions[name];
    assert(bind_args::<H>(Seq::empty(), 0, w, g) == (Outcome {
        result: Ok::<(), ErrorModel>(()),
        world: w,
    }));
    if !g.exhausted() {
        lemma_decode_own_call(name);
        law_recursion_limit::<H>(name, w, g.deeper());
        assert(returned_expr(def.body[0]) == Some(call_of(name)));
        assert(run_body::<H>(def.body, 0, w, g.deeper()).result is Err);
    }
}

/// A call at a depth where the guard is exhausted fails with
/// `RecursionLimitExceeded` once its arguments are bound, and yields no
/// value.
pub proof fn law_call_at_limit<H: EffectHandler>(
    name: Seq<char>,
    args: Seq<(Seq<char>, ExprModel)>,
    w: World<H::Model>,
    g: RecursionGuard,
)
    requires
        g.exhausted(),
        w.functions.contains_key(name),
        bind_args::<H>(args, 0, w, g).result is Ok,
    ensures
        eval_expr::<H>(ExprModel::FunctionCall { call: name, args }, w, g) == failure::<
            JsonModel,
            H::Model,
        >(ErrorKind::RecursionLimitExceeded, name, bind_args::<H>(args, 0, w, g).world),
{
}

/// The kind of a value: null, boolean, number, string, list or object.
pub open spec fn kind_of(v: JsonModel) -> nat {
    match v {
        JsonModel::Null => 0,
        JsonModel::Bool(_) => 1,
        JsonModel::Number(_) => 2,
        JsonModel::String(_) => 3,
        JsonModel::List(_) => 4,
        JsonModel::Object(_) => 5,
    }
}

/// Values of different kinds are unequal: a test of two literals of
/// different kinds for equality is false, a test for inequality true, in
/// every state, and neither fails nor changes the state.
pub proof fn law_kinds_differ<H: EffectHandler>(
    a: JsonModel,
    b: JsonModel,
    w: World<H::Model>,
    g: RecursionGuard,
)
    requires
        kind_of(a) != kind_of(b),
    ensures
        !crate::value::json_equal(a, b),
        eval_cond::<H>(
            CondModel::Comparison {
                op: crate::ast::ComparisonOp::Equal,
                left: ExprModel::Value(a),
                right: ExprModel::Value(b),
            },
            w,
            g,
        ) == (Outcome { result: Ok::<bool, ErrorModel>(false), world: w }),
        eval_cond::<H>(
            CondModel::Comparison {
                op: crate::ast::ComparisonOp::NotEqual,
                left: ExprModel::Value(a),
                right: ExprModel::Value(b),
            },
            w,
            g,
        ) == (Outcome { result: Ok::<bool, ErrorModel>(true), world: w }),
{
    reveal_with_fuel(eval_cond, 2);
    reveal_with_fuel(eval_expr, 2);
}

/// A `Return` among the actions of a body ends the body: what the body
/// returns, and the state that it leaves, do not depend on the actions
/// behind the `Return`.
pub proof fn law_return_ends_body<H: EffectHandler>(
    actions: Seq<ActionModel>,
    i: nat,
    w: World<H::Model>,
    g: RecursionGuard,
)
    requires
        i < actions.len(),
        actions[i as int].op is Return,
    ensures
        run_body::<H>(actions, i, w, g) == run_body::<H>(actions.take(i + 1 as int), i, w, g),
        run_body::<H>(actions, i, w, g).result is Ok ==> run_body::<H>(
            actions,
            i,
            w,
            g,
        ).result->Ok_0 is Some,
{
    assert(actions.take(i + 1 as int)[i as int] == actions[i as int]);
}

/// A `Return` that is run as an action, as it is in a branch or in the
/// body of a loop, is a leaf action for the host and returns nothing: the
/// sequence that holds it goes on.
pub proof fn law_nested_return_is_a_leaf<H: EffectHandler>(
    a: ActionModel,
    w: World<H::Model>,
    g: RecursionGuard,
)
    requires
        a.op is Return,
        !g.exhausted(),
    ensures
        exec_action::<H>(a, w, g) == crate::semantics::within_action(
            crate::semantics::handle_leaf::<H>(a, w),
            a,
        ),
{
}

} // verus!
