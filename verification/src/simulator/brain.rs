//! A simulated mind as a host: facts and beliefs, working memory, attention,
//! goals, emotions and speech.
//!
//! The beliefs of the mind are the variable store of the run. Everything
//! else that a leaf action touches is the [`BrainMind`].

use crate::ast::{Action, ActionModel, Operation, OperationModel, Program};
use crate::document::{action_label, operation_debug};
use crate::error::{ErrorKind, ErrorModel, ExecError};
use crate::float;
use crate::guard::{RecursionGuard, DEFAULT_MAX_DEPTH};
use crate::handler::{outcome_view, Effect, EffectHandler, VariableStore};
use crate::interp::{float_value_of, FunctionTable};
use crate::json::json_text;
use crate::params::{
    get_integer_or, get_param, get_param_text, get_text_or_target, integer_or, param, param_text,
    text_or_target,
};
use crate::semantics::{exec_block, float_value, Outcome, World};
use crate::table::Table;
use crate::text::{i64_text, join, joined, push_text, signed_decimal, str_equal, texts_view};
use crate::value::{entries_view, float_of, lookup, JsonModel, Number, Value};
use vstd::prelude::*;
use vstd::string::*;

verus! {

/// Binary64 pattern of 0.2.
pub const FOCUS_STEP: u64 = 0x3FC9_9999_9999_999A;

/// Binary64 pattern of 0.3.
pub const WARMTH_STEP: u64 = 0x3FD3_3333_3333_3333;

/// Binary64 pattern of 0.4.
pub const CONFUSION_STEP: u64 = 0x3FD9_9999_9999_999A;

/// Binary64 pattern of 0.5.
pub const DUTY_STEP: u64 = 0x3FE0_0000_0000_0000;

/// The number of items that working memory keeps.
pub const WORKING_MEMORY_SPAN: usize = 7;

/// What a mind holds beside its beliefs.
#[derive(Debug)]
pub struct BrainMind {
    /// Intensity of each emotion, as a binary64 pattern.
    pub emotions: Table<u64>,
    /// Short-term memory.
    pub working_memory: Vec<String>,
    /// What attention is on.
    pub attention: Option<String>,
    /// What the mind has said.
    pub output: Vec<String>,
    /// What the mind has thought.
    pub thoughts: Vec<String>,
    /// Goals and intentions.
    pub goals: Vec<String>,
    /// The leaf actions handled so far.
    pub trace: Vec<String>,
    /// The number from which the next random number is drawn.
    pub seed: u64,
}

/// The mathematical value of a [`BrainMind`].
pub struct BrainModel {
    pub emotions: Map<Seq<char>, u64>,
    pub working_memory: Seq<Seq<char>>,
    pub attention: Option<Seq<char>>,
    pub output: Seq<Seq<char>>,
    pub thoughts: Seq<Seq<char>>,
    pub goals: Seq<Seq<char>>,
    pub trace: Seq<Seq<char>>,
    pub seed: u64,
}

/// An emotion raised by `amount`, from zero where it was not felt.
pub open spec fn bumped(emotions: Map<Seq<char>, u64>, name: Seq<char>, amount: u64) -> Map<
    Seq<char>,
    u64,
> {
    emotions.insert(
        name,
        float::ieee_add(
            if emotions.contains_key(name) {
                emotions[name]
            } else {
                0
            },
            amount,
        ),
    )
}

/// Working memory after an item enters it: the oldest item leaves where the
/// span is exceeded.
pub open spec fn remembered(memory: Seq<Seq<char>>, item: Seq<char>) -> Seq<Seq<char>> {
    let all = memory.push(item);
    if all.len() > WORKING_MEMORY_SPAN {
        all.remove(0)
    } else {
        all
    }
}

/// The line that an action leaves in the trace.
pub open spec fn trace_line(a: ActionModel) -> Seq<char> {
    action_label(a)
}

/// The effect that only changes the mind.
pub open spec fn mind_only(host: BrainModel, store: Map<Seq<char>, JsonModel>) -> Effect<
    BrainModel,
> {
    Effect { host, store, result: Ok(()) }
}

/// The store after the first `n` parameters are stored as facts about
/// `entity`, each under `entity.key`; the parameter `entity` is no fact.
pub open spec fn facts_stored(
    params: Seq<(Seq<char>, JsonModel)>,
    n: nat,
    entity: Seq<char>,
    store: Map<Seq<char>, JsonModel>,
) -> Map<Seq<char>, JsonModel>
    decreases n,
{
    if n == 0 || n > params.len() {
        store
    } else {
        let front = facts_stored(params, (n - 1) as nat, entity, store);
        if params[n - 1].0 == "entity"@ {
            front
        } else {
            front.insert(entity + "."@ + params[n - 1].0, params[n - 1].1)
        }
    }
}

/// The keys of the first `n` parameters other than `entity`.
pub open spec fn fact_keys(params: Seq<(Seq<char>, JsonModel)>, n: nat) -> Seq<Seq<char>>
    decreases n,
{
    if n == 0 || n > params.len() {
        Seq::empty()
    } else {
        let front = fact_keys(params, (n - 1) as nat);
        if params[n - 1].0 == "entity"@ {
            front
        } else {
            front.push(params[n - 1].0)
        }
    }
}

/// `StoreFact`: every parameter but `entity` becomes a belief about the
/// entity, and working memory notes which properties the entity has.
pub open spec fn store_fact_effect(
    m: BrainModel,
    a: ActionModel,
    store: Map<Seq<char>, JsonModel>,
) -> Effect<BrainModel> {
    match a.params {
        None => mind_only(m, store),
        Some(params) => {
            let entity = text_or_target(a, "entity"@);
            let keys = fact_keys(params, params.len());
            Effect {
                host: if keys.len() > 0 {
                    BrainModel {
                        working_memory: remembered(
                            m.working_memory,
                            "The "@ + entity + " has properties: "@ + joined(keys, ", "@),
                        ),
                        ..m
                    }
                } else {
                    m
                },
                store: facts_stored(params, params.len(), entity, store),
                result: Ok(()),
            }
        },
    }
}

/// `Assert`: the statement becomes a belief and a thought.
pub open spec fn assert_effect(
    m: BrainModel,
    a: ActionModel,
    store: Map<Seq<char>, JsonModel>,
) -> Effect<BrainModel> {
    let statement = text_or_target(a, "statement"@);
    Effect {
        host: BrainModel { thoughts: m.thoughts.push("I believe that: "@ + statement), ..m },
        store: store.insert("assertion."@ + a.target, JsonModel::String(statement)),
        result: Ok(()),
    }
}

/// What an `Emit` says: the belief that its content names, else the content
/// itself, else its message, else the belief that its target names, else the
/// target.
pub open spec fn emitted_message(a: ActionModel, store: Map<Seq<char>, JsonModel>) -> Seq<char> {
    match a.params {
        Some(params) => match lookup(params, "content"@) {
            Some(JsonModel::String(text)) => if store.contains_key(text) {
                json_text(store[text])
            } else {
                text
            },
            Some(other) => json_text(other),
            None => match lookup(params, "message"@) {
                Some(JsonModel::String(text)) => text,
                Some(other) => json_text(other),
                None => a.target,
            },
        },
        None => if store.contains_key(a.target) {
            json_text(store[a.target])
        } else {
            a.target
        },
    }
}

/// `Emit`: the message is said; a greeting warms.
pub open spec fn emit_effect(
    m: BrainModel,
    a: ActionModel,
    store: Map<Seq<char>, JsonModel>,
) -> Effect<BrainModel> {
    mind_only(
        BrainModel {
            output: m.output.push(emitted_message(a, store)),
            emotions: if param_text(a, "intent"@) == Some("greeting"@) {
                bumped(m.emotions, "warmth"@, WARMTH_STEP)
            } else {
                m.emotions
            },
            ..m
        },
        store,
    )
}

/// `Receive`: what is heard enters working memory and takes the attention.
pub open spec fn receive_effect(
    m: BrainModel,
    a: ActionModel,
    store: Map<Seq<char>, JsonModel>,
) -> Effect<BrainModel> {
    let input = text_or_target(a, "content"@);
    mind_only(
        BrainModel {
            working_memory: m.working_memory.push("Heard: "@ + input),
            attention: Some(input),
            ..m
        },
        store,
    )
}

/// The store after the first `n` parameters are stored as observations of
/// `target`, each under `observed.target.key`.
pub open spec fn observed(
    params: Seq<(Seq<char>, JsonModel)>,
    n: nat,
    target: Seq<char>,
    store: Map<Seq<char>, JsonModel>,
) -> Map<Seq<char>, JsonModel>
    decreases n,
{
    if n == 0 || n > params.len() {
        store
    } else {
        observed(params, (n - 1) as nat, target, store).insert(
            "observed."@ + target + "."@ + params[n - 1].0,
            params[n - 1].1,
        )
    }
}

/// `Measure`: the target takes the attention and every parameter becomes an
/// observation of it.
pub open spec fn measure_effect(
    m: BrainModel,
    a: ActionModel,
    store: Map<Seq<char>, JsonModel>,
) -> Effect<BrainModel> {
    Effect {
        host: BrainModel { attention: Some(a.target), ..m },
        store: match a.params {
            Some(params) => observed(params, params.len(), a.target, store),
            None => store,
        },
        result: Ok(()),
    }
}

/// What a `Decide` decides: its `choice` where there is one, else its
/// `decision`, where that is a text; else the target.
pub open spec fn decision(a: ActionModel) -> Seq<char> {
    let chosen = match param(a, "choice"@) {
        Some(v) => Some(v),
        None => param(a, "decision"@),
    };
    match chosen {
        Some(JsonModel::String(s)) => s,
        _ => a.target,
    }
}

/// `Decide`: the decision is a thought, and its goal a goal.
pub open spec fn decide_effect(
    m: BrainModel,
    a: ActionModel,
    store: Map<Seq<char>, JsonModel>,
) -> Effect<BrainModel> {
    mind_only(
        BrainModel {
            thoughts: m.thoughts.push("Decided to: "@ + decision(a)),
            goals: match param_text(a, "goal"@) {
                Some(goal) => m.goals.push(goal),
                None => m.goals,
            },
            ..m
        },
        store,
    )
}

/// `Read`: a belief that is held is recalled into working memory.
pub open spec fn read_effect(
    m: BrainModel,
    a: ActionModel,
    store: Map<Seq<char>, JsonModel>,
) -> Effect<BrainModel> {
    mind_only(
        if store.contains_key(a.target) {
            BrainModel {
                working_memory: m.working_memory.push(
                    "Recalled: "@ + a.target + " = "@ + json_text(store[a.target]),
                ),
                ..m
            }
        } else {
            m
        },
        store,
    )
}

/// An operand of a computed `Write`: the number in the belief that the
/// register parameter names, else the number under the literal parameter;
/// zero where there is no such number.
pub open spec fn operand(
    a: ActionModel,
    store: Map<Seq<char>, JsonModel>,
    register: Seq<char>,
    literal: Seq<char>,
) -> u64 {
    match param(a, register) {
        Some(named) => {
            let name = match named {
                JsonModel::String(s) => s,
                _ => Seq::empty(),
            };
            if store.contains_key(name) {
                match float_of(store[name]) {
                    Some(bits) => bits,
                    None => 0,
                }
            } else {
                0
            }
        },
        None => match param(a, literal) {
            Some(v) => match float_of(v) {
                Some(bits) => bits,
                None => 0,
            },
            None => 0,
        },
    }
}

/// The result of a computed `Write`: the sum, difference or quotient that
/// the operation names, and the product for any other name. A quotient by
/// zero is zero.
pub open spec fn computed(operation: Seq<char>, lhs: u64, rhs: u64) -> u64 {
    if operation == "multiply"@ {
        float::ieee_mul(lhs, rhs)
    } else if operation == "add"@ {
        float::ieee_add(lhs, rhs)
    } else if operation == "subtract"@ {
        float::ieee_sub(lhs, rhs)
    } else if operation == "divide"@ {
        if float::is_zero(rhs) {
            0
        } else {
            float::ieee_div(lhs, rhs)
        }
    } else {
        float::ieee_mul(lhs, rhs)
    }
}

/// The sign that stands for an operation in a thought.
pub open spec fn operation_sign(operation: Seq<char>) -> Seq<char> {
    if operation == "multiply"@ {
        "×"@
    } else if operation == "add"@ {
        "+"@
    } else if operation == "subtract"@ {
        "-"@
    } else if operation == "divide"@ {
        "÷"@
    } else {
        "×"@
    }
}

/// `Write`: with an `operation`, the result of the operation on its two
/// operands becomes the belief under the target, and the calculation a
/// thought; without one, the `value` becomes that belief.
pub open spec fn write_effect(
    m: BrainModel,
    a: ActionModel,
    store: Map<Seq<char>, JsonModel>,
) -> Effect<BrainModel> {
    match param(a, "operation"@) {
        Some(named) => {
            let operation = match named {
                JsonModel::String(s) => s,
                _ => Seq::empty(),
            };
            let lhs = operand(a, store, "lhs_register"@, "lhs"@);
            let rhs = operand(a, store, "rhs_register"@, "rhs"@);
            let result = computed(operation, lhs, rhs);
            Effect {
                host: BrainModel {
                    thoughts: m.thoughts.push(
                        "Calculated: "@ + a.target + " = "@ + float::plain_display(lhs) + " "@
                            + operation_sign(operation) + " "@ + float::plain_display(rhs)
                            + " = "@ + float::plain_display(result),
                    ),
                    ..m
                },
                store: store.insert(a.target, float_value(result)),
                result: Ok(()),
            }
        },
        None => match param(a, "value"@) {
            Some(v) => Effect { host: m, store: store.insert(a.target, v), result: Ok(()) },
            None => mind_only(m, store),
        },
    }
}

/// The belief that a concept exists.
pub open spec fn concept_exists() -> JsonModel {
    JsonModel::Object(seq![("exists"@, JsonModel::Bool(true))])
}

/// `Create`: the concept is thought of and believed to exist.
pub open spec fn create_effect(
    m: BrainModel,
    a: ActionModel,
    store: Map<Seq<char>, JsonModel>,
) -> Effect<BrainModel> {
    Effect {
        host: BrainModel { thoughts: m.thoughts.push("Conceived of: "@ + a.target), ..m },
        store: store.insert("concept."@ + a.target, concept_exists()),
        result: Ok(()),
    }
}

/// `Bind`: the `value` becomes the belief under the target.
pub open spec fn bind_effect(
    m: BrainModel,
    a: ActionModel,
    store: Map<Seq<char>, JsonModel>,
) -> Effect<BrainModel> {
    match param(a, "value"@) {
        Some(v) => Effect { host: m, store: store.insert(a.target, v), result: Ok(()) },
        None => mind_only(m, store),
    }
}

/// `Oblige`: a duty becomes a goal and weighs as responsibility.
pub open spec fn oblige_effect(
    m: BrainModel,
    a: ActionModel,
    store: Map<Seq<char>, JsonModel>,
) -> Effect<BrainModel> {
    mind_only(
        match param_text(a, "duty"@) {
            Some(duty) => BrainModel {
                goals: m.goals.push("Must: "@ + duty),
                emotions: bumped(m.emotions, "responsibility"@, DUTY_STEP),
                ..m
            },
            None => m,
        },
        store,
    )
}

/// Binary64 pattern of 1.0, the duration of a `Wait` that names none.
pub const ONE_SECOND: u64 = 0x3FF0_0000_0000_0000;

/// `Wait`: the wait is a thought.
pub open spec fn wait_effect(
    m: BrainModel,
    a: ActionModel,
    store: Map<Seq<char>, JsonModel>,
) -> Effect<BrainModel> {
    let duration = match a.dur {
        Some(bits) => bits,
        None => ONE_SECOND,
    };
    mind_only(
        BrainModel {
            thoughts: m.thoughts.push(
                "Waiting for "@ + float::one_digit_display(duration) + "s"@,
            ),
            ..m
        },
        store,
    )
}

/// The seed that follows a seed.
pub open spec fn next_seed(seed: u64) -> u64 {
    seed.wrapping_mul(6364136223846793005).wrapping_add(1442695040888963407)
}

/// The number drawn from `seed` between `min` and `max`, both included.
pub open spec fn drawn(seed: u64, min: i64, max: i64) -> int {
    min + seed as int % (max - min + 1)
}

/// `GenRandomInt`: a number between `min` (0 unless given) and `max` (9
/// unless given) is drawn from the seed and becomes the belief under the
/// target. Where `min` exceeds `max` there is nothing to draw from, and the
/// action is malformed.
pub open spec fn random_effect(
    m: BrainModel,
    a: ActionModel,
    store: Map<Seq<char>, JsonModel>,
) -> Effect<BrainModel> {
    let min = integer_or(a, "min"@, 0);
    let max = integer_or(a, "max"@, 9);
    if min > max {
        Effect {
            host: m,
            store,
            result: Err(ErrorModel { kind: ErrorKind::MalformedAction, subject: action_label(a), action: None }),
        }
    } else {
        let n = drawn(m.seed, min, max);
        Effect {
            host: BrainModel {
                thoughts: m.thoughts.push(
                    "Generated random number: "@ + a.target + " = "@ + signed_decimal(n),
                ),
                seed: next_seed(m.seed),
                ..m
            },
            store: store.insert(a.target, JsonModel::Number(Number::of_int(n as i64))),
            result: Ok(()),
        }
    }
}

/// A part of the description of a physical action: the text under `key`, or
/// `?` where the parameter is no text.
pub open spec fn part_text(v: JsonModel) -> Seq<char> {
    match v {
        JsonModel::String(s) => s,
        _ => "?"@,
    }
}

/// What a physical action is described as: the verb and the target, then
/// where from, where into and how much, as far as the parameters say.
pub open spec fn described(a: ActionModel, verb: Seq<char>) -> Seq<char> {
    let head = verb + " "@ + a.target;
    match a.params {
        None => head,
        Some(params) => {
            let from = match lookup(params, "from"@) {
                Some(v) => head + " "@ + "from "@ + part_text(v),
                None => head,
            };
            let into = match lookup(params, "into"@) {
                Some(v) => from + " "@ + "into "@ + part_text(v),
                None => from,
            };
            match lookup(params, "amount"@) {
                Some(v) => into + " "@ + "("@ + part_text(v) + ")"@,
                None => into,
            }
        },
    }
}

/// A physical action: it is thought of, enters working memory and focuses.
pub open spec fn physical_effect(
    m: BrainModel,
    a: ActionModel,
    verb: Seq<char>,
    store: Map<Seq<char>, JsonModel>,
) -> Effect<BrainModel> {
    let description = described(a, verb);
    mind_only(
        BrainModel {
            thoughts: m.thoughts.push("Performing action: "@ + description),
            working_memory: remembered(m.working_memory, description),
            emotions: bumped(m.emotions, "focus"@, FOCUS_STEP),
            ..m
        },
        store,
    )
}

/// An operation that the mind does not know: it says so, is confused and
/// curious, and reports the operation as unsupported.
pub open spec fn unknown_effect(
    m: BrainModel,
    a: ActionModel,
    store: Map<Seq<char>, JsonModel>,
) -> Effect<BrainModel> {
    Effect {
        host: BrainModel {
            thoughts: m.thoughts.push(
                "Sorry, I don't know what that means: "@ + operation_debug(a.op),
            ),
            output: m.output.push("I'm not sure what you mean..."@),
            emotions: bumped(
                bumped(m.emotions, "confusion"@, CONFUSION_STEP),
                "curiosity"@,
                WARMTH_STEP,
            ),
            ..m
        },
        store,
        result: Err(
            ErrorModel { kind: ErrorKind::UnsupportedOperation, subject: operation_debug(a.op), action: None },
        ),
    }
}

/// What the mind does with a leaf action: it notes the action in its trace,
/// then does what the operation asks.
pub open spec fn brain_effect(
    host: BrainModel,
    a: ActionModel,
    store: Map<Seq<char>, JsonModel>,
) -> Effect<BrainModel> {
    let m = BrainModel { trace: host.trace.push(trace_line(a)), ..host };
    match a.op {
        OperationModel::StoreFact => store_fact_effect(m, a, store),
        OperationModel::Assert => assert_effect(m, a, store),
        OperationModel::Emit => emit_effect(m, a, store),
        OperationModel::Receive => receive_effect(m, a, store),
        OperationModel::Measure => measure_effect(m, a, store),
        OperationModel::Decide => decide_effect(m, a, store),
        OperationModel::Read => read_effect(m, a, store),
        OperationModel::Write => write_effect(m, a, store),
        OperationModel::Create => create_effect(m, a, store),
        OperationModel::Bind => bind_effect(m, a, store),
        OperationModel::Oblige => oblige_effect(m, a, store),
        OperationModel::Wait => wait_effect(m, a, store),
        OperationModel::GenRandomInt => random_effect(m, a, store),
        OperationModel::Gather => physical_effect(m, a, "Gathering"@, store),
        OperationModel::Heat => physical_effect(m, a, "Heating"@, store),
        OperationModel::Pour => physical_effect(m, a, "Pouring"@, store),
        OperationModel::Mix => physical_effect(m, a, "Mixing"@, store),
        OperationModel::Stir => physical_effect(m, a, "Stirring"@, store),
        OperationModel::Place => physical_effect(m, a, "Placing"@, store),
        OperationModel::Remove => physical_effect(m, a, "Removing"@, store),
        OperationModel::Steep => physical_effect(m, a, "Steeping"@, store),
        OperationModel::Serve => physical_effect(m, a, "Serving"@, store),
        _ => unknown_effect(m, a, store),
    }
}

/// The text of an optional string.
pub open spec fn optional_text(s: Option<String>) -> Option<Seq<char>> {
    match s {
        Some(s) => Some(s@),
        None => None,
    }
}

/// What an `Emit` says.
pub fn emitted(action: &Action, store: &VariableStore) -> (r: String)
    ensures
        r@ == emitted_message(action@, store@),
{
    match &action.params {
        Some(params) => match crate::value::get_entry(params, "content") {
            Some(Value::String(text)) => match store.get(text.as_str()) {
                Some(v) => v.to_json_text(),
                None => text.clone(),
            },
            Some(other) => other.to_json_text(),
            None => match crate::value::get_entry(params, "message") {
                Some(Value::String(text)) => text.clone(),
                Some(other) => other.to_json_text(),
                None => action.target.clone(),
            },
        },
        None => match store.get(action.target.as_str()) {
            Some(v) => v.to_json_text(),
            None => action.target.clone(),
        },
    }
}

/// An operand of a computed `Write`.
pub fn read_operand(action: &Action, store: &VariableStore, register: &str, literal: &str) -> (r:
    u64)
    ensures
        r == operand(action@, store@, register@, literal@),
{
    match get_param(action, register) {
        Some(named) => {
            let name = match named {
                Value::String(s) => s.as_str(),
                _ => "",
            };
            proof {
                reveal_strlit("");
                assert(""@ =~= Seq::<char>::empty());
            }
            match store.get(name) {
                Some(v) => match v.as_float() {
                    Some(bits) => bits,
                    None => 0,
                },
                None => 0,
            }
        },
        None => match get_param(action, literal) {
            Some(v) => match v.as_float() {
                Some(bits) => bits,
                None => 0,
            },
            None => 0,
        },
    }
}

/// The result of a computed `Write`.
pub fn compute(operation: &str, lhs: u64, rhs: u64) -> (r: u64)
    ensures
        r == computed(operation@, lhs, rhs),
{
    if str_equal(operation, "multiply") {
        float::apfloat_mul(lhs, rhs)
    } else if str_equal(operation, "add") {
        float::apfloat_add(lhs, rhs)
    } else if str_equal(operation, "subtract") {
        float::apfloat_sub(lhs, rhs)
    } else if str_equal(operation, "divide") {
        if float::bits_is_zero(rhs) {
            0
        } else {
            float::apfloat_div(lhs, rhs)
        }
    } else {
        float::apfloat_mul(lhs, rhs)
    }
}

/// The sign that stands for an operation in a thought.
pub fn sign_of(operation: &str) -> (r: &'static str)
    ensures
        r@ == operation_sign(operation@),
{
    if str_equal(operation, "multiply") {
        "×"
    } else if str_equal(operation, "add") {
        "+"
    } else if str_equal(operation, "subtract") {
        "-"
    } else if str_equal(operation, "divide") {
        "÷"
    } else {
        "×"
    }
}

/// What a physical action is described as.
pub fn describe(action: &Action, verb: &str) -> (r: String)
    ensures
        r@ == described(action@, verb@),
{
    let mut out = String::from_str(verb);
    out.append(" ");
    out.append(action.target.as_str());
    match &action.params {
        None => {},
        Some(params) => {
            match crate::value::get_entry(params, "from") {
                Some(v) => {
                    out.append(" ");
                    out.append("from ");
                    out.append(
                        match v {
                            Value::String(s) => s.as_str(),
                            _ => "?",
                        },
                    );
                },
                None => {},
            }
            match crate::value::get_entry(params, "into") {
                Some(v) => {
                    out.append(" ");
                    out.append("into ");
                    out.append(
                        match v {
                            Value::String(s) => s.as_str(),
                            _ => "?",
                        },
                    );
                },
                None => {},
            }
            match crate::value::get_entry(params, "amount") {
                Some(v) => {
                    out.append(" ");
                    out.append("(");
                    out.append(
                        match v {
                            Value::String(s) => s.as_str(),
                            _ => "?",
                        },
                    );
                    out.append(")");
                },
                None => {},
            }
        },
    }
    out
}

impl BrainMind {
    /// A mind that holds nothing yet, with seed 0.
    pub fn new() -> (r: BrainMind)
        ensures
            r.model() == (BrainModel {
                emotions: Map::empty(),
                working_memory: Seq::empty(),
                attention: None,
                output: Seq::empty(),
                thoughts: Seq::empty(),
                goals: Seq::empty(),
                trace: Seq::empty(),
                seed: 0,
            }),
    {
        let r = BrainMind {
            emotions: Table::new(),
            working_memory: Vec::new(),
            attention: None,
            output: Vec::new(),
            thoughts: Vec::new(),
            goals: Vec::new(),
            trace: Vec::new(),
            seed: 0,
        };
        assert(texts_view(r.working_memory@) =~= Seq::empty());
        assert(texts_view(r.output@) =~= Seq::empty());
        assert(texts_view(r.thoughts@) =~= Seq::empty());
        assert(texts_view(r.goals@) =~= Seq::empty());
        assert(texts_view(r.trace@) =~= Seq::empty());
        r
    }

    /// Raises an emotion by `amount`.
    pub fn bump(&mut self, name: &str, amount: u64)
        ensures
            final(self).model() == (BrainModel {
                emotions: bumped(old(self).model().emotions, name@, amount),
                ..old(self).model()
            }),
    {
        let felt: u64 = match self.emotions.get(name) {
            Some(bits) => *bits,
            None => 0,
        };
        self.emotions.insert(String::from_str(name), float::apfloat_add(felt, amount));
    }

    /// Lets an item enter working memory; the oldest leaves where the span
    /// is exceeded.
    pub fn remember(&mut self, item: String)
        ensures
            final(self).model() == (BrainModel {
                working_memory: remembered(old(self).model().working_memory, item@),
                ..old(self).model()
            }),
    {
        let ghost before = texts_view(self.working_memory@);
        self.working_memory.push(item);
        assert(texts_view(self.working_memory@) =~= before.push(item@));
        if self.working_memory.len() > WORKING_MEMORY_SPAN {
            self.working_memory.remove(0);
            assert(texts_view(self.working_memory@) =~= before.push(item@).remove(0));
        }
    }

    /// Adds a thought.
    pub fn think(&mut self, thought: String)
        ensures
            final(self).model() == (BrainModel {
                thoughts: old(self).model().thoughts.push(thought@),
                ..old(self).model()
            }),
    {
        push_text(&mut self.thoughts, thought);
    }

    /// Stores the parameters of a `StoreFact` as facts: see [`store_fact_effect`].
    fn store_fact(&mut self, action: &Action, store: &mut VariableStore) -> (r: Result<
        (),
        ExecError,
    >)
        ensures
            (Effect {
                host: final(self).model(),
                store: final(store)@,
                result: outcome_view(r),
            }) == store_fact_effect(old(self).model(), action@, old(store)@),
    {
        let params = match &action.params {
            Some(params) => params,
            None => {
                return Ok(());
            },
        };
        let entity = get_text_or_target(action, "entity");
        let ghost pv = entries_view(params@);
        let ghost start = store@;
        let mut keys: Vec<String> = Vec::new();
        let mut i: usize = 0;
        while i < params.len()
            invariant
                i <= params.len(),
                pv == entries_view(params@),
                store@ == facts_stored(pv, i as nat, entity@, start),
                texts_view(keys@) == fact_keys(pv, i as nat),
            decreases params.len() - i,
        {
            if !str_equal(params[i].0.as_str(), "entity") {
                let mut key = String::from_str(entity);
                key.append(".");
                key.append(params[i].0.as_str());
                store.insert(key, params[i].1.clone());
                push_text(&mut keys, params[i].0.clone());
            }
            i += 1;
        }
        if keys.len() > 0 {
            let mut item = String::from_str("The ");
            item.append(entity);
            item.append(" has properties: ");
            let listed = join(&keys, ", ");
            item.append(listed.as_str());
            self.remember(item);
        }
        Ok(())
    }

    /// Believes the statement of an `Assert`: see [`assert_effect`].
    fn assert_fact(&mut self, action: &Action, store: &mut VariableStore) -> (r: Result<
        (),
        ExecError,
    >)
        ensures
            (Effect {
                host: final(self).model(),
                store: final(store)@,
                result: outcome_view(r),
            }) == assert_effect(old(self).model(), action@, old(store)@),
    {
        let statement = get_text_or_target(action, "statement");
        let mut key = String::from_str("assertion.");
        key.append(action.target.as_str());
        store.insert(key, Value::String(String::from_str(statement)));
        let mut thought = String::from_str("I believe that: ");
        thought.append(statement);
        self.think(thought);
        Ok(())
    }

    /// Says what an `Emit` emits: see [`emit_effect`].
    fn emit(&mut self, action: &Action, store: &mut VariableStore) -> (r: Result<(), ExecError>)
        ensures
            (Effect {
                host: final(self).model(),
                store: final(store)@,
                result: outcome_view(r),
            }) == emit_effect(old(self).model(), action@, old(store)@),
    {
        let message = emitted(action, store);
        push_text(&mut self.output, message);
        let greeting = match get_param_text(action, "intent") {
            Some(intent) => str_equal(intent, "greeting"),
            None => false,
        };
        if greeting {
            self.bump("warmth", WARMTH_STEP);
        }
        Ok(())
    }

    /// Hears what a `Receive` receives: see [`receive_effect`].
    fn receive(&mut self, action: &Action, store: &mut VariableStore) -> (r: Result<
        (),
        ExecError,
    >)
        ensures
            (Effect {
                host: final(self).model(),
                store: final(store)@,
                result: outcome_view(r),
            }) == receive_effect(old(self).model(), action@, old(store)@),
    {
        let input = get_text_or_target(action, "content");
        let mut heard = String::from_str("Heard: ");
        heard.append(input);
        push_text(&mut self.working_memory, heard);
        self.attention = Some(String::from_str(input));
        Ok(())
    }

    /// Observes the target of a `Measure`: see [`measure_effect`].
    fn measure(&mut self, action: &Action, store: &mut VariableStore) -> (r: Result<
        (),
        ExecError,
    >)
        ensures
            (Effect {
                host: final(self).model(),
                store: final(store)@,
                result: outcome_view(r),
            }) == measure_effect(old(self).model(), action@, old(store)@),
    {
        self.attention = Some(action.target.clone());
        match &action.params {
            Some(params) => {
                let ghost pv = entries_view(params@);
                let ghost start = store@;
                let mut i: usize = 0;
                while i < params.len()
                    invariant
                        i <= params.len(),
                        pv == entries_view(params@),
                        store@ == observed(pv, i as nat, action.target@, start),
                    decreases params.len() - i,
                {
                    let mut key = String::from_str("observed.");
                    key.append(action.target.as_str());
                    key.append(".");
                    key.append(params[i].0.as_str());
                    store.insert(key, params[i].1.clone());
                    i += 1;
                }
            },
            None => {},
        }
        Ok(())
    }

    /// Takes the decision of a `Decide`: see [`decide_effect`].
    fn decide(&mut self, action: &Action, store: &mut VariableStore) -> (r: Result<(), ExecError>)
        ensures
            (Effect {
                host: final(self).model(),
                store: final(store)@,
                result: outcome_view(r),
            }) == decide_effect(old(self).model(), action@, old(store)@),
    {
        let chosen = match get_param(action, "choice") {
            Some(v) => Some(v),
            None => get_param(action, "decision"),
        };
        let decided = match chosen {
            Some(Value::String(s)) => s.as_str(),
            _ => action.target.as_str(),
        };
        let mut thought = String::from_str("Decided to: ");
        thought.append(decided);
        self.think(thought);
        match get_param_text(action, "goal") {
            Some(goal) => {
                push_text(&mut self.goals, String::from_str(goal));
            },
            None => {},
        }
        Ok(())
    }

    /// Recalls the belief that a `Read` names: see [`read_effect`].
    fn read(&mut self, action: &Action, store: &mut VariableStore) -> (r: Result<(), ExecError>)
        ensures
            (Effect {
                host: final(self).model(),
                store: final(store)@,
                result: outcome_view(r),
            }) == read_effect(old(self).model(), action@, old(store)@),
    {
        match store.get(action.target.as_str()) {
            Some(v) => {
                let mut recalled = String::from_str("Recalled: ");
                recalled.append(action.target.as_str());
                recalled.append(" = ");
                let text = v.to_json_text();
                recalled.append(text.as_str());
                push_text(&mut self.working_memory, recalled);
            },
            None => {},
        }
        Ok(())
    }

    /// Computes or takes the value of a `Write`: see [`write_effect`].
    fn write_memory(&mut self, action: &Action, store: &mut VariableStore) -> (r: Result<
        (),
        ExecError,
    >)
        ensures
            (Effect {
                host: final(self).model(),
                store: final(store)@,
                result: outcome_view(r),
            }) == write_effect(old(self).model(), action@, old(store)@),
    {
        match get_param(action, "operation") {
            Some(named) => {
                let operation = match named {
                    Value::String(s) => s.as_str(),
                    _ => "",
                };
                proof {
                    reveal_strlit("");
                    assert(""@ =~= Seq::<char>::empty());
                }
                let lhs = read_operand(action, store, "lhs_register", "lhs");
                let rhs = read_operand(action, store, "rhs_register", "rhs");
                let result = compute(operation, lhs, rhs);
                store.insert(action.target.clone(), float_value_of(result));
                let mut thought = String::from_str("Calculated: ");
                thought.append(action.target.as_str());
                thought.append(" = ");
                let left = float::plain_text(lhs);
                thought.append(left.as_str());
                thought.append(" ");
                thought.append(sign_of(operation));
                thought.append(" ");
                let right = float::plain_text(rhs);
                thought.append(right.as_str());
                thought.append(" = ");
                let total = float::plain_text(result);
                thought.append(total.as_str());
                self.think(thought);
                Ok(())
            },
            None => {
                match get_param(action, "value") {
                    Some(v) => {
                        store.insert(action.target.clone(), v.clone());
                    },
                    None => {},
                }
                Ok(())
            },
        }
    }

    /// Conceives the concept of a `Create`: see [`create_effect`].
    fn create_concept(&mut self, action: &Action, store: &mut VariableStore) -> (r: Result<
        (),
        ExecError,
    >)
        ensures
            (Effect {
                host: final(self).model(),
                store: final(store)@,
                result: outcome_view(r),
            }) == create_effect(old(self).model(), action@, old(store)@),
    {
        let mut thought = String::from_str("Conceived of: ");
        thought.append(action.target.as_str());
        self.think(thought);
        let mut key = String::from_str("concept.");
        key.append(action.target.as_str());
        let mut entries: Vec<(String, Value)> = Vec::new();
        entries.push((String::from_str("exists"), Value::Bool(true)));
        let belief = Value::Object(entries);
        proof {
            crate::value::lemma_view_object(entries);
            assert(entries_view(entries@) =~= seq![("exists"@, JsonModel::Bool(true))]);
        }
        store.insert(key, belief);
        Ok(())
    }

    /// Binds the value of a `Bind`: see [`bind_effect`].
    fn bind_concept(&mut self, action: &Action, store: &mut VariableStore) -> (r: Result<
        (),
        ExecError,
    >)
        ensures
            (Effect {
                host: final(self).model(),
                store: final(store)@,
                result: outcome_view(r),
            }) == bind_effect(old(self).model(), action@, old(store)@),
    {
        match get_param(action, "value") {
            Some(v) => {
                store.insert(action.target.clone(), v.clone());
            },
            None => {},
        }
        Ok(())
    }

    /// Accepts the duty of an `Oblige`: see [`oblige_effect`].
    fn create_obligation(&mut self, action: &Action, store: &mut VariableStore) -> (r: Result<
        (),
        ExecError,
    >)
        ensures
            (Effect {
                host: final(self).model(),
                store: final(store)@,
                result: outcome_view(r),
            }) == oblige_effect(old(self).model(), action@, old(store)@),
    {
        match get_param_text(action, "duty") {
            Some(duty) => {
                let mut goal = String::from_str("Must: ");
                goal.append(duty);
                push_text(&mut self.goals, goal);
                self.bump("responsibility", DUTY_STEP);
            },
            None => {},
        }
        Ok(())
    }

    /// Waits as a `Wait` asks: see [`wait_effect`].
    fn wait(&mut self, action: &Action, store: &mut VariableStore) -> (r: Result<(), ExecError>)
        ensures
            (Effect {
                host: final(self).model(),
                store: final(store)@,
                result: outcome_view(r),
            }) == wait_effect(old(self).model(), action@, old(store)@),
    {
        let duration = match action.dur {
            Some(bits) => bits,
            None => ONE_SECOND,
        };
        let mut thought = String::from_str("Waiting for ");
        let text = float::one_digit_text(duration);
        thought.append(text.as_str());
        thought.append("s");
        self.think(thought);
        Ok(())
    }

    /// Draws the number of a `GenRandomInt`: see [`random_effect`].
    fn gen_random_int(&mut self, action: &Action, store: &mut VariableStore) -> (r: Result<
        (),
        ExecError,
    >)
        ensures
            (Effect {
                host: final(self).model(),
                store: final(store)@,
                result: outcome_view(r),
            }) == random_effect(old(self).model(), action@, old(store)@),
    {
        let min = get_integer_or(action, "min", 0);
        let max = get_integer_or(action, "max", 9);
        if min > max {
            return Err(ExecError::about(ErrorKind::MalformedAction, action.label()));
        }
        let span: i128 = max as i128 - min as i128 + 1;
        let offset: i128 = self.seed as i128 % span;
        let n: i64 = (min as i128 + offset) as i64;
        store.insert(action.target.clone(), Value::Number(Number::from_i64(n)));
        let mut thought = String::from_str("Generated random number: ");
        thought.append(action.target.as_str());
        thought.append(" = ");
        let text = i64_text(n);
        thought.append(text.as_str());
        self.think(thought);
        self.seed = self.seed.wrapping_mul(6364136223846793005).wrapping_add(1442695040888963407);
        Ok(())
    }

    /// Performs a physical action: see [`physical_effect`].
    fn physical_action(
        &mut self,
        action: &Action,
        verb: &str,
        store: &mut VariableStore,
    ) -> (r: Result<(), ExecError>)
        ensures
            (Effect {
                host: final(self).model(),
                store: final(store)@,
                result: outcome_view(r),
            }) == physical_effect(old(self).model(), action@, verb@, old(store)@),
    {
        let description = describe(action, verb);
        let mut thought = String::from_str("Performing action: ");
        thought.append(description.as_str());
        self.think(thought);
        self.remember(description);
        self.bump("focus", FOCUS_STEP);
        Ok(())
    }

    /// Meets an operation that the mind does not know: see [`unknown_effect`].
    fn unknown(&mut self, action: &Action, store: &mut VariableStore) -> (r: Result<
        (),
        ExecError,
    >)
        ensures
            (Effect {
                host: final(self).model(),
                store: final(store)@,
                result: outcome_view(r),
            }) == unknown_effect(old(self).model(), action@, old(store)@),
    {
        let name = action.op.debug_text();
        let mut thought = String::from_str("Sorry, I don't know what that means: ");
        thought.append(name.as_str());
        self.think(thought);
        push_text(&mut self.output, String::from_str("I'm not sure what you mean..."));
        self.bump("confusion", CONFUSION_STEP);
        self.bump("curiosity", WARMTH_STEP);
        Err(ExecError::new(ErrorKind::UnsupportedOperation, name.as_str()))
    }
}

impl EffectHandler for BrainMind {
    type Model = BrainModel;

    open spec fn model(&self) -> BrainModel {
        BrainModel {
            emotions: self.emotions@,
            working_memory: texts_view(self.working_memory@),
            attention: optional_text(self.attention),
            output: texts_view(self.output@),
            thoughts: texts_view(self.thoughts@),
            goals: texts_view(self.goals@),
            trace: texts_view(self.trace@),
            seed: self.seed,
        }
    }

    open spec fn effect(
        host: BrainModel,
        action: ActionModel,
        store: Map<Seq<char>, JsonModel>,
    ) -> Effect<BrainModel> {
        brain_effect(host, action, store)
    }

    fn handle(&mut self, action: &Action, store: &mut VariableStore) -> (r: Result<(), ExecError>)
    {
        push_text(&mut self.trace, action.label());
        match &action.op {
            Operation::StoreFact => self.store_fact(action, store),
            Operation::Assert => self.assert_fact(action, store),
            Operation::Emit => self.emit(action, store),
            Operation::Receive => self.receive(action, store),
            Operation::Measure => self.measure(action, store),
            Operation::Decide => self.decide(action, store),
            Operation::Read => self.read(action, store),
            Operation::Write => self.write_memory(action, store),
            Operation::Create => self.create_concept(action, store),
            Operation::Bind => self.bind_concept(action, store),
            Operation::Oblige => self.create_obligation(action, store),
            Operation::Wait => self.wait(action, store),
            Operation::GenRandomInt => self.gen_random_int(action, store),
            Operation::Gather => self.physical_action(action, "Gathering", store),
            Operation::Heat => self.physical_action(action, "Heating", store),
            Operation::Pour => self.physical_action(action, "Pouring", store),
            Operation::Mix => self.physical_action(action, "Mixing", store),
            Operation::Stir => self.physical_action(action, "Stirring", store),
            Operation::Place => self.physical_action(action, "Placing", store),
            Operation::Remove => self.physical_action(action, "Removing", store),
            Operation::Steep => self.physical_action(action, "Steeping", store),
            Operation::Serve => self.physical_action(action, "Serving", store),
            _ => self.unknown(action, store),
        }
    }
}

/// The state of a simulated mind.
#[derive(Debug)]
pub struct BrainState {
    /// Facts and beliefs: the variable store of the run.
    pub beliefs: VariableStore,
    /// Intensity of each emotion, as a binary64 pattern.
    pub emotions: Table<u64>,
    /// Short-term memory.
    pub working_memory: Vec<String>,
    /// What attention is on.
    pub attention: Option<String>,
    /// What the mind wants to express.
    pub output: Vec<String>,
    /// Internal narrative.
    pub thoughts: Vec<String>,
    /// Goals and intentions.
    pub goals: Vec<String>,
    /// The leaf actions handled so far.
    pub trace: Vec<String>,
    /// Learned functions.
    pub functions: FunctionTable,
}

impl BrainState {
    /// The mind's part of the state, with seed `seed`.
    pub open spec fn mind(&self, seed: u64) -> BrainModel {
        BrainModel {
            emotions: self.emotions@,
            working_memory: texts_view(self.working_memory@),
            attention: optional_text(self.attention),
            output: texts_view(self.output@),
            thoughts: texts_view(self.thoughts@),
            goals: texts_view(self.goals@),
            trace: texts_view(self.trace@),
            seed,
        }
    }

    /// The state of a run on this mind, with seed `seed`.
    pub open spec fn world(&self, seed: u64) -> World<BrainModel> {
        World { store: self.beliefs@, functions: self.functions@, host: self.mind(seed) }
    }

    /// The state in which nothing is believed, felt, remembered or defined.
    pub open spec fn blank(seed: u64) -> World<BrainModel> {
        World {
            store: Map::empty(),
            functions: Map::empty(),
            host: BrainModel {
                emotions: Map::empty(),
                working_memory: Seq::empty(),
                attention: None,
                output: Seq::empty(),
                thoughts: Seq::empty(),
                goals: Seq::empty(),
                trace: Seq::empty(),
                seed,
            },
        }
    }

    /// A mind that holds nothing yet.
    pub fn new() -> (r: BrainState)
        ensures
            forall|seed: u64| r.world(seed) == BrainState::blank(seed),
    {
        let r = BrainState {
            beliefs: Table::new(),
            emotions: Table::new(),
            working_memory: Vec::new(),
            attention: None,
            output: Vec::new(),
            thoughts: Vec::new(),
            goals: Vec::new(),
            trace: Vec::new(),
            functions: Table::new(),
        };
        assert(texts_view(r.working_memory@) =~= Seq::empty());
        assert(texts_view(r.output@) =~= Seq::empty());
        assert(texts_view(r.thoughts@) =~= Seq::empty());
        assert(texts_view(r.goals@) =~= Seq::empty());
        assert(texts_view(r.trace@) =~= Seq::empty());
        r
    }
}

impl Default for BrainState {
    fn default() -> (r: BrainState)
        ensures
            forall|seed: u64| r.world(seed) == BrainState::blank(seed),
    {
        BrainState::new()
    }
}

/// A simulated mind that runs programs.
pub struct BrainSimulator {
    state: BrainState,
    verbose: bool,
    recursion_depth: usize,
    max_recursion_depth: usize,
    seed: u64,
}

impl BrainSimulator {
    /// The state of a run on this simulator.
    pub closed spec fn world(&self) -> World<BrainModel> {
        self.state.world(self.seed)
    }

    /// The guard under which this simulator runs an action.
    pub closed spec fn guard(&self) -> RecursionGuard {
        RecursionGuard { depth: self.recursion_depth, max_depth: self.max_recursion_depth }
    }

    /// Whether the simulator was asked to report each step.
    pub closed spec fn is_verbose(&self) -> bool {
        self.verbose
    }

    /// A simulator of a mind that holds nothing yet, at depth 0, with the
    /// default limit on depth and seed 0.
    pub fn new() -> (r: BrainSimulator)
        ensures
            r.world() == BrainState::blank(0),
            r.guard() == (RecursionGuard { depth: 0, max_depth: DEFAULT_MAX_DEPTH }),
            !r.is_verbose(),
    {
        BrainSimulator {
            state: BrainState::new(),
            verbose: false,
            recursion_depth: 0,
            max_recursion_depth: DEFAULT_MAX_DEPTH,
            seed: 0,
        }
    }

    /// The simulator with its wish for step reports set.
    pub fn with_verbose(self, verbose: bool) -> (r: BrainSimulator)
        ensures
            r.world() == self.world(),
            r.guard() == self.guard(),
            r.is_verbose() == verbose,
    {
        let mut r = self;
        r.verbose = verbose;
        r
    }

    /// The simulator with the seed of its random numbers set.
    pub fn with_seed(self, seed: u64) -> (r: BrainSimulator)
        ensures
            r.world() == (World {
                host: BrainModel { seed, ..self.world().host },
                ..self.world()
            }),
            r.guard() == self.guard(),
            r.is_verbose() == self.is_verbose(),
    {
        let mut r = self;
        r.seed = seed;
        r
    }

    /// Whether step reports are wished for.
    pub fn verbose(&self) -> (r: bool)
        ensures
            r == self.is_verbose(),
    {
        self.verbose
    }

    /// The seed from which the next random number is drawn.
    pub closed spec fn seed_value(&self) -> u64 {
        self.seed
    }

    /// The state of the mind.
    pub fn state(&self) -> (r: &BrainState)
        ensures
            r.world(self.seed_value()) == self.world(),
    {
        &self.state
    }

    /// Runs a program on the mind: its actions in order, up to the first
    /// that fails.
    pub fn execute(&mut self, program: &Program) -> (r: Result<(), ExecError>)
        ensures
            (Outcome { result: outcome_view(r), world: final(self).world() }) == exec_block::<
                BrainMind,
            >(program@.actions, 0, old(self).world(), old(self).guard()),
            final(self).guard() == old(self).guard(),
            final(self).is_verbose() == old(self).is_verbose(),
    {
        let ghost av = crate::ast::actions_view(program.actions@);
        let mut i: usize = 0;
        while i < program.actions.len()
            invariant
                i <= program.actions.len(),
                av == crate::ast::actions_view(program.actions@),
                self.guard() == old(self).guard(),
                self.is_verbose() == old(self).is_verbose(),
                exec_block::<BrainMind>(av, 0, old(self).world(), old(self).guard()) == exec_block::<
                    BrainMind,
                >(av, i as nat, self.world(), self.guard()),
            decreases program.actions.len() - i,
        {
            match self.execute_action(&program.actions[i]) {
                Ok(()) => {},
                Err(e) => {
                    return Err(e);
                },
            }
            i += 1;
        }
        Ok(())
    }

    /// Runs one action on the mind.
    pub fn execute_action(&mut self, action: &Action) -> (r: Result<(), ExecError>)
        ensures
            (Outcome { result: outcome_view(r), world: final(self).world() })
                == crate::semantics::exec_action::<BrainMind>(
                action@,
                old(self).world(),
                old(self).guard(),
            ),
            final(self).guard() == old(self).guard(),
            final(self).is_verbose() == old(self).is_verbose(),
    {
        let guard = RecursionGuard {
            depth: self.recursion_depth,
            max_depth: self.max_recursion_depth,
        };
        let mut state = BrainState::new();
        core::mem::swap(&mut self.state, &mut state);
        let mut store = state.beliefs;
        let mut functions = state.functions;
        let mut mind = BrainMind {
            emotions: state.emotions,
            working_memory: state.working_memory,
            attention: state.attention,
            output: state.output,
            thoughts: state.thoughts,
            goals: state.goals,
            trace: state.trace,
            seed: self.seed,
        };
        let r = crate::interp::execute_action(
            action,
            &mut store,
            &mut functions,
            &mut mind,
            guard,
        );
        self.seed = mind.seed;
        self.state = BrainState {
            beliefs: store,
            emotions: mind.emotions,
            working_memory: mind.working_memory,
            attention: mind.attention,
            output: mind.output,
            thoughts: mind.thoughts,
            goals: mind.goals,
            trace: mind.trace,
            functions,
        };
        r
    }
}

impl Default for BrainSimulator {
    fn default() -> (r: BrainSimulator)
        ensures
            r.world() == BrainState::blank(0),
            r.guard() == (RecursionGuard { depth: 0, max_depth: DEFAULT_MAX_DEPTH }),
            !r.is_verbose(),
    {
        BrainSimulator::new()
    }
}

/// The lines of the first `n` beliefs: each name and the JSON text of what
/// is believed under it.
pub open spec fn belief_lines(beliefs: Seq<(Seq<char>, JsonModel)>, n: nat) -> Seq<char>
    decreases n,
{
    if n == 0 || n > beliefs.len() {
        Seq::empty()
    } else {
        belief_lines(beliefs, (n - 1) as nat) + "  "@ + beliefs[n - 1].0 + " = "@ + json_text(
            beliefs[n - 1].1,
        ) + "\n"@
    }
}

/// The lines of the first `n` emotions: each name and its intensity with
/// two decimals.
pub open spec fn emotion_lines(emotions: Seq<(Seq<char>, u64)>, n: nat) -> Seq<char>
    decreases n,
{
    if n == 0 || n > emotions.len() {
        Seq::empty()
    } else {
        emotion_lines(emotions, (n - 1) as nat) + "  "@ + emotions[n - 1].0 + ": "@
            + float::two_digit_display(emotions[n - 1].1) + "\n"@
    }
}

/// A part of a report under a heading, closed by an empty line; nothing
/// where the part has no lines.
pub open spec fn section(heading: Seq<char>, lines: Seq<char>, present: bool) -> Seq<char> {
    if present {
        heading + lines + "\n"@
    } else {
        Seq::empty()
    }
}

/// The report of a mind's state: its beliefs, emotions, working memory,
/// focus, goals, thoughts and speech, each part only where there is any of
/// it, beliefs and emotions in the order in which their names were first
/// used.
pub open spec fn brain_report(
    beliefs: Seq<(Seq<char>, JsonModel)>,
    emotions: Seq<(Seq<char>, u64)>,
    m: BrainModel,
) -> Seq<char> {
    "=== Brain State ===\n\n"@ + section(
        "Beliefs:\n"@,
        belief_lines(beliefs, beliefs.len()),
        beliefs.len() > 0,
    ) + section("Emotional State:\n"@, emotion_lines(emotions, emotions.len()), emotions.len() > 0)
        + section(
        "Working Memory:\n"@,
        crate::text::lines_of(m.working_memory, m.working_memory.len(), "  - "@, "\n"@),
        m.working_memory.len() > 0,
    ) + (match m.attention {
        Some(focus) => "Current Focus: "@ + focus + "\n\n"@,
        None => Seq::empty(),
    }) + section(
        "Active Goals:\n"@,
        crate::text::lines_of(m.goals, m.goals.len(), "  → "@, "\n"@),
        m.goals.len() > 0,
    ) + section(
        "Internal Thoughts:\n"@,
        crate::text::lines_of(m.thoughts, m.thoughts.len(), "  💭 "@, "\n"@),
        m.thoughts.len() > 0,
    ) + section(
        "Output/Speech:\n"@,
        crate::text::lines_of(m.output, m.output.len(), "  🗣️  "@, "\n"@),
        m.output.len() > 0,
    )
}

/// Appends a part of a report: its heading, its lines and an empty line.
fn push_section(out: &mut String, heading: &str, items: &Vec<String>, before: &str)
    ensures
        final(out)@ == old(out)@ + section(
            heading@,
            crate::text::lines_of(texts_view(items@), items.len() as nat, before@, "\n"@),
            items.len() > 0,
        ),
{
    if items.len() > 0 {
        let ghost head = out@;
        out.append(heading);
        crate::text::push_lines(out, items, before, "\n");
        out.append("\n");
        assert(out@ =~= head + section(
            heading@,
            crate::text::lines_of(texts_view(items@), items.len() as nat, before@, "\n"@),
            true,
        ));
    } else {
        assert(out@ =~= old(out)@ + Seq::<char>::empty());
    }
}

impl BrainState {
    /// The report of the state.
    pub fn display(&self) -> (r: String)
        ensures
            r@ == brain_report(
                crate::table::pairs_view(self.beliefs.entries@),
                crate::table::pairs_view(self.emotions.entries@),
                self.mind(0),
            ),
    {
        let mut out = String::from_str("=== Brain State ===\n\n");
        let beliefs = &self.beliefs.entries;
        let ghost bv = crate::table::pairs_view(beliefs@);
        if beliefs.len() > 0 {
            let ghost head = out@;
            out.append("Beliefs:\n");
            let ghost start = out@;
            let mut i: usize = 0;
            assert(out@ =~= start + belief_lines(bv, 0));
            while i < beliefs.len()
                invariant
                    i <= beliefs.len(),
                    bv == crate::table::pairs_view(beliefs@),
                    out@ == start + belief_lines(bv, i as nat),
                decreases beliefs.len() - i,
            {
                out.append("  ");
                out.append(beliefs[i].0.as_str());
                out.append(" = ");
                let text = beliefs[i].1.to_json_text();
                out.append(text.as_str());
                out.append("\n");
                assert(out@ =~= start + belief_lines(bv, (i + 1) as nat));
                i += 1;
            }
            out.append("\n");
            assert(out@ =~= head + section(
                "Beliefs:\n"@,
                belief_lines(bv, bv.len()),
                true,
            ));
        } else {
            assert(out@ =~= out@ + section("Beliefs:\n"@, belief_lines(bv, bv.len()), false));
        }
        let emotions = &self.emotions.entries;
        let ghost ev = crate::table::pairs_view(emotions@);
        let ghost before_emotions = out@;
        if emotions.len() > 0 {
            out.append("Emotional State:\n");
            let ghost start = out@;
            let mut i: usize = 0;
            assert(out@ =~= start + emotion_lines(ev, 0));
            while i < emotions.len()
                invariant
                    i <= emotions.len(),
                    ev == crate::table::pairs_view(emotions@),
                    out@ == start + emotion_lines(ev, i as nat),
                decreases emotions.len() - i,
            {
                out.append("  ");
                out.append(emotions[i].0.as_str());
                out.append(": ");
                let text = float::two_digit_text(emotions[i].1);
                out.append(text.as_str());
                out.append("\n");
                assert(out@ =~= start + emotion_lines(ev, (i + 1) as nat));
                i += 1;
            }
            out.append("\n");
            assert(out@ =~= before_emotions + section(
                "Emotional State:\n"@,
                emotion_lines(ev, ev.len()),
                true,
            ));
        } else {
            assert(out@ =~= before_emotions + section(
                "Emotional State:\n"@,
                emotion_lines(ev, ev.len()),
                false,
            ));
        }
        push_section(&mut out, "Working Memory:\n", &self.working_memory, "  - ");
        let ghost before_focus = out@;
        match &self.attention {
            Some(focus) => {
                out.append("Current Focus: ");
                out.append(focus.as_str());
                out.append("\n\n");
                assert(out@ =~= before_focus + ("Current Focus: "@ + focus@ + "\n\n"@));
            },
            None => {
                assert(out@ =~= before_focus + Seq::<char>::empty());
            },
        }
        push_section(&mut out, "Active Goals:\n", &self.goals, "  → ");
        push_section(&mut out, "Internal Thoughts:\n", &self.thoughts, "  💭 ");
        push_section(&mut out, "Output/Speech:\n", &self.output, "  🗣️  ");
        out
    }
}

} // verus!
