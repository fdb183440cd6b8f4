//! The Ruby generator: a program as Ruby source text.

use crate::ast::{
    actions_view, args_view, conds_view, lemma_view_action, lemma_view_call, lemma_view_operands,
    Action, ActionModel, CondModel, Condition, ExprModel, Expression, Operation, OperationModel,
    Program,
};
use crate::document::{
    action_label, actions_from_items, comparison_name, decode_actions, decode_expr,
    operation_debug,
};
use crate::error::{ErrorKind, ErrorModel, ExecError};
use crate::float;
use crate::params::{get_integer_or, get_param, integer_or, param};
use crate::semantics::texts_among;
use crate::table::Table;
use crate::text::{
    escape_quotes, i64_text, join, joined, push_text, quotes_escaped, repeat, repeated,
    signed_decimal, str_equal, texts_view,
};
use crate::value::{
    entries_view, float_of, get_entry, items_view, lemma_view_list, lemma_view_object, lookup,
    JsonModel, Value,
};
use vstd::prelude::*;
use vstd::string::*;

verus! {

/// The Ruby texts of the first `n` items of a list.
pub open spec fn ruby_items(items: Seq<JsonModel>, n: nat) -> Seq<Seq<char>>
    decreases items, n,
{
    if n == 0 || n > items.len() {
        Seq::empty()
    } else {
        ruby_items(items, (n - 1) as nat).push(ruby_value(items[n - 1]))
    }
}

/// The Ruby texts `key: value` of the first `n` entries of an object.
pub open spec fn ruby_pairs(entries: Seq<(Seq<char>, JsonModel)>, n: nat) -> Seq<Seq<char>>
    decreases entries, n,
{
    if n == 0 || n > entries.len() {
        Seq::empty()
    } else {
        ruby_pairs(entries, (n - 1) as nat).push(
            entries[n - 1].0 + ": "@ + ruby_value(entries[n - 1].1),
        )
    }
}

/// The Ruby literal of a value: a string in double quotes with its quotes
/// escaped, a number as its text, `true`, `false`, `nil`, a list in square
/// brackets, an object in braces.
pub open spec fn ruby_value(v: JsonModel) -> Seq<char>
    decreases v, 0nat,
{
    match v {
        JsonModel::String(s) => "\""@ + quotes_escaped(s, s.len()) + "\""@,
        JsonModel::Number(n) => n.text(),
        JsonModel::Bool(b) => if b {
            "true"@
        } else {
            "false"@
        },
        JsonModel::Null => "nil"@,
        JsonModel::List(items) => "["@ + joined(ruby_items(items, items.len()), ", "@) + "]"@,
        JsonModel::Object(entries) => "{"@ + joined(ruby_pairs(entries, entries.len()), ", "@)
            + "}"@,
    }
}

/// The Ruby texts of the values of the first `n` arguments.
pub open spec fn ruby_args(args: Seq<(Seq<char>, ExprModel)>, n: nat) -> Seq<Seq<char>>
    decreases args, n,
{
    if n == 0 || n > args.len() {
        Seq::empty()
    } else {
        ruby_args(args, (n - 1) as nat).push(ruby_expression(args[n - 1].1))
    }
}

/// The Ruby text of an expression: a literal, a variable's name, a binary
/// operation in parentheses, or a call with its arguments by position.
pub open spec fn ruby_expression(e: ExprModel) -> Seq<char>
    decreases e, 0nat,
{
    match e {
        ExprModel::Value(v) => ruby_value(v),
        ExprModel::Variable { var } => var,
        ExprModel::BinaryOp { op, left, right } => "("@ + ruby_expression(*left) + " "@ + op
            + " "@ + ruby_expression(*right) + ")"@,
        ExprModel::FunctionCall { call, args } => call + "("@ + joined(
            ruby_args(args, args.len()),
            ", "@,
        ) + ")"@,
    }
}

/// The Ruby texts of the first `n` operands.
pub open spec fn ruby_operands(operands: Seq<CondModel>, n: nat) -> Seq<Seq<char>>
    decreases operands, n,
{
    if n == 0 || n > operands.len() {
        Seq::empty()
    } else {
        ruby_operands(operands, (n - 1) as nat).push(ruby_condition(operands[n - 1]))
    }
}

/// The Ruby text of a condition: a comparison with its sign, a conjunction
/// or disjunction in parentheses, a negation as `!(..)`. A conjunction of no
/// operands is `true` and a disjunction of no operands is `false`, as they
/// are when they are evaluated.
pub open spec fn ruby_condition(c: CondModel) -> Seq<char>
    decreases c, 0nat,
{
    match c {
        CondModel::Comparison { op, left, right } => ruby_expression(left) + " "@
            + comparison_name(op) + " "@ + ruby_expression(right),
        CondModel::And { operands } => if operands.len() == 0 {
            "true"@
        } else {
            "("@ + joined(ruby_operands(operands, operands.len()), " && "@) + ")"@
        },
        CondModel::Or { operands } => if operands.len() == 0 {
            "false"@
        } else {
            "("@ + joined(ruby_operands(operands, operands.len()), " || "@) + ")"@
        },
        CondModel::Not { operand } => "!("@ + ruby_condition(*operand) + ")"@,
    }
}

/// The Ruby literals of the items of a list.
pub fn items_to_ruby(items: &Vec<Value>) -> (r: Vec<String>)
    ensures
        texts_view(r@) == ruby_items(items_view(items@), items.len() as nat),
    decreases items,
{
    let ghost iv = items_view(items@);
    let mut out: Vec<String> = Vec::new();
    let mut i: usize = 0;
    while i < items.len()
        invariant
            i <= items.len(),
            iv == items_view(items@),
            texts_view(out@) == ruby_items(iv, i as nat),
        decreases items.len() - i,
    {
        let ghost before = texts_view(out@);
        let text = value_to_ruby(&items[i]);
        out.push(text);
        proof {
            assert(ruby_items(iv, (i + 1) as nat) == ruby_items(iv, i as nat).push(
                ruby_value(iv[i as int]),
            ));
            assert(texts_view(out@) =~= before.push(text@));
        }
        i += 1;
    }
    out
}

/// The Ruby texts `key: value` of the entries of an object.
pub fn pairs_to_ruby(entries: &Vec<(String, Value)>) -> (r: Vec<String>)
    ensures
        texts_view(r@) == ruby_pairs(entries_view(entries@), entries.len() as nat),
    decreases entries,
{
    let ghost ev = entries_view(entries@);
    let mut out: Vec<String> = Vec::new();
    let mut i: usize = 0;
    while i < entries.len()
        invariant
            i <= entries.len(),
            ev == entries_view(entries@),
            texts_view(out@) == ruby_pairs(ev, i as nat),
        decreases entries.len() - i,
    {
        let ghost before = texts_view(out@);
        let mut text = entries[i].0.clone();
        text.append(": ");
        let literal = value_to_ruby(&entries[i].1);
        text.append(literal.as_str());
        out.push(text);
        proof {
            assert(ruby_pairs(ev, (i + 1) as nat) == ruby_pairs(ev, i as nat).push(
                ev[i as int].0 + ": "@ + ruby_value(ev[i as int].1),
            ));
            assert(texts_view(out@) =~= before.push(text@));
        }
        i += 1;
    }
    out
}

/// The Ruby literal of a value.
pub fn value_to_ruby(value: &Value) -> (r: String)
    ensures
        r@ == ruby_value(value@),
    decreases value,
{
    match value {
        Value::String(s) => {
            let mut out = String::from_str("\"");
            let escaped = escape_quotes(s.as_str());
            out.append(escaped.as_str());
            out.append("\"");
            out
        },
        Value::Number(n) => n.to_text(),
        Value::Bool(b) => if *b {
            String::from_str("true")
        } else {
            String::from_str("false")
        },
        Value::Null => String::from_str("nil"),
        Value::List(items) => {
            proof {
                lemma_view_list(*items);
            }
            let parts = items_to_ruby(items);
            let mut out = String::from_str("[");
            let inner = join(&parts, ", ");
            out.append(inner.as_str());
            out.append("]");
            out
        },
        Value::Object(entries) => {
            proof {
                lemma_view_object(*entries);
            }
            let parts = pairs_to_ruby(entries);
            let mut out = String::from_str("{");
            let inner = join(&parts, ", ");
            out.append(inner.as_str());
            out.append("}");
            out
        },
    }
}

/// The Ruby texts of the values of the arguments of a call.
pub fn args_to_ruby(args: &Vec<(String, Expression)>) -> (r: Vec<String>)
    ensures
        texts_view(r@) == ruby_args(args_view(args@), args.len() as nat),
    decreases args,
{
    let ghost av = args_view(args@);
    let mut out: Vec<String> = Vec::new();
    let mut i: usize = 0;
    while i < args.len()
        invariant
            i <= args.len(),
            av == args_view(args@),
            texts_view(out@) == ruby_args(av, i as nat),
        decreases args.len() - i,
    {
        let ghost before = texts_view(out@);
        let text = expression_to_ruby(&args[i].1);
        out.push(text);
        proof {
            assert(ruby_args(av, (i + 1) as nat) == ruby_args(av, i as nat).push(
                ruby_expression(av[i as int].1),
            ));
            assert(texts_view(out@) =~= before.push(text@));
        }
        i += 1;
    }
    out
}

/// The Ruby text of an expression.
pub fn expression_to_ruby(expr: &Expression) -> (r: String)
    ensures
        r@ == ruby_expression(expr@),
    decreases expr,
{
    match expr {
        Expression::Value(v) => value_to_ruby(v),
        Expression::Variable { var } => var.clone(),
        Expression::BinaryOp { expr: operation } => {
            let left = expression_to_ruby(&operation.left);
            let right = expression_to_ruby(&operation.right);
            let mut out = String::from_str("(");
            out.append(left.as_str());
            out.append(" ");
            out.append(operation.op.as_str());
            out.append(" ");
            out.append(right.as_str());
            out.append(")");
            out
        },
        Expression::FunctionCall { call, args } => {
            proof {
                lemma_view_call(*call, *args);
            }
            let parts = args_to_ruby(args);
            let mut out = call.clone();
            out.append("(");
            let inner = join(&parts, ", ");
            out.append(inner.as_str());
            out.append(")");
            out
        },
    }
}

/// The Ruby texts of the operands of a conjunction or disjunction.
pub fn operands_to_ruby(operands: &Vec<Condition>) -> (r: Vec<String>)
    ensures
        texts_view(r@) == ruby_operands(conds_view(operands@), operands.len() as nat),
    decreases operands,
{
    let ghost cv = conds_view(operands@);
    let mut out: Vec<String> = Vec::new();
    let mut i: usize = 0;
    while i < operands.len()
        invariant
            i <= operands.len(),
            cv == conds_view(operands@),
            texts_view(out@) == ruby_operands(cv, i as nat),
        decreases operands.len() - i,
    {
        let ghost before = texts_view(out@);
        let text = condition_to_ruby(&operands[i]);
        out.push(text);
        proof {
            assert(ruby_operands(cv, (i + 1) as nat) == ruby_operands(cv, i as nat).push(
                ruby_condition(cv[i as int]),
            ));
            assert(texts_view(out@) =~= before.push(text@));
        }
        i += 1;
    }
    out
}

/// The Ruby text of a condition.
pub fn condition_to_ruby(condition: &Condition) -> (r: String)
    ensures
        r@ == ruby_condition(condition@),
    decreases condition,
{
    match condition {
        Condition::Comparison { op, left, right } => {
            let mut out = expression_to_ruby(left);
            out.append(" ");
            out.append(op.name());
            out.append(" ");
            let right = expression_to_ruby(right);
            out.append(right.as_str());
            out
        },
        Condition::And { operands } => {
            proof {
                lemma_view_operands(*operands);
            }
            if operands.len() == 0 {
                return String::from_str("true");
            }
            let parts = operands_to_ruby(operands);
            let mut out = String::from_str("(");
            let inner = join(&parts, " && ");
            out.append(inner.as_str());
            out.append(")");
            out
        },
        Condition::Or { operands } => {
            proof {
                lemma_view_operands(*operands);
            }
            if operands.len() == 0 {
                return String::from_str("false");
            }
            let parts = operands_to_ruby(operands);
            let mut out = String::from_str("(");
            let inner = join(&parts, " || ");
            out.append(inner.as_str());
            out.append(")");
            out
        },
        Condition::Not { operand } => {
            let inner: &Condition = &**operand;
            let text = condition_to_ruby(inner);
            let mut out = String::from_str("!(");
            out.append(text.as_str());
            out.append(")");
            out
        },
    }
}

/// Whether a text is one of the operators that a `Call` writes between its
/// operands.
pub open spec fn is_operator(name: Seq<char>) -> bool {
    name == "+"@ || name == "-"@ || name == "*"@ || name == "/"@ || name == "%"@ || name == "**"@
}

/// Whether `name` is an operator.
pub fn operator_named(name: &str) -> (r: bool)
    ensures
        r == is_operator(name@),
{
    str_equal(name, "+") || str_equal(name, "-") || str_equal(name, "*") || str_equal(name, "/")
        || str_equal(name, "%") || str_equal(name, "**")
}

/// The text of a register parameter: its name, or nothing where the
/// parameter is no text.
pub open spec fn register_name(v: JsonModel) -> Seq<char> {
    match v {
        JsonModel::String(s) => s,
        _ => Seq::empty(),
    }
}

/// The text of a register parameter.
pub fn register_of(v: &Value) -> (r: &str)
    ensures
        r@ == register_name(v@),
{
    proof {
        reveal_strlit("");
        assert(""@ =~= Seq::<char>::empty());
    }
    match v {
        Value::String(s) => s.as_str(),
        _ => "",
    }
}

/// The keys under which a `Call` looks for arguments by position, in order.
pub open spec fn standard_keys() -> Seq<Seq<char>> {
    seq!["a"@, "b"@, "c"@, "arg"@, "args"@, "n"@, "x"@, "y"@, "z"@]
}

/// The `i`-th of the keys under which a `Call` looks for arguments.
fn standard_key(i: usize) -> (r: &'static str)
    requires
        i < 9,
    ensures
        r@ == standard_keys()[i as int],
{
    if i == 0 {
        "a"
    } else if i == 1 {
        "b"
    } else if i == 2 {
        "c"
    } else if i == 3 {
        "arg"
    } else if i == 4 {
        "args"
    } else if i == 5 {
        "n"
    } else if i == 6 {
        "x"
    } else if i == 7 {
        "y"
    } else {
        "z"
    }
}

/// The Ruby literals of the parameters under the first `n` standard keys, as
/// far as there are such parameters.
pub open spec fn positional_args(params: Seq<(Seq<char>, JsonModel)>, n: nat) -> Seq<Seq<char>>
    decreases n,
{
    if n == 0 || n > standard_keys().len() {
        Seq::empty()
    } else {
        let front = positional_args(params, (n - 1) as nat);
        match lookup(params, standard_keys()[n - 1]) {
            Some(v) => front.push(ruby_value(v)),
            None => front,
        }
    }
}

/// Whether a parameter of a `Call` is no argument of the call.
pub open spec fn is_reserved(key: Seq<char>) -> bool {
    key == "lhs"@ || key == "rhs"@ || key == "receiver"@ || key == "out"@
}

/// The texts `key: value` of the first `n` parameters that are arguments.
pub open spec fn keyword_args(params: Seq<(Seq<char>, JsonModel)>, n: nat) -> Seq<Seq<char>>
    decreases n,
{
    if n == 0 || n > params.len() {
        Seq::empty()
    } else {
        let front = keyword_args(params, (n - 1) as nat);
        if is_reserved(params[n - 1].0) {
            front
        } else {
            front.push(params[n - 1].0 + ": "@ + ruby_value(params[n - 1].1))
        }
    }
}

/// The operation that a `Call` with both operands writes between them, in
/// parentheses, where its target is an operator.
pub open spec fn infix_call(a: ActionModel, indent: Seq<char>) -> Option<Seq<char>> {
    match a.params {
        None => None,
        Some(params) => match (lookup(params, "lhs_register"@), lookup(params, "rhs_register"@)) {
            (Some(l), Some(r)) => if is_operator(a.target) {
                Some(
                    indent + "("@ + register_name(l) + " "@ + a.target + " "@ + register_name(r)
                        + ")"@,
                )
            } else {
                None
            },
            _ => match (lookup(params, "lhs"@), lookup(params, "rhs"@)) {
                (Some(l), Some(r)) => if is_operator(a.target) {
                    Some(
                        indent + "("@ + ruby_value(l) + " "@ + a.target + " "@ + ruby_value(r)
                            + ")"@,
                    )
                } else {
                    None
                },
                _ => None,
            },
        },
    }
}

/// The arguments of a `Call` that is written as a method call: those under
/// the standard keys, or else every parameter that is an argument, by name.
pub open spec fn call_args(a: ActionModel) -> Seq<Seq<char>> {
    match a.params {
        None => Seq::empty(),
        Some(params) => {
            let positional = positional_args(params, standard_keys().len());
            if positional.len() == 0 {
                keyword_args(params, params.len())
            } else {
                positional
            }
        },
    }
}

/// `Call`: an operator between its operands, or a method call.
pub open spec fn call_text(a: ActionModel, indent: Seq<char>) -> Seq<char> {
    match infix_call(a, indent) {
        Some(text) => text,
        None => indent + a.target + "("@ + joined(call_args(a), ", "@) + ")"@,
    }
}

/// The failure of an action that lacks what its operation requires.
pub open spec fn malformed<T>(a: ActionModel) -> Result<T, ErrorModel> {
    Err(ErrorModel { kind: ErrorKind::MalformedAction, subject: action_label(a), action: None })
}

/// `Assign`: the target is assigned the literal of its `value`.
pub open spec fn assign_text(a: ActionModel, indent: Seq<char>) -> Result<Seq<char>, ErrorModel> {
    match param(a, "value"@) {
        Some(v) => Ok(indent + a.target + " = "@ + ruby_value(v)),
        None => malformed(a),
    }
}

/// The Ruby operator that a computed `Write` names; `*` for any other name.
pub open spec fn write_operator(name: Seq<char>) -> Seq<char> {
    if name == "multiply"@ {
        "*"@
    } else if name == "add"@ {
        "+"@
    } else if name == "subtract"@ {
        "-"@
    } else if name == "divide"@ {
        "/"@
    } else {
        "*"@
    }
}

/// An operand of a computed `Write`: the register that it names, else the
/// literal of its value.
pub open spec fn write_operand(a: ActionModel, register: Seq<char>, literal: Seq<char>) -> Option<
    Seq<char>,
> {
    match param(a, register) {
        Some(named) => Some(register_name(named)),
        None => match param(a, literal) {
            Some(v) => Some(ruby_value(v)),
            None => None,
        },
    }
}

/// `Write`: the target is assigned the operation on its operands, or the
/// literal of its `value`.
pub open spec fn write_text(a: ActionModel, indent: Seq<char>) -> Result<Seq<char>, ErrorModel> {
    match param(a, "operation"@) {
        Some(named) => match (
            write_operand(a, "lhs_register"@, "lhs"@),
            write_operand(a, "rhs_register"@, "rhs"@),
        ) {
            (Some(lhs), Some(rhs)) => Ok(
                indent + a.target + " = "@ + lhs + " "@ + write_operator(register_name(named))
                    + " "@ + rhs,
            ),
            _ => malformed(a),
        },
        None => match param(a, "value"@) {
            Some(v) => Ok(indent + a.target + " = "@ + ruby_value(v)),
            None => malformed(a),
        },
    }
}

/// `Create`: a new object of the class that the target names.
pub open spec fn create_text(a: ActionModel, indent: Seq<char>) -> Seq<char> {
    match a.params {
        Some(params) => indent + a.target + ".new("@ + joined(
            ruby_pairs(params, params.len()),
            ", "@,
        ) + ")"@,
        None => indent + a.target + ".new"@,
    }
}

/// `Emit`: `puts` of the content as an expression, else of the message, else
/// of the target as a variable.
pub open spec fn emit_text(a: ActionModel, indent: Seq<char>) -> Seq<char> {
    indent + "puts "@ + match param(a, "content"@) {
        Some(content) => ruby_expression(decode_expr(content)),
        None => match param(a, "message"@) {
            Some(message) => ruby_value(message),
            None => a.target,
        },
    }
}

/// `Assert`: a comment with the statement.
pub open spec fn assert_text(a: ActionModel, indent: Seq<char>) -> Seq<char> {
    indent + "# Assert: "@ + match param(a, "statement"@) {
        Some(v) => ruby_value(v),
        None => "\""@ + a.target + "\""@,
    }
}

/// The texts `target.key = value` of the first `n` parameters.
pub open spec fn fact_texts(
    target: Seq<char>,
    params: Seq<(Seq<char>, JsonModel)>,
    n: nat,
) -> Seq<Seq<char>>
    decreases n,
{
    if n == 0 || n > params.len() {
        Seq::empty()
    } else {
        fact_texts(target, params, (n - 1) as nat).push(
            target + "."@ + params[n - 1].0 + " = "@ + ruby_value(params[n - 1].1),
        )
    }
}

/// `StoreFact`: a comment with the facts.
pub open spec fn store_fact_text(a: ActionModel, indent: Seq<char>) -> Seq<char> {
    match a.params {
        Some(params) => indent + "# Store fact: "@ + joined(
            fact_texts(a.target, params, params.len()),
            ", "@,
        ),
        None => indent + "# Store fact about "@ + a.target,
    }
}

/// `Bind`: the target is assigned its `value` as an expression.
pub open spec fn bind_text(a: ActionModel, indent: Seq<char>) -> Result<Seq<char>, ErrorModel> {
    match param(a, "value"@) {
        Some(v) => Ok(indent + a.target + " = "@ + ruby_expression(decode_expr(v))),
        None => malformed(a),
    }
}

/// `Return`: `return` of the `value` as an expression, else of the target.
pub open spec fn return_text(a: ActionModel, indent: Seq<char>) -> Seq<char> {
    indent + "return "@ + match param(a, "value"@) {
        Some(v) => ruby_expression(decode_expr(v)),
        None => a.target,
    }
}

/// `Decide`: the head of an `if` on the literal of the `condition`.
pub open spec fn decide_text(a: ActionModel, indent: Seq<char>) -> Seq<char> {
    indent + "if "@ + match param(a, "condition"@) {
        Some(v) => ruby_value(v),
        None => "true"@,
    }
}

/// Binary64 pattern of 1.0.
pub const ONE_SECOND: u64 = 0x3FF0_0000_0000_0000;

/// The duration of a `Wait`: its own, else the number under `duration`, else
/// one second.
pub open spec fn wait_duration(a: ActionModel) -> u64 {
    match a.dur {
        Some(bits) => bits,
        None => match param(a, "duration"@) {
            Some(v) => match float_of(v) {
                Some(bits) => bits,
                None => ONE_SECOND,
            },
            None => ONE_SECOND,
        },
    }
}

/// `Wait`: `sleep` for the duration.
pub open spec fn wait_text(a: ActionModel, indent: Seq<char>) -> Seq<char> {
    indent + "sleep "@ + float::plain_display(wait_duration(a))
}

/// `GenRandomInt`: the target is assigned `rand` of the range from `min` (0
/// unless given) to `max` (9 unless given).
pub open spec fn random_text(a: ActionModel, indent: Seq<char>) -> Seq<char> {
    indent + a.target + " = rand("@ + signed_decimal(integer_or(a, "min"@, 0) as int) + ".."@
        + signed_decimal(integer_or(a, "max"@, 9) as int) + ")"@
}

/// An operation that has no Ruby text: a comment that says so.
pub open spec fn unsupported_text(a: ActionModel, indent: Seq<char>) -> Seq<char> {
    indent + "# Unsupported operation: "@ + operation_debug(a.op) + " on "@ + a.target
}

/// How the generator notes a variable that an action assigns, if it
/// assigns one.
pub open spec fn noted_as(a: ActionModel) -> Option<Seq<char>> {
    match a.op {
        OperationModel::Assign => Some("assigned"@),
        OperationModel::Bind => Some("bound"@),
        OperationModel::GenRandomInt => Some("random_int"@),
        _ => None,
    }
}

/// The Ruby text of an action that nests no other, at an indentation.
pub open spec fn leaf_text(a: ActionModel, indent: Seq<char>) -> Result<Seq<char>, ErrorModel> {
    match a.op {
        OperationModel::Call => Ok(call_text(a, indent)),
        OperationModel::Assign => assign_text(a, indent),
        OperationModel::Write => write_text(a, indent),
        OperationModel::Read => Ok(indent + a.target),
        OperationModel::Create => Ok(create_text(a, indent)),
        OperationModel::Emit => Ok(emit_text(a, indent)),
        OperationModel::Assert => Ok(assert_text(a, indent)),
        OperationModel::StoreFact => Ok(store_fact_text(a, indent)),
        OperationModel::Bind => bind_text(a, indent),
        OperationModel::Return => Ok(return_text(a, indent)),
        OperationModel::Decide => Ok(decide_text(a, indent)),
        OperationModel::Wait => Ok(wait_text(a, indent)),
        OperationModel::GenRandomInt => Ok(random_text(a, indent)),
        _ => Ok(unsupported_text(a, indent)),
    }
}

/// The variables that the generator has noted after a leaf action: one more
/// where the action assigns one and has a text.
pub open spec fn leaf_variables(
    a: ActionModel,
    indent: Seq<char>,
    variables: Map<Seq<char>, Seq<char>>,
) -> Map<Seq<char>, Seq<char>> {
    match (noted_as(a), leaf_text(a, indent)) {
        (Some(how), Ok(_)) => variables.insert(a.target, how),
        _ => variables,
    }
}

/// The depth of nesting below which the generator writes nested actions.
pub const MAX_NESTING: usize = 1000;

/// A generated text, or why there is none, and the variables that the
/// generator has noted, each with how it was assigned.
pub struct Compiled {
    pub result: Result<Seq<char>, ErrorModel>,
    pub variables: Map<Seq<char>, Seq<char>>,
}

/// The indentation of a level of nesting: two spaces for each level.
pub open spec fn indentation(level: nat) -> Seq<char> {
    repeated("  "@, level)
}

/// The generated line of a text: the text and a line break, or nothing for
/// an empty text.
pub open spec fn line_of(code: Seq<char>) -> Seq<char> {
    if code.len() == 0 {
        code
    } else {
        code + "\n"@
    }
}

/// The lines of the first `n` actions of a sequence, at a level of nesting.
/// The first action that has no text ends the sequence with its error.
pub open spec fn ruby_lines(
    actions: Seq<ActionModel>,
    n: nat,
    level: nat,
    variables: Map<Seq<char>, Seq<char>>,
) -> Compiled
    decreases MAX_NESTING - level, 3nat, n,
{
    if n == 0 || n > actions.len() {
        Compiled { result: Ok(Seq::empty()), variables }
    } else {
        let front = ruby_lines(actions, (n - 1) as nat, level, variables);
        match front.result {
            Err(_) => front,
            Ok(lines) => {
                let last = ruby_action(actions[n - 1], level, front.variables);
                match last.result {
                    Err(_) => last,
                    Ok(code) => Compiled {
                        result: Ok(lines + line_of(code)),
                        variables: last.variables,
                    },
                }
            },
        }
    }
}

/// The lines of an optional sequence, one level further in.
pub open spec fn nested_lines(
    actions: Option<Seq<ActionModel>>,
    level: nat,
    variables: Map<Seq<char>, Seq<char>>,
) -> Compiled
    decreases MAX_NESTING - level, 0nat, 0nat,
{
    match actions {
        Some(actions) => if level < MAX_NESTING {
            ruby_lines(actions, actions.len(), level + 1, variables)
        } else {
            Compiled { result: Ok(Seq::empty()), variables }
        },
        None => Compiled { result: Ok(Seq::empty()), variables },
    }
}

/// The names of the parameters and the body of the function that a
/// `DefineFunction` defines.
pub open spec fn definition(a: ActionModel) -> Option<(Seq<Seq<char>>, Seq<ActionModel>)> {
    match (param(a, "args"@), param(a, "body"@)) {
        (Some(JsonModel::List(names)), Some(JsonModel::List(items))) => match decode_actions(
            items,
            items.len(),
        ) {
            Some(body) => Some((texts_among(names, names.len()), body)),
            None => None,
        },
        _ => None,
    }
}

/// The failure of an action for the reason `kind`.
pub open spec fn failed(
    a: ActionModel,
    kind: ErrorKind,
    variables: Map<Seq<char>, Seq<char>>,
) -> Compiled {
    Compiled { result: Err(ErrorModel { kind, subject: action_label(a), action: None }), variables }
}

/// `If`: the condition, the lines of the branch taken when it holds, the
/// lines of the other branch behind `else` where there is one, and `end`.
pub open spec fn if_text(a: ActionModel, level: nat, variables: Map<Seq<char>, Seq<char>>) -> Compiled
    decreases MAX_NESTING - level, 1nat, 0nat,
{
    let indent = indentation(level);
    match a.condition {
        None => failed(a, ErrorKind::MalformedAction, variables),
        Some(c) => if level >= MAX_NESTING {
            failed(a, ErrorKind::RecursionLimitExceeded, variables)
        } else {
            let head = indent + "if "@ + ruby_condition(c) + "\n"@;
            let then = nested_lines(a.then_actions, level, variables);
            match then.result {
                Err(_) => then,
                Ok(then_lines) => match a.else_actions {
                    None => Compiled {
                        result: Ok(head + then_lines + indent + "end"@),
                        variables: then.variables,
                    },
                    Some(_) => {
                        let other = nested_lines(a.else_actions, level, then.variables);
                        match other.result {
                            Err(_) => other,
                            Ok(else_lines) => Compiled {
                                result: Ok(
                                    head + then_lines + indent + "else\n"@ + else_lines + indent
                                        + "end"@,
                                ),
                                variables: other.variables,
                            },
                        }
                    },
                },
            }
        },
    }
}

/// `While`: the condition, the lines of the body, and `end`.
pub open spec fn while_text(
    a: ActionModel,
    level: nat,
    variables: Map<Seq<char>, Seq<char>>,
) -> Compiled
    decreases MAX_NESTING - level, 1nat, 0nat,
{
    let indent = indentation(level);
    match a.condition {
        None => failed(a, ErrorKind::MalformedAction, variables),
        Some(c) => if level >= MAX_NESTING {
            failed(a, ErrorKind::RecursionLimitExceeded, variables)
        } else {
            let body = nested_lines(a.body_actions, level, variables);
            match body.result {
                Err(_) => body,
                Ok(lines) => Compiled {
                    result: Ok(
                        indent + "while "@ + ruby_condition(c) + "\n"@ + lines + indent + "end"@,
                    ),
                    variables: body.variables,
                },
            }
        },
    }
}

/// `For`: `each` over the range of the two bounds with the loop variable,
/// the lines of the body, and `end`.
pub open spec fn for_text(a: ActionModel, level: nat, variables: Map<Seq<char>, Seq<char>>) -> Compiled
    decreases MAX_NESTING - level, 1nat, 0nat,
{
    let indent = indentation(level);
    match (a.loop_var, a.from_expr, a.to_expr) {
        (Some(name), Some(from), Some(to)) => if level >= MAX_NESTING {
            failed(a, ErrorKind::RecursionLimitExceeded, variables)
        } else {
            let body = nested_lines(a.body_actions, level, variables);
            match body.result {
                Err(_) => body,
                Ok(lines) => Compiled {
                    result: Ok(
                        indent + "("@ + ruby_expression(from) + " .. "@ + ruby_expression(to)
                            + ").each do |"@ + name + "|\n"@ + lines + indent + "end"@,
                    ),
                    variables: body.variables,
                },
            }
        },
        _ => failed(a, ErrorKind::MalformedAction, variables),
    }
}

/// `DefineFunction`: `def` with the name and the parameters, the lines of
/// the body, and `end`.
pub open spec fn define_text(
    a: ActionModel,
    level: nat,
    variables: Map<Seq<char>, Seq<char>>,
) -> Compiled
    decreases MAX_NESTING - level, 1nat, 0nat,
{
    let indent = indentation(level);
    match definition(a) {
        None => failed(a, ErrorKind::MalformedAction, variables),
        Some((names, actions)) => if level >= MAX_NESTING {
            failed(a, ErrorKind::RecursionLimitExceeded, variables)
        } else {
            let body = nested_lines(Some(actions), level, variables);
            match body.result {
                Err(_) => body,
                Ok(lines) => Compiled {
                    result: Ok(
                        indent + "def "@ + a.target + "("@ + joined(names, ", "@) + ")\n"@ + lines
                            + indent + "end"@,
                    ),
                    variables: body.variables,
                },
            }
        },
    }
}

/// The Ruby text of an action at a level of nesting, and the variables
/// noted after it.
///
/// `If`, `While`, `For` and `DefineFunction` are written with their nested
/// sequences one level further in and closed by `end`; each needs the fields
/// that its operation requires, and a level below [`MAX_NESTING`]. Every
/// other action is one line.
pub open spec fn ruby_action(
    a: ActionModel,
    level: nat,
    variables: Map<Seq<char>, Seq<char>>,
) -> Compiled
    decreases MAX_NESTING - level, 2nat, 0nat,
{
    match a.op {
        OperationModel::If => if_text(a, level, variables),
        OperationModel::While => while_text(a, level, variables),
        OperationModel::For => for_text(a, level, variables),
        OperationModel::DefineFunction => define_text(a, level, variables),
        _ => Compiled {
            result: leaf_text(a, indentation(level)),
            variables: leaf_variables(a, indentation(level), variables),
        },
    }
}

/// The first lines of every program that the generator writes.
pub open spec fn header() -> Seq<char> {
    "# Generated from UCL\n"@ + "# Universal Causal Language -> Ruby Compiler\n\n"@
}

/// The Ruby text of a program: the header and the lines of its actions.
pub open spec fn ruby_program(
    actions: Seq<ActionModel>,
    level: nat,
    variables: Map<Seq<char>, Seq<char>>,
) -> Compiled {
    let lines = ruby_lines(actions, actions.len(), level, variables);
    match lines.result {
        Err(_) => lines,
        Ok(text) => Compiled { result: Ok(header() + text), variables: lines.variables },
    }
}

/// The view of the result of generating a text.
pub open spec fn text_view(r: Result<String, ExecError>) -> Result<Seq<char>, ErrorModel> {
    match r {
        Ok(text) => Ok(text@),
        Err(e) => Err(e@),
    }
}

/// The failure of an action that lacks what its operation requires.
pub fn malformed_action<T>(action: &Action) -> (r: Result<T, ExecError>)
    ensures
        r is Err,
        r->Err_0@ == (ErrorModel {
            kind: ErrorKind::MalformedAction,
            subject: action_label(action@),
            action: None,
        }),
{
    Err(ExecError::about(ErrorKind::MalformedAction, action.label()))
}

/// The arguments of a `Call` that is written as a method call.
pub fn arguments_of_call(action: &Action) -> (r: Vec<String>)
    ensures
        texts_view(r@) == call_args(action@),
{
    let mut args: Vec<String> = Vec::new();
    assert(texts_view(args@) =~= Seq::empty());
    let params = match &action.params {
        Some(params) => params,
        None => {
            return args;
        },
    };
    let ghost pv = entries_view(params@);
    let mut i: usize = 0;
    while i < 9
        invariant
            i <= 9,
            pv == entries_view(params@),
            standard_keys().len() == 9,
            texts_view(args@) == positional_args(pv, i as nat),
        decreases 9 - i,
    {
        match get_entry(params, standard_key(i)) {
            Some(v) => {
                push_text(&mut args, value_to_ruby(v));
            },
            None => {},
        }
        i += 1;
    }
    if args.len() == 0 {
        let mut j: usize = 0;
        while j < params.len()
            invariant
                j <= params.len(),
                pv == entries_view(params@),
                texts_view(args@) == keyword_args(pv, j as nat),
            decreases params.len() - j,
        {
            let key = params[j].0.as_str();
            if !(str_equal(key, "lhs") || str_equal(key, "rhs") || str_equal(key, "receiver")
                || str_equal(key, "out")) {
                let mut text = String::from_str(key);
                text.append(": ");
                let literal = value_to_ruby(&params[j].1);
                text.append(literal.as_str());
                push_text(&mut args, text);
            }
            j += 1;
        }
    }
    args
}

/// `Call`: an operator between its operands, or a method call.
pub fn compile_call(action: &Action, indent: &str) -> (r: String)
    ensures
        r@ == call_text(action@, indent@),
{
    match &action.params {
        Some(params) => {
            let registers = (get_entry(params, "lhs_register"), get_entry(params, "rhs_register"));
            match registers {
                (Some(l), Some(r)) => {
                    if operator_named(action.target.as_str()) {
                        let mut out = String::from_str(indent);
                        out.append("(");
                        out.append(register_of(l));
                        out.append(" ");
                        out.append(action.target.as_str());
                        out.append(" ");
                        out.append(register_of(r));
                        out.append(")");
                        return out;
                    }
                },
                _ => {
                    match (get_entry(params, "lhs"), get_entry(params, "rhs")) {
                        (Some(l), Some(r)) => {
                            if operator_named(action.target.as_str()) {
                                let mut out = String::from_str(indent);
                                out.append("(");
                                let left = value_to_ruby(l);
                                out.append(left.as_str());
                                out.append(" ");
                                out.append(action.target.as_str());
                                out.append(" ");
                                let right = value_to_ruby(r);
                                out.append(right.as_str());
                                out.append(")");
                                return out;
                            }
                        },
                        _ => {},
                    }
                },
            }
        },
        None => {},
    }
    let args = arguments_of_call(action);
    let mut out = String::from_str(indent);
    out.append(action.target.as_str());
    out.append("(");
    let inner = join(&args, ", ");
    out.append(inner.as_str());
    out.append(")");
    out
}

/// `Assign`: the target is assigned the literal of its `value`.
pub fn compile_assign(action: &Action, indent: &str) -> (r: Result<String, ExecError>)
    ensures
        text_view(r) == assign_text(action@, indent@),
{
    match get_param(action, "value") {
        Some(v) => {
            let mut out = String::from_str(indent);
            out.append(action.target.as_str());
            out.append(" = ");
            let literal = value_to_ruby(v);
            out.append(literal.as_str());
            Ok(out)
        },
        None => malformed_action(action),
    }
}

/// The Ruby operator that a computed `Write` names.
pub fn operator_of_write(name: &str) -> (r: &'static str)
    ensures
        r@ == write_operator(name@),
{
    if str_equal(name, "multiply") {
        "*"
    } else if str_equal(name, "add") {
        "+"
    } else if str_equal(name, "subtract") {
        "-"
    } else if str_equal(name, "divide") {
        "/"
    } else {
        "*"
    }
}

/// An operand of a computed `Write`.
pub fn operand_of_write(action: &Action, register: &str, literal: &str) -> (r: Option<String>)
    ensures
        match r {
            Some(text) => write_operand(action@, register@, literal@) == Some(text@),
            None => write_operand(action@, register@, literal@) is None,
        },
{
    match get_param(action, register) {
        Some(named) => Some(String::from_str(register_of(named))),
        None => match get_param(action, literal) {
            Some(v) => Some(value_to_ruby(v)),
            None => None,
        },
    }
}

/// `Write`: the target is assigned the operation on its operands, or the
/// literal of its `value`.
pub fn compile_write(action: &Action, indent: &str) -> (r: Result<String, ExecError>)
    ensures
        text_view(r) == write_text(action@, indent@),
{
    match get_param(action, "operation") {
        Some(named) => {
            let lhs = operand_of_write(action, "lhs_register", "lhs");
            let rhs = operand_of_write(action, "rhs_register", "rhs");
            match (lhs, rhs) {
                (Some(lhs), Some(rhs)) => {
                    let mut out = String::from_str(indent);
                    out.append(action.target.as_str());
                    out.append(" = ");
                    out.append(lhs.as_str());
                    out.append(" ");
                    out.append(operator_of_write(register_of(named)));
                    out.append(" ");
                    out.append(rhs.as_str());
                    Ok(out)
                },
                _ => malformed_action(action),
            }
        },
        None => match get_param(action, "value") {
            Some(v) => {
                let mut out = String::from_str(indent);
                out.append(action.target.as_str());
                out.append(" = ");
                let literal = value_to_ruby(v);
                out.append(literal.as_str());
                Ok(out)
            },
            None => malformed_action(action),
        },
    }
}

/// `Read`: the target as a variable.
pub fn compile_read(action: &Action, indent: &str) -> (r: String)
    ensures
        r@ == indent@ + action@.target,
{
    let mut out = String::from_str(indent);
    out.append(action.target.as_str());
    out
}

/// `Create`: a new object of the class that the target names.
pub fn compile_create(action: &Action, indent: &str) -> (r: String)
    ensures
        r@ == create_text(action@, indent@),
{
    let mut out = String::from_str(indent);
    out.append(action.target.as_str());
    match &action.params {
        Some(params) => {
            out.append(".new(");
            let args = pairs_to_ruby(params);
            let inner = join(&args, ", ");
            out.append(inner.as_str());
            out.append(")");
        },
        None => {
            out.append(".new");
        },
    }
    out
}

/// `Emit`: `puts` of what is emitted.
pub fn compile_emit(action: &Action, indent: &str) -> (r: String)
    ensures
        r@ == emit_text(action@, indent@),
{
    let message = match get_param(action, "content") {
        Some(content) => expression_to_ruby(&Expression::from_value(content)),
        None => match get_param(action, "message") {
            Some(message) => value_to_ruby(message),
            None => action.target.clone(),
        },
    };
    let mut out = String::from_str(indent);
    out.append("puts ");
    out.append(message.as_str());
    assert(out@ =~= emit_text(action@, indent@));
    out
}

/// `Assert`: a comment with the statement.
pub fn compile_assert(action: &Action, indent: &str) -> (r: String)
    ensures
        r@ == assert_text(action@, indent@),
{
    let statement = match get_param(action, "statement") {
        Some(v) => value_to_ruby(v),
        None => {
            let mut quoted = String::from_str("\"");
            quoted.append(action.target.as_str());
            quoted.append("\"");
            quoted
        },
    };
    let mut out = String::from_str(indent);
    out.append("# Assert: ");
    out.append(statement.as_str());
    assert(out@ =~= assert_text(action@, indent@));
    out
}

/// `StoreFact`: a comment with the facts.
pub fn compile_store_fact(action: &Action, indent: &str) -> (r: String)
    ensures
        r@ == store_fact_text(action@, indent@),
{
    let mut out = String::from_str(indent);
    match &action.params {
        Some(params) => {
            let ghost pv = entries_view(params@);
            let mut facts: Vec<String> = Vec::new();
            assert(texts_view(facts@) =~= Seq::empty());
            let mut i: usize = 0;
            while i < params.len()
                invariant
                    i <= params.len(),
                    pv == entries_view(params@),
                    texts_view(facts@) == fact_texts(action@.target, pv, i as nat),
                decreases params.len() - i,
            {
                let mut fact = action.target.clone();
                fact.append(".");
                fact.append(params[i].0.as_str());
                fact.append(" = ");
                let literal = value_to_ruby(&params[i].1);
                fact.append(literal.as_str());
                push_text(&mut facts, fact);
                i += 1;
            }
            out.append("# Store fact: ");
            let inner = join(&facts, ", ");
            out.append(inner.as_str());
        },
        None => {
            out.append("# Store fact about ");
            out.append(action.target.as_str());
        },
    }
    out
}

/// `Bind`: the target is assigned its `value` as an expression.
pub fn compile_bind(action: &Action, indent: &str) -> (r: Result<String, ExecError>)
    ensures
        text_view(r) == bind_text(action@, indent@),
{
    match get_param(action, "value") {
        Some(v) => {
            let mut out = String::from_str(indent);
            out.append(action.target.as_str());
            out.append(" = ");
            let value = expression_to_ruby(&Expression::from_value(v));
            out.append(value.as_str());
            Ok(out)
        },
        None => malformed_action(action),
    }
}

/// `Return`: `return` of what is returned.
pub fn compile_return(action: &Action, indent: &str) -> (r: String)
    ensures
        r@ == return_text(action@, indent@),
{
    let value = match get_param(action, "value") {
        Some(v) => expression_to_ruby(&Expression::from_value(v)),
        None => action.target.clone(),
    };
    let mut out = String::from_str(indent);
    out.append("return ");
    out.append(value.as_str());
    assert(out@ =~= return_text(action@, indent@));
    out
}

/// `Decide`: the head of an `if`.
pub fn compile_decide(action: &Action, indent: &str) -> (r: String)
    ensures
        r@ == decide_text(action@, indent@),
{
    let condition = match get_param(action, "condition") {
        Some(v) => value_to_ruby(v),
        None => String::from_str("true"),
    };
    let mut out = String::from_str(indent);
    out.append("if ");
    out.append(condition.as_str());
    assert(out@ =~= decide_text(action@, indent@));
    out
}

/// `Wait`: `sleep` for the duration.
pub fn compile_wait(action: &Action, indent: &str) -> (r: String)
    ensures
        r@ == wait_text(action@, indent@),
{
    let duration = match action.dur {
        Some(bits) => bits,
        None => match get_param(action, "duration") {
            Some(v) => match v.as_float() {
                Some(bits) => bits,
                None => ONE_SECOND,
            },
            None => ONE_SECOND,
        },
    };
    let mut out = String::from_str(indent);
    out.append("sleep ");
    let seconds = float::plain_text(duration);
    out.append(seconds.as_str());
    out
}

/// `GenRandomInt`: the target is assigned `rand` of a range.
pub fn compile_gen_random_int(action: &Action, indent: &str) -> (r: String)
    ensures
        r@ == random_text(action@, indent@),
{
    let min = get_integer_or(action, "min", 0);
    let max = get_integer_or(action, "max", 9);
    let mut out = String::from_str(indent);
    out.append(action.target.as_str());
    out.append(" = rand(");
    let low = i64_text(min);
    out.append(low.as_str());
    out.append("..");
    let high = i64_text(max);
    out.append(high.as_str());
    out.append(")");
    out
}

/// An operation that has no Ruby text: a comment that says so.
pub fn compile_unsupported(action: &Action, indent: &str) -> (r: String)
    ensures
        r@ == unsupported_text(action@, indent@),
{
    let mut out = String::from_str(indent);
    out.append("# Unsupported operation: ");
    let name = action.op.debug_text();
    out.append(name.as_str());
    out.append(" on ");
    out.append(action.target.as_str());
    out
}

/// The Ruby text of an action that nests no other, and the note of the
/// variable that it assigns.
pub fn compile_leaf(action: &Action, indent: &str, variables: &mut Table<String>) -> (r: Result<
    String,
    ExecError,
>)
    ensures
        text_view(r) == leaf_text(action@, indent@),
        final(variables)@ == leaf_variables(action@, indent@, old(variables)@),
{
    match &action.op {
        Operation::Call => Ok(compile_call(action, indent)),
        Operation::Assign => {
            let r = compile_assign(action, indent);
            if r.is_ok() {
                variables.insert(action.target.clone(), String::from_str("assigned"));
            }
            r
        },
        Operation::Write => compile_write(action, indent),
        Operation::Read => Ok(compile_read(action, indent)),
        Operation::Create => Ok(compile_create(action, indent)),
        Operation::Emit => Ok(compile_emit(action, indent)),
        Operation::Assert => Ok(compile_assert(action, indent)),
        Operation::StoreFact => Ok(compile_store_fact(action, indent)),
        Operation::Bind => {
            let r = compile_bind(action, indent);
            if r.is_ok() {
                variables.insert(action.target.clone(), String::from_str("bound"));
            }
            r
        },
        Operation::Return => Ok(compile_return(action, indent)),
        Operation::Decide => Ok(compile_decide(action, indent)),
        Operation::Wait => Ok(compile_wait(action, indent)),
        Operation::GenRandomInt => {
            variables.insert(action.target.clone(), String::from_str("random_int"));
            Ok(compile_gen_random_int(action, indent))
        },
        _ => Ok(compile_unsupported(action, indent)),
    }
}

/// What was generated: a result and the variables noted.
pub open spec fn compiled(r: Result<String, ExecError>, variables: Table<String>) -> Compiled {
    Compiled { result: text_view(r), variables: variables@ }
}

/// Once an action has no text, no longer sequence has lines.
proof fn lemma_lines_fail(
    actions: Seq<ActionModel>,
    i: nat,
    n: nat,
    level: nat,
    variables: Map<Seq<char>, Seq<char>>,
)
    requires
        i <= n <= actions.len(),
        ruby_lines(actions, i, level, variables).result is Err,
    ensures
        ruby_lines(actions, n, level, variables) == ruby_lines(actions, i, level, variables),
    decreases n,
{
    if n > i {
        lemma_lines_fail(actions, i, (n - 1) as nat, level, variables);
    }
}

/// The lines of a sequence of actions at a level of nesting.
pub fn compile_lines(actions: &Vec<Action>, level: usize, variables: &mut Table<String>) -> (r:
    Result<String, ExecError>)
    ensures
        compiled(r, *final(variables)) == ruby_lines(
            actions_view(actions@),
            actions.len() as nat,
            level as nat,
            old(variables)@,
        ),
    decreases MAX_NESTING - level, 3nat, actions.len(),
{
    let ghost av = actions_view(actions@);
    let ghost start = variables@;
    let mut out = String::new();
    let mut i: usize = 0;
    while i < actions.len()
        invariant
            i <= actions.len(),
            av == actions_view(actions@),
            start == old(variables)@,
            ruby_lines(av, i as nat, level as nat, start) == (Compiled {
                result: Ok(out@),
                variables: variables@,
            }),
        decreases actions.len() - i,
    {
        let ghost before = out@;
        proof {
            assert(ruby_lines(av, (i + 1) as nat, level as nat, start) == {
                let front = ruby_lines(av, i as nat, level as nat, start);
                let last = ruby_action(av[i as int], level as nat, front.variables);
                match last.result {
                    Err(_) => last,
                    Ok(code) => Compiled {
                        result: Ok(front.result->Ok_0 + line_of(code)),
                        variables: last.variables,
                    },
                }
            });
        }
        match compile_action(&actions[i], level, variables) {
            Ok(code) => {
                if code.as_str().unicode_len() > 0 {
                    out.append(code.as_str());
                    out.append("\n");
                    assert(out@ =~= before + line_of(code@));
                } else {
                    assert(out@ =~= before + line_of(code@));
                }
            },
            Err(e) => {
                proof {
                    lemma_lines_fail(
                        av,
                        (i + 1) as nat,
                        actions.len() as nat,
                        level as nat,
                        start,
                    );
                }
                return Err(e);
            },
        }
        i += 1;
    }
    Ok(out)
}

/// The lines of an optional sequence, one level further in.
pub fn compile_nested(
    actions: &Option<Vec<Action>>,
    level: usize,
    variables: &mut Table<String>,
) -> (r: Result<String, ExecError>)
    ensures
        compiled(r, *final(variables)) == nested_lines(
            crate::ast::block_view(*actions),
            level as nat,
            old(variables)@,
        ),
    decreases MAX_NESTING - level, 0nat, 0nat,
{
    match actions {
        Some(actions) => if level < MAX_NESTING {
            compile_lines(actions, level + 1, variables)
        } else {
            Ok(String::new())
        },
        None => Ok(String::new()),
    }
}

/// The failure of an action for the reason `kind`.
pub fn fail<T>(action: &Action, kind: ErrorKind) -> (r: Result<T, ExecError>)
    ensures
        r is Err,
        r->Err_0@ == (ErrorModel { kind, subject: action_label(action@), action: None }),
{
    Err(ExecError::about(kind, action.label()))
}

/// `If` at a level of nesting.
pub fn compile_if(action: &Action, level: usize, variables: &mut Table<String>) -> (r: Result<
    String,
    ExecError,
>)
    ensures
        compiled(r, *final(variables)) == if_text(action@, level as nat, old(variables)@),
    decreases MAX_NESTING - level, 1nat, 0nat,
{
    proof {
        lemma_view_action(*action);
    }
    let condition = match &action.condition {
        Some(c) => c,
        None => {
            return fail(action, ErrorKind::MalformedAction);
        },
    };
    if level >= MAX_NESTING {
        return fail(action, ErrorKind::RecursionLimitExceeded);
    }
    let indent = repeat("  ", level);
    let mut out = indent.clone();
    out.append("if ");
    let test = condition_to_ruby(condition);
    out.append(test.as_str());
    out.append("\n");
    match compile_nested(&action.then_actions, level, variables) {
        Ok(lines) => {
            out.append(lines.as_str());
        },
        Err(e) => {
            return Err(e);
        },
    }
    if action.else_actions.is_some() {
        out.append(indent.as_str());
        out.append("else\n");
        match compile_nested(&action.else_actions, level, variables) {
            Ok(lines) => {
                out.append(lines.as_str());
            },
            Err(e) => {
                return Err(e);
            },
        }
    }
    out.append(indent.as_str());
    out.append("end");
    Ok(out)
}

/// `While` at a level of nesting.
pub fn compile_while(action: &Action, level: usize, variables: &mut Table<String>) -> (r: Result<
    String,
    ExecError,
>)
    ensures
        compiled(r, *final(variables)) == while_text(action@, level as nat, old(variables)@),
    decreases MAX_NESTING - level, 1nat, 0nat,
{
    proof {
        lemma_view_action(*action);
    }
    let condition = match &action.condition {
        Some(c) => c,
        None => {
            return fail(action, ErrorKind::MalformedAction);
        },
    };
    if level >= MAX_NESTING {
        return fail(action, ErrorKind::RecursionLimitExceeded);
    }
    let indent = repeat("  ", level);
    let mut out = indent.clone();
    out.append("while ");
    let test = condition_to_ruby(condition);
    out.append(test.as_str());
    out.append("\n");
    match compile_nested(&action.body_actions, level, variables) {
        Ok(lines) => {
            out.append(lines.as_str());
        },
        Err(e) => {
            return Err(e);
        },
    }
    out.append(indent.as_str());
    out.append("end");
    Ok(out)
}

/// `For` at a level of nesting.
pub fn compile_for(action: &Action, level: usize, variables: &mut Table<String>) -> (r: Result<
    String,
    ExecError,
>)
    ensures
        compiled(r, *final(variables)) == for_text(action@, level as nat, old(variables)@),
    decreases MAX_NESTING - level, 1nat, 0nat,
{
    proof {
        lemma_view_action(*action);
    }
    let (name, from, to) = match (&action.loop_var, &action.from_expr, &action.to_expr) {
        (Some(name), Some(from), Some(to)) => (name, from, to),
        _ => {
            return fail(action, ErrorKind::MalformedAction);
        },
    };
    if level >= MAX_NESTING {
        return fail(action, ErrorKind::RecursionLimitExceeded);
    }
    let indent = repeat("  ", level);
    let mut out = indent.clone();
    out.append("(");
    let first = expression_to_ruby(from);
    out.append(first.as_str());
    out.append(" .. ");
    let last = expression_to_ruby(to);
    out.append(last.as_str());
    out.append(").each do |");
    out.append(name.as_str());
    out.append("|\n");
    match compile_nested(&action.body_actions, level, variables) {
        Ok(lines) => {
            out.append(lines.as_str());
        },
        Err(e) => {
            return Err(e);
        },
    }
    out.append(indent.as_str());
    out.append("end");
    Ok(out)
}

/// The names of the parameters and the body of the function that a
/// `DefineFunction` defines.
pub fn definition_of(action: &Action) -> (r: Option<(Vec<String>, Vec<Action>)>)
    ensures
        match r {
            Some((names, body)) => definition(action@) == Some(
                (texts_view(names@), actions_view(body@)),
            ),
            None => definition(action@) is None,
        },
{
    let names = match get_param(action, "args") {
        Some(Value::List(names)) => names,
        _ => {
            return None;
        },
    };
    let items = match get_param(action, "body") {
        Some(Value::List(items)) => items,
        _ => {
            return None;
        },
    };
    proof {
        lemma_view_list(*names);
        lemma_view_list(*items);
    }
    match actions_from_items(items) {
        Some(body) => Some((crate::interp::texts_from_items(names), body)),
        None => None,
    }
}

/// `DefineFunction` at a level of nesting.
pub fn compile_define_function(
    action: &Action,
    level: usize,
    variables: &mut Table<String>,
) -> (r: Result<String, ExecError>)
    ensures
        compiled(r, *final(variables)) == define_text(action@, level as nat, old(variables)@),
    decreases MAX_NESTING - level, 1nat, 0nat,
{
    let (names, body) = match definition_of(action) {
        Some(parts) => parts,
        None => {
            return fail(action, ErrorKind::MalformedAction);
        },
    };
    if level >= MAX_NESTING {
        return fail(action, ErrorKind::RecursionLimitExceeded);
    }
    let indent = repeat("  ", level);
    let mut out = indent.clone();
    out.append("def ");
    out.append(action.target.as_str());
    out.append("(");
    let listed = join(&names, ", ");
    out.append(listed.as_str());
    out.append(")\n");
    let nested = Some(body);
    match compile_nested(&nested, level, variables) {
        Ok(lines) => {
            out.append(lines.as_str());
        },
        Err(e) => {
            return Err(e);
        },
    }
    out.append(indent.as_str());
    out.append("end");
    Ok(out)
}

/// The Ruby text of an action at a level of nesting.
pub fn compile_action(action: &Action, level: usize, variables: &mut Table<String>) -> (r: Result<
    String,
    ExecError,
>)
    ensures
        compiled(r, *final(variables)) == ruby_action(action@, level as nat, old(variables)@),
    decreases MAX_NESTING - level, 2nat, 0nat,
{
    match &action.op {
        Operation::If => compile_if(action, level, variables),
        Operation::While => compile_while(action, level, variables),
        Operation::For => compile_for(action, level, variables),
        Operation::DefineFunction => compile_define_function(action, level, variables),
        _ => {
            let indent = repeat("  ", level);
            compile_leaf(action, indent.as_str(), variables)
        },
    }
}

/// A generator of Ruby source text. It keeps the level of nesting at which
/// it writes, and the variables that the program has assigned so far, each
/// with how it was assigned.
pub struct RubyCompiler {
    pub indent_level: usize,
    pub variables: Table<String>,
}

impl RubyCompiler {
    /// A generator at level 0 that has noted no variable.
    pub fn new() -> (r: RubyCompiler)
        ensures
            r.indent_level == 0,
            r.variables@ == Map::<Seq<char>, Seq<char>>::empty(),
    {
        RubyCompiler { indent_level: 0, variables: Table::new() }
    }

    /// The Ruby text of a program: a header and the lines of its actions.
    pub fn compile(&mut self, program: &Program) -> (r: Result<String, ExecError>)
        ensures
            compiled(r, final(self).variables) == ruby_program(
                program@.actions,
                old(self).indent_level as nat,
                old(self).variables@,
            ),
            final(self).indent_level == old(self).indent_level,
    {
        match compile_lines(&program.actions, self.indent_level, &mut self.variables) {
            Ok(lines) => {
                let mut out = String::from_str("# Generated from UCL\n");
                out.append("# Universal Causal Language -> Ruby Compiler\n\n");
                out.append(lines.as_str());
                Ok(out)
            },
            Err(e) => Err(e),
        }
    }

    /// The Ruby text of an action at the generator's level of nesting.
    pub fn compile_action(&mut self, action: &Action) -> (r: Result<String, ExecError>)
        ensures
            compiled(r, final(self).variables) == ruby_action(
                action@,
                old(self).indent_level as nat,
                old(self).variables@,
            ),
            final(self).indent_level == old(self).indent_level,
    {
        compile_action(action, self.indent_level, &mut self.variables)
    }

    /// The Ruby text of a condition.
    pub fn compile_condition(&self, condition: &Condition) -> (r: Result<String, ExecError>)
        ensures
            text_view(r) == Ok::<Seq<char>, ErrorModel>(ruby_condition(condition@)),
    {
        Ok(condition_to_ruby(condition))
    }

    /// The Ruby text of an expression.
    pub fn compile_expression(&self, expr: &Expression) -> (r: Result<String, ExecError>)
        ensures
            text_view(r) == Ok::<Seq<char>, ErrorModel>(ruby_expression(expr@)),
    {
        Ok(expression_to_ruby(expr))
    }

    /// The Ruby literal of a value.
    pub fn value_to_ruby(&self, value: &Value) -> (r: String)
        ensures
            r@ == ruby_value(value@),
    {
        value_to_ruby(value)
    }
}

impl Default for RubyCompiler {
    fn default() -> (r: RubyCompiler)
        ensures
            r.indent_level == 0,
            r.variables@ == Map::<Seq<char>, Seq<char>>::empty(),
    {
        RubyCompiler::new()
    }
}

} // verus!
