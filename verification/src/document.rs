//! The document form of programs: how actions, conditions and expressions are
//! written as values, and how they are read back.
//!
//! An action is an object with the keys `actor`, `op` and `target`, and
//! optionally `t`, `dur`, `params`, `pre`, `post`, `effects`, `condition`,
//! `then`, `else`, `body`, `var`, `from` and `to`. An optional key may be
//! absent or null; under `from` and `to` stands an expression, and null is
//! one. An action must carry what its operation requires: a value that
//! stands for an `If` without a condition stands for no action. An
//! operation is written as its name, a custom one as an
//! object with the single key `Custom`. A condition is an object whose `type`
//! is `comparison`, `and`, `or` or `not`. An expression is `{"var": name}`,
//! `{"expr": {"op", "left", "right"}}`, `{"call": name, "args": {..}}`, or any
//! other value, which stands for itself.

use crate::ast::{
    actions_view, args_view, block_view, conds_view, lemma_view_action, lemma_view_call,
    lemma_view_operands, Action, ActionModel, BinaryExpr, ComparisonOp, CondModel, Condition,
    ExprModel, Expression, Operation, OperationModel, Program, ProgramModel,
};
use crate::text::{str_equal, texts_view};
use crate::value::{
    clone_entries, entries_view, find_entry, find_from, get_entry, items_view, lemma_view_list,
    lemma_view_object, lookup, JsonModel, Value,
};
use vstd::prelude::*;
use vstd::string::*;

verus! {

/// The operation that a name stands for.
pub open spec fn operation_named(name: Seq<char>) -> Option<OperationModel> {
    if name == "Create"@ {
        Some(OperationModel::Create)
    } else if name == "Read"@ {
        Some(OperationModel::Read)
    } else if name == "Write"@ {
        Some(OperationModel::Write)
    } else if name == "Delete"@ {
        Some(OperationModel::Delete)
    } else if name == "Bind"@ {
        Some(OperationModel::Bind)
    } else if name == "Unbind"@ {
        Some(OperationModel::Unbind)
    } else if name == "Emit"@ {
        Some(OperationModel::Emit)
    } else if name == "Receive"@ {
        Some(OperationModel::Receive)
    } else if name == "Measure"@ {
        Some(OperationModel::Measure)
    } else if name == "Decide"@ {
        Some(OperationModel::Decide)
    } else if name == "Wait"@ {
        Some(OperationModel::Wait)
    } else if name == "Assert"@ {
        Some(OperationModel::Assert)
    } else if name == "StoreFact"@ {
        Some(OperationModel::StoreFact)
    } else if name == "Oblige"@ {
        Some(OperationModel::Oblige)
    } else if name == "Permit"@ {
        Some(OperationModel::Permit)
    } else if name == "Remedy"@ {
        Some(OperationModel::Remedy)
    } else if name == "Transcribe"@ {
        Some(OperationModel::Transcribe)
    } else if name == "Translate"@ {
        Some(OperationModel::Translate)
    } else if name == "Express"@ {
        Some(OperationModel::Express)
    } else if name == "Call"@ {
        Some(OperationModel::Call)
    } else if name == "Assign"@ {
        Some(OperationModel::Assign)
    } else if name == "Return"@ {
        Some(OperationModel::Return)
    } else if name == "GenRandomInt"@ {
        Some(OperationModel::GenRandomInt)
    } else if name == "If"@ {
        Some(OperationModel::If)
    } else if name == "While"@ {
        Some(OperationModel::While)
    } else if name == "For"@ {
        Some(OperationModel::For)
    } else if name == "DefineFunction"@ {
        Some(OperationModel::DefineFunction)
    } else if name == "Gather"@ {
        Some(OperationModel::Gather)
    } else if name == "Heat"@ {
        Some(OperationModel::Heat)
    } else if name == "Pour"@ {
        Some(OperationModel::Pour)
    } else if name == "Mix"@ {
        Some(OperationModel::Mix)
    } else if name == "Stir"@ {
        Some(OperationModel::Stir)
    } else if name == "Place"@ {
        Some(OperationModel::Place)
    } else if name == "Remove"@ {
        Some(OperationModel::Remove)
    } else if name == "Steep"@ {
        Some(OperationModel::Steep)
    } else if name == "Serve"@ {
        Some(OperationModel::Serve)
    } else if name == "Generate"@ {
        Some(OperationModel::Generate)
    } else if name == "Parse"@ {
        Some(OperationModel::Parse)
    } else if name == "Execute"@ {
        Some(OperationModel::Execute)
    } else if name == "Flurble"@ {
        Some(OperationModel::Flurble)
    } else if name == "Grok"@ {
        Some(OperationModel::Grok)
    } else if name == "Defenestrate"@ {
        Some(OperationModel::Defenestrate)
    } else {
        None
    }
}

/// The name under which an operation other than a custom one is written.
pub open spec fn operation_name(op: OperationModel) -> Seq<char> {
    match op {
        OperationModel::Create => "Create"@,
        OperationModel::Read => "Read"@,
        OperationModel::Write => "Write"@,
        OperationModel::Delete => "Delete"@,
        OperationModel::Bind => "Bind"@,
        OperationModel::Unbind => "Unbind"@,
        OperationModel::Emit => "Emit"@,
        OperationModel::Receive => "Receive"@,
        OperationModel::Measure => "Measure"@,
        OperationModel::Decide => "Decide"@,
        OperationModel::Wait => "Wait"@,
        OperationModel::Assert => "Assert"@,
        OperationModel::StoreFact => "StoreFact"@,
        OperationModel::Oblige => "Oblige"@,
        OperationModel::Permit => "Permit"@,
        OperationModel::Remedy => "Remedy"@,
        OperationModel::Transcribe => "Transcribe"@,
        OperationModel::Translate => "Translate"@,
        OperationModel::Express => "Express"@,
        OperationModel::Call => "Call"@,
        OperationModel::Assign => "Assign"@,
        OperationModel::Return => "Return"@,
        OperationModel::GenRandomInt => "GenRandomInt"@,
        OperationModel::If => "If"@,
        OperationModel::While => "While"@,
        OperationModel::For => "For"@,
        OperationModel::DefineFunction => "DefineFunction"@,
        OperationModel::Gather => "Gather"@,
        OperationModel::Heat => "Heat"@,
        OperationModel::Pour => "Pour"@,
        OperationModel::Mix => "Mix"@,
        OperationModel::Stir => "Stir"@,
        OperationModel::Place => "Place"@,
        OperationModel::Remove => "Remove"@,
        OperationModel::Steep => "Steep"@,
        OperationModel::Serve => "Serve"@,
        OperationModel::Generate => "Generate"@,
        OperationModel::Parse => "Parse"@,
        OperationModel::Execute => "Execute"@,
        OperationModel::Flurble => "Flurble"@,
        OperationModel::Grok => "Grok"@,
        OperationModel::Defenestrate => "Defenestrate"@,
        OperationModel::Custom(name) => name,
    }
}

/// The operation that a value stands for: a known name, or an object that
/// gives a custom name.
pub open spec fn decode_operation(v: JsonModel) -> Option<OperationModel> {
    match v {
        JsonModel::String(name) => operation_named(name),
        JsonModel::Object(entries) => match lookup(entries, "Custom"@) {
            Some(JsonModel::String(name)) => Some(OperationModel::Custom(name)),
            _ => None,
        },
        _ => None,
    }
}

impl Operation {
    /// The operation that `name` stands for.
    pub fn from_name(name: &str) -> (r: Option<Operation>)
        ensures
            match r {
                Some(op) => operation_named(name@) == Some(op@),
                None => operation_named(name@) is None,
            },
    {
        if str_equal(name, "Create") {
            Some(Operation::Create)
        } else if str_equal(name, "Read") {
            Some(Operation::Read)
        } else if str_equal(name, "Write") {
            Some(Operation::Write)
        } else if str_equal(name, "Delete") {
            Some(Operation::Delete)
        } else if str_equal(name, "Bind") {
            Some(Operation::Bind)
        } else if str_equal(name, "Unbind") {
            Some(Operation::Unbind)
        } else if str_equal(name, "Emit") {
            Some(Operation::Emit)
        } else if str_equal(name, "Receive") {
            Some(Operation::Receive)
        } else if str_equal(name, "Measure") {
            Some(Operation::Measure)
        } else if str_equal(name, "Decide") {
            Some(Operation::Decide)
        } else if str_equal(name, "Wait") {
            Some(Operation::Wait)
        } else if str_equal(name, "Assert") {
            Some(Operation::Assert)
        } else if str_equal(name, "StoreFact") {
            Some(Operation::StoreFact)
        } else if str_equal(name, "Oblige") {
            Some(Operation::Oblige)
        } else if str_equal(name, "Permit") {
            Some(Operation::Permit)
        } else if str_equal(name, "Remedy") {
            Some(Operation::Remedy)
        } else if str_equal(name, "Transcribe") {
            Some(Operation::Transcribe)
        } else if str_equal(name, "Translate") {
            Some(Operation::Translate)
        } else if str_equal(name, "Express") {
            Some(Operation::Express)
        } else if str_equal(name, "Call") {
            Some(Operation::Call)
        } else if str_equal(name, "Assign") {
            Some(Operation::Assign)
        } else if str_equal(name, "Return") {
            Some(Operation::Return)
        } else if str_equal(name, "GenRandomInt") {
            Some(Operation::GenRandomInt)
        } else if str_equal(name, "If") {
            Some(Operation::If)
        } else if str_equal(name, "While") {
            Some(Operation::While)
        } else if str_equal(name, "For") {
            Some(Operation::For)
        } else if str_equal(name, "DefineFunction") {
            Some(Operation::DefineFunction)
        } else if str_equal(name, "Gather") {
            Some(Operation::Gather)
        } else if str_equal(name, "Heat") {
            Some(Operation::Heat)
        } else if str_equal(name, "Pour") {
            Some(Operation::Pour)
        } else if str_equal(name, "Mix") {
            Some(Operation::Mix)
        } else if str_equal(name, "Stir") {
            Some(Operation::Stir)
        } else if str_equal(name, "Place") {
            Some(Operation::Place)
        } else if str_equal(name, "Remove") {
            Some(Operation::Remove)
        } else if str_equal(name, "Steep") {
            Some(Operation::Steep)
        } else if str_equal(name, "Serve") {
            Some(Operation::Serve)
        } else if str_equal(name, "Generate") {
            Some(Operation::Generate)
        } else if str_equal(name, "Parse") {
            Some(Operation::Parse)
        } else if str_equal(name, "Execute") {
            Some(Operation::Execute)
        } else if str_equal(name, "Flurble") {
            Some(Operation::Flurble)
        } else if str_equal(name, "Grok") {
            Some(Operation::Grok)
        } else if str_equal(name, "Defenestrate") {
            Some(Operation::Defenestrate)
        } else {
            None
        }
    }

    /// The name of the operation: for a custom one, the name it was given.
    pub fn name(&self) -> (r: String)
        ensures
            r@ == operation_name(self@),
    {
        match self {
            Operation::Create => String::from_str("Create"),
            Operation::Read => String::from_str("Read"),
            Operation::Write => String::from_str("Write"),
            Operation::Delete => String::from_str("Delete"),
            Operation::Bind => String::from_str("Bind"),
            Operation::Unbind => String::from_str("Unbind"),
            Operation::Emit => String::from_str("Emit"),
            Operation::Receive => String::from_str("Receive"),
            Operation::Measure => String::from_str("Measure"),
            Operation::Decide => String::from_str("Decide"),
            Operation::Wait => String::from_str("Wait"),
            Operation::Assert => String::from_str("Assert"),
            Operation::StoreFact => String::from_str("StoreFact"),
            Operation::Oblige => String::from_str("Oblige"),
            Operation::Permit => String::from_str("Permit"),
            Operation::Remedy => String::from_str("Remedy"),
            Operation::Transcribe => String::from_str("Transcribe"),
            Operation::Translate => String::from_str("Translate"),
            Operation::Express => String::from_str("Express"),
            Operation::Call => String::from_str("Call"),
            Operation::Assign => String::from_str("Assign"),
            Operation::Return => String::from_str("Return"),
            Operation::GenRandomInt => String::from_str("GenRandomInt"),
            Operation::If => String::from_str("If"),
            Operation::While => String::from_str("While"),
            Operation::For => String::from_str("For"),
            Operation::DefineFunction => String::from_str("DefineFunction"),
            Operation::Gather => String::from_str("Gather"),
            Operation::Heat => String::from_str("Heat"),
            Operation::Pour => String::from_str("Pour"),
            Operation::Mix => String::from_str("Mix"),
            Operation::Stir => String::from_str("Stir"),
            Operation::Place => String::from_str("Place"),
            Operation::Remove => String::from_str("Remove"),
            Operation::Steep => String::from_str("Steep"),
            Operation::Serve => String::from_str("Serve"),
            Operation::Generate => String::from_str("Generate"),
            Operation::Parse => String::from_str("Parse"),
            Operation::Execute => String::from_str("Execute"),
            Operation::Flurble => String::from_str("Flurble"),
            Operation::Grok => String::from_str("Grok"),
            Operation::Defenestrate => String::from_str("Defenestrate"),
            Operation::Custom(name) => name.clone(),
        }
    }

    /// Reads an operation from its document form.
    pub fn from_value(v: &Value) -> (r: Option<Operation>)
        ensures
            match r {
                Some(op) => decode_operation(v@) == Some(op@),
                None => decode_operation(v@) is None,
            },
    {
        match v {
            Value::String(name) => Operation::from_name(name.as_str()),
            Value::Object(entries) => {
                proof {
                    lemma_view_object(*entries);
                }
                match get_entry(entries, "Custom") {
                    Some(Value::String(name)) => Some(Operation::Custom(name.clone())),
                    _ => None,
                }
            },
            _ => None,
        }
    }
}

/// Index of the first entry with key `key`, an index into `entries`.
pub open spec fn position(entries: Seq<(Seq<char>, JsonModel)>, key: Seq<char>) -> Option<int> {
    match find_from(entries, key, 0) {
        Some(i) => if 0 <= i < entries.len() {
            Some(i)
        } else {
            None
        },
        None => None,
    }
}

/// Index of the first entry with key `key`, unless its value is null.
pub open spec fn present(entries: Seq<(Seq<char>, JsonModel)>, key: Seq<char>) -> Option<int> {
    match position(entries, key) {
        Some(i) => if entries[i].1 is Null {
            None
        } else {
            Some(i)
        },
        None => None,
    }
}

/// What an optional key holds: nothing where the key is absent or null.
pub open spec fn optional(entries: Seq<(Seq<char>, JsonModel)>, key: Seq<char>) -> Option<
    JsonModel,
> {
    match present(entries, key) {
        Some(i) => Some(entries[i].1),
        None => None,
    }
}

/// Position of the first entry with key `key`.
pub fn find_position(entries: &Vec<(String, Value)>, key: &str) -> (r: Option<usize>)
    ensures
        match r {
            Some(i) => position(entries_view(entries@), key@) == Some(i as int) && i
                < entries.len(),
            None => position(entries_view(entries@), key@) is None,
        },
        lookup(entries_view(entries@), key@) == match r {
            Some(i) => Some(entries[i as int].1@),
            None => None,
        },
{
    find_entry(entries, key)
}

/// Position of the first entry with key `key`, unless its value is null.
pub fn find_present(entries: &Vec<(String, Value)>, key: &str) -> (r: Option<usize>)
    ensures
        match r {
            Some(i) => present(entries_view(entries@), key@) == Some(i as int) && i
                < entries.len(),
            None => present(entries_view(entries@), key@) is None,
        },
        optional(entries_view(entries@), key@) == match r {
            Some(i) => Some(entries[i as int].1@),
            None => None,
        },
{
    match find_entry(entries, key) {
        Some(i) => match &entries[i].1 {
            Value::Null => None,
            _ => Some(i),
        },
        None => None,
    }
}

/// The named arguments that the first `n` entries of an object stand for.
pub open spec fn decode_args(entries: Seq<(Seq<char>, JsonModel)>, n: nat) -> Seq<
    (Seq<char>, ExprModel),
>
    decreases entries, n,
{
    if n == 0 || n > entries.len() {
        Seq::empty()
    } else {
        decode_args(entries, (n - 1) as nat).push(
            (entries[n - 1].0, decode_expr(entries[n - 1].1)),
        )
    }
}

/// The expression that a value stands for. An object that has none of the
/// three forms, and any value that is no object, is a literal.
pub open spec fn decode_expr(v: JsonModel) -> ExprModel
    decreases v, 0nat,
{
    match v {
        JsonModel::Object(entries) => match lookup(entries, "var"@) {
            Some(JsonModel::String(name)) => ExprModel::Variable { var: name },
            _ => match position(entries, "expr"@) {
                Some(i) => match entries[i].1 {
                    JsonModel::Object(inner) => match (
                        lookup(inner, "op"@),
                        position(inner, "left"@),
                        position(inner, "right"@),
                    ) {
                        (Some(JsonModel::String(op)), Some(l), Some(r)) => ExprModel::BinaryOp {
                            op,
                            left: Box::new(decode_expr(inner[l].1)),
                            right: Box::new(decode_expr(inner[r].1)),
                        },
                        _ => decode_call(v, entries),
                    },
                    _ => decode_call(v, entries),
                },
                None => decode_call(v, entries),
            },
        },
        _ => ExprModel::Value(v),
    }
}

/// The call that the entries of the object `v` stand for, or `v` as a literal.
pub open spec fn decode_call(v: JsonModel, entries: Seq<(Seq<char>, JsonModel)>) -> ExprModel
    decreases entries, 0nat,
{
    match (lookup(entries, "call"@), position(entries, "args"@)) {
        (Some(JsonModel::String(name)), Some(a)) => match entries[a].1 {
            JsonModel::Object(arguments) => ExprModel::FunctionCall {
                call: name,
                args: decode_args(arguments, arguments.len()),
            },
            _ => ExprModel::Value(v),
        },
        _ => ExprModel::Value(v),
    }
}

/// Reads the named arguments of a call from the entries of an object.
pub fn args_from_entries(entries: &Vec<(String, Value)>) -> (r: Vec<(String, Expression)>)
    ensures
        args_view(r@) == decode_args(entries_view(entries@), entries.len() as nat),
    decreases entries,
{
    let ghost ev = entries_view(entries@);
    let mut out: Vec<(String, Expression)> = Vec::new();
    let mut i: usize = 0;
    while i < entries.len()
        invariant
            i <= entries.len(),
            ev == entries_view(entries@),
            out.len() == i,
            args_view(out@) == decode_args(ev, i as nat),
        decreases entries.len() - i,
    {
        let e = Expression::from_value(&entries[i].1);
        let ghost before = args_view(out@);
        out.push((entries[i].0.clone(), e));
        proof {
            assert(decode_args(ev, (i + 1) as nat) == decode_args(ev, i as nat).push(
                (ev[i as int].0, decode_expr(ev[i as int].1)),
            ));
            assert(args_view(out@) =~= before.push((ev[i as int].0, decode_expr(ev[i as int].1))));
        }
        i += 1;
    }
    out
}

impl Expression {
    /// Reads an expression from its document form.
    pub fn from_value(v: &Value) -> (r: Expression)
        ensures
            r@ == decode_expr(v@),
        decreases v,
    {
        match v {
            Value::Object(entries) => {
                proof {
                    lemma_view_object(*entries);
                }
                match get_entry(entries, "var") {
                    Some(Value::String(name)) => {
                        return Expression::Variable { var: name.clone() };
                    },
                    _ => {},
                }
                match find_position(entries, "expr") {
                    Some(i) => match &entries[i].1 {
                        Value::Object(inner) => {
                            proof {
                                lemma_view_object(*inner);
                            }
                            let op = get_entry(inner, "op");
                            let l = find_position(inner, "left");
                            let r = find_position(inner, "right");
                            match (op, l, r) {
                                (Some(Value::String(op)), Some(l), Some(r)) => {
                                    return Expression::BinaryOp {
                                        expr: Box::new(
                                            BinaryExpr {
                                                op: op.clone(),
                                                left: Expression::from_value(&inner[l].1),
                                                right: Expression::from_value(&inner[r].1),
                                            },
                                        ),
                                    };
                                },
                                _ => {},
                            }
                        },
                        _ => {},
                    },
                    None => {},
                }
                assert(decode_expr(v@) == decode_call(v@, entries_view(entries@)));
                let call = get_entry(entries, "call");
                let a = find_position(entries, "args");
                let r = match (call, a) {
                    (Some(Value::String(name)), Some(a)) => match &entries[a].1 {
                        Value::Object(arguments) => {
                            proof {
                                lemma_view_object(*arguments);
                            }
                            let args = args_from_entries(arguments);
                            let call = name.clone();
                            proof {
                                lemma_view_call(call, args);
                            }
                            Expression::FunctionCall { call, args }
                        },
                        _ => Expression::Value(v.clone()),
                    },
                    _ => Expression::Value(v.clone()),
                };
                assert(r@ == decode_call(v@, entries_view(entries@)));
                r
            },
            _ => Expression::Value(v.clone()),
        }
    }
}

/// The comparison that a sign stands for.
pub open spec fn comparison_named(name: Seq<char>) -> Option<ComparisonOp> {
    if name == "=="@ {
        Some(ComparisonOp::Equal)
    } else if name == "!="@ {
        Some(ComparisonOp::NotEqual)
    } else if name == "<"@ {
        Some(ComparisonOp::LessThan)
    } else if name == "<="@ {
        Some(ComparisonOp::LessThanOrEqual)
    } else if name == ">"@ {
        Some(ComparisonOp::GreaterThan)
    } else if name == ">="@ {
        Some(ComparisonOp::GreaterThanOrEqual)
    } else {
        None
    }
}

/// The sign under which a comparison is written.
pub open spec fn comparison_name(op: ComparisonOp) -> Seq<char> {
    match op {
        ComparisonOp::Equal => "=="@,
        ComparisonOp::NotEqual => "!="@,
        ComparisonOp::LessThan => "<"@,
        ComparisonOp::LessThanOrEqual => "<="@,
        ComparisonOp::GreaterThan => ">"@,
        ComparisonOp::GreaterThanOrEqual => ">="@,
    }
}

impl ComparisonOp {
    /// The comparison that `name` stands for.
    pub fn from_name(name: &str) -> (r: Option<ComparisonOp>)
        ensures
            r == comparison_named(name@),
    {
        if str_equal(name, "==") {
            Some(ComparisonOp::Equal)
        } else if str_equal(name, "!=") {
            Some(ComparisonOp::NotEqual)
        } else if str_equal(name, "<") {
            Some(ComparisonOp::LessThan)
        } else if str_equal(name, "<=") {
            Some(ComparisonOp::LessThanOrEqual)
        } else if str_equal(name, ">") {
            Some(ComparisonOp::GreaterThan)
        } else if str_equal(name, ">=") {
            Some(ComparisonOp::GreaterThanOrEqual)
        } else {
            None
        }
    }

    /// The sign of the comparison.
    pub fn name(&self) -> (r: &'static str)
        ensures
            r@ == comparison_name(*self),
    {
        match self {
            ComparisonOp::Equal => "==",
            ComparisonOp::NotEqual => "!=",
            ComparisonOp::LessThan => "<",
            ComparisonOp::LessThanOrEqual => "<=",
            ComparisonOp::GreaterThan => ">",
            ComparisonOp::GreaterThanOrEqual => ">=",
        }
    }
}

/// The conditions that the first `n` items of a list stand for, if each item
/// stands for one.
pub open spec fn decode_conds(items: Seq<JsonModel>, n: nat) -> Option<Seq<CondModel>>
    decreases items, n,
{
    if n == 0 || n > items.len() {
        Some(Seq::empty())
    } else {
        match (decode_conds(items, (n - 1) as nat), decode_cond(items[n - 1])) {
            (Some(front), Some(last)) => Some(front.push(last)),
            _ => None,
        }
    }
}

/// The condition that a value stands for, if it stands for one.
pub open spec fn decode_cond(v: JsonModel) -> Option<CondModel>
    decreases v, 0nat,
{
    match v {
        JsonModel::Object(entries) => match lookup(entries, "type"@) {
            Some(JsonModel::String(tag)) => if tag == "comparison"@ {
                match (lookup(entries, "op"@), lookup(entries, "left"@), lookup(entries, "right"@)) {
                    (Some(JsonModel::String(sign)), Some(left), Some(right)) => match comparison_named(
                        sign,
                    ) {
                        Some(op) => Some(
                            CondModel::Comparison {
                                op,
                                left: decode_expr(left),
                                right: decode_expr(right),
                            },
                        ),
                        None => None,
                    },
                    _ => None,
                }
            } else if tag == "and"@ || tag == "or"@ {
                match position(entries, "operands"@) {
                    Some(i) => match entries[i].1 {
                        JsonModel::List(items) => match decode_conds(items, items.len()) {
                            Some(operands) => if tag == "and"@ {
                                Some(CondModel::And { operands })
                            } else {
                                Some(CondModel::Or { operands })
                            },
                            None => None,
                        },
                        _ => None,
                    },
                    None => None,
                }
            } else if tag == "not"@ {
                match position(entries, "operand"@) {
                    Some(i) => match decode_cond(entries[i].1) {
                        Some(operand) => Some(CondModel::Not { operand: Box::new(operand) }),
                        None => None,
                    },
                    None => None,
                }
            } else {
                None
            },
            _ => None,
        },
        _ => None,
    }
}

/// Once an item fails to stand for a condition, so does every longer prefix.
proof fn lemma_decode_conds_fails(items: Seq<JsonModel>, i: nat, n: nat)
    requires
        i <= n <= items.len(),
        decode_conds(items, i) is None,
    ensures
        decode_conds(items, n) is None,
    decreases n,
{
    if n > i {
        lemma_decode_conds_fails(items, i, (n - 1) as nat);
    }
}

/// Reads a list of conditions from a list of values.
pub fn conds_from_items(items: &Vec<Value>) -> (r: Option<Vec<Condition>>)
    ensures
        match r {
            Some(operands) => decode_conds(items_view(items@), items.len() as nat) == Some(
                conds_view(operands@),
            ),
            None => decode_conds(items_view(items@), items.len() as nat) is None,
        },
    decreases items,
{
    let ghost iv = items_view(items@);
    let mut out: Vec<Condition> = Vec::new();
    let mut i: usize = 0;
    while i < items.len()
        invariant
            i <= items.len(),
            iv == items_view(items@),
            out.len() == i,
            decode_conds(iv, i as nat) == Some(conds_view(out@)),
        decreases items.len() - i,
    {
        let ghost before = conds_view(out@);
        assert(decode_conds(iv, (i + 1) as nat) == match (
            decode_conds(iv, i as nat),
            decode_cond(iv[i as int]),
        ) {
            (Some(front), Some(last)) => Some(front.push(last)),
            _ => None,
        });
        match Condition::from_value(&items[i]) {
            Some(c) => {
                out.push(c);
                assert(conds_view(out@) =~= before.push(c@));
            },
            None => {
                proof {
                    lemma_decode_conds_fails(iv, (i + 1) as nat, items.len() as nat);
                }
                return None;
            },
        }
        i += 1;
    }
    Some(out)
}

impl Condition {
    /// Reads a condition from its document form.
    pub fn from_value(v: &Value) -> (r: Option<Condition>)
        ensures
            match r {
                Some(c) => decode_cond(v@) == Some(c@),
                None => decode_cond(v@) is None,
            },
        decreases v,
    {
        let entries = match v {
            Value::Object(entries) => entries,
            _ => {
                return None;
            },
        };
        proof {
            lemma_view_object(*entries);
        }
        let tag = match get_entry(entries, "type") {
            Some(Value::String(tag)) => tag,
            _ => {
                return None;
            },
        };
        if str_equal(tag.as_str(), "comparison") {
            let sign = match get_entry(entries, "op") {
                Some(Value::String(sign)) => sign,
                _ => {
                    return None;
                },
            };
            let left = match get_entry(entries, "left") {
                Some(left) => left,
                None => {
                    return None;
                },
            };
            let right = match get_entry(entries, "right") {
                Some(right) => right,
                None => {
                    return None;
                },
            };
            match ComparisonOp::from_name(sign.as_str()) {
                Some(op) => Some(
                    Condition::Comparison {
                        op,
                        left: Expression::from_value(left),
                        right: Expression::from_value(right),
                    },
                ),
                None => None,
            }
        } else if str_equal(tag.as_str(), "and") || str_equal(tag.as_str(), "or") {
            let i = match find_position(entries, "operands") {
                Some(i) => i,
                None => {
                    return None;
                },
            };
            match &entries[i].1 {
                Value::List(items) => {
                    proof {
                        lemma_view_list(*items);
                    }
                    match conds_from_items(items) {
                        Some(operands) => {
                            proof {
                                lemma_view_operands(operands);
                            }
                            if str_equal(tag.as_str(), "and") {
                                Some(Condition::And { operands })
                            } else {
                                Some(Condition::Or { operands })
                            }
                        },
                        None => None,
                    }
                },
                _ => None,
            }
        } else if str_equal(tag.as_str(), "not") {
            let i = match find_position(entries, "operand") {
                Some(i) => i,
                None => {
                    return None;
                },
            };
            match Condition::from_value(&entries[i].1) {
                Some(operand) => Some(Condition::Not { operand: Box::new(operand) }),
                None => None,
            }
        } else {
            None
        }
    }
}

/// An optional text: absent, or a string. `None` where the value is of another kind.
pub open spec fn decode_text(v: Option<JsonModel>) -> Option<Option<Seq<char>>> {
    match v {
        None => Some(None),
        Some(JsonModel::String(s)) => Some(Some(s)),
        Some(_) => None,
    }
}

/// An optional binary64 number: absent, or a number, converted where it is an
/// integer. `None` where the value is of another kind.
pub open spec fn decode_float(v: Option<JsonModel>) -> Option<Option<u64>> {
    match v {
        None => Some(None),
        Some(JsonModel::Number(n)) => Some(Some(n.float_bits())),
        Some(_) => None,
    }
}

/// Optional parameters: absent, or an object. `None` where the value is of
/// another kind.
pub open spec fn decode_params(v: Option<JsonModel>) -> Option<
    Option<Seq<(Seq<char>, JsonModel)>>,
> {
    match v {
        None => Some(None),
        Some(JsonModel::Object(entries)) => Some(Some(entries)),
        Some(_) => None,
    }
}

/// The texts of a list whose items are all strings.
pub open spec fn decode_strings(items: Seq<JsonModel>) -> Option<Seq<Seq<char>>> {
    if forall|i: int| 0 <= i < items.len() ==> #[trigger] items[i] is String {
        Some(Seq::new(items.len(), |i: int| items[i]->String_0))
    } else {
        None
    }
}

/// Optional tags: absent, or a list of strings. `None` where the value is
/// anything else.
pub open spec fn decode_tags(v: Option<JsonModel>) -> Option<Option<Seq<Seq<char>>>> {
    match v {
        None => Some(None),
        Some(JsonModel::List(items)) => match decode_strings(items) {
            Some(tags) => Some(Some(tags)),
            None => None,
        },
        Some(_) => None,
    }
}

/// An optional condition: absent, or a value that stands for a condition.
pub open spec fn decode_guard(v: Option<JsonModel>) -> Option<Option<CondModel>> {
    match v {
        None => Some(None),
        Some(c) => match decode_cond(c) {
            Some(c) => Some(Some(c)),
            None => None,
        },
    }
}

/// An optional expression: absent, or the expression that the value stands for.
pub open spec fn decode_bound(v: Option<JsonModel>) -> Option<ExprModel> {
    match v {
        None => None,
        Some(e) => Some(decode_expr(e)),
    }
}

/// The actions that the first `n` items of a list stand for, if each item
/// stands for one.
pub open spec fn decode_actions(items: Seq<JsonModel>, n: nat) -> Option<Seq<ActionModel>>
    decreases items, n,
{
    if n == 0 || n > items.len() {
        Some(Seq::empty())
    } else {
        match (decode_actions(items, (n - 1) as nat), decode_action(items[n - 1])) {
            (Some(front), Some(last)) => Some(front.push(last)),
            _ => None,
        }
    }
}

/// An optional sequence of actions under `key`: absent, or a list of values
/// that each stand for an action.
pub open spec fn decode_block(entries: Seq<(Seq<char>, JsonModel)>, key: Seq<char>) -> Option<
    Option<Seq<ActionModel>>,
>
    decreases entries, 0nat,
{
    match present(entries, key) {
        None => Some(None),
        Some(i) => match entries[i].1 {
            JsonModel::List(items) => match decode_actions(items, items.len()) {
                Some(actions) => Some(Some(actions)),
                None => None,
            },
            _ => None,
        },
    }
}

/// Whether an action carries what its operation requires: an `If` and a
/// `While` a condition, a `For` its variable and both bounds, a
/// `DefineFunction` a list under `args` and a list under `body` among its
/// parameters. Every other operation requires nothing.
pub open spec fn carries_required(a: ActionModel) -> bool {
    match a.op {
        OperationModel::If => a.condition is Some,
        OperationModel::While => a.condition is Some,
        OperationModel::For => a.loop_var is Some && a.from_expr is Some && a.to_expr is Some,
        OperationModel::DefineFunction => match a.params {
            Some(entries) => lookup(entries, "args"@) is Some && lookup(entries, "args"@)->0 is List
                && lookup(entries, "body"@) is Some && lookup(entries, "body"@)->0 is List,
            None => false,
        },
        _ => true,
    }
}

/// Whether the object under `params` holds, under `body`, a list whose
/// items all stand for actions.
pub open spec fn body_decodes(entries: Seq<(Seq<char>, JsonModel)>) -> bool
    decreases entries, 0nat,
{
    match present(entries, "params"@) {
        Some(i) => match entries[i].1 {
            JsonModel::Object(params) => match position(params, "body"@) {
                Some(j) => match params[j].1 {
                    JsonModel::List(items) => decode_actions(items, items.len()) is Some,
                    _ => false,
                },
                None => false,
            },
            _ => false,
        },
        None => false,
    }
}

/// The action that a value stands for, if it stands for one: an object with
/// a text under `actor` and `target`, an operation under `op`, each optional
/// key absent or of the form that the key asks for, and all that the
/// operation requires (see [`carries_required`]); the items of the body of
/// a `DefineFunction` must stand for actions. A bound of a `For` is the
/// expression under `from` or `to`, whatever value stands there.
pub open spec fn decode_action(v: JsonModel) -> Option<ActionModel>
    decreases v, 0nat,
{
    match v {
        JsonModel::Object(entries) => {
            let actor = lookup(entries, "actor"@);
            let op = match lookup(entries, "op"@) {
                Some(x) => decode_operation(x),
                None => None,
            };
            let target = lookup(entries, "target"@);
            let t = decode_float(optional(entries, "t"@));
            let dur = decode_float(optional(entries, "dur"@));
            let params = decode_params(optional(entries, "params"@));
            let pre = decode_text(optional(entries, "pre"@));
            let post = decode_text(optional(entries, "post"@));
            let effects = decode_tags(optional(entries, "effects"@));
            let condition = decode_guard(optional(entries, "condition"@));
            let then_actions = decode_block(entries, "then"@);
            let else_actions = decode_block(entries, "else"@);
            let body_actions = decode_block(entries, "body"@);
            let loop_var = decode_text(optional(entries, "var"@));
            let read = ActionModel {
                actor: actor->0->String_0,
                op: op->0,
                target: target->0->String_0,
                t: t->0,
                dur: dur->0,
                params: params->0,
                pre: pre->0,
                post: post->0,
                effects: effects->0,
                condition: condition->0,
                then_actions: then_actions->0,
                else_actions: else_actions->0,
                body_actions: body_actions->0,
                loop_var: loop_var->0,
                from_expr: decode_bound(lookup(entries, "from"@)),
                to_expr: decode_bound(lookup(entries, "to"@)),
            };
            if actor is Some && actor->0 is String && op is Some && target is Some && target->0 is String
                && t is Some && dur is Some && params is Some && pre is Some && post is Some
                && effects is Some && condition is Some && then_actions is Some
                && else_actions is Some && body_actions is Some && loop_var is Some
                && carries_required(read) && (read.op is DefineFunction ==> body_decodes(
                entries,
            )) {
                Some(read)
            } else {
                None
            }
        },
        _ => None,
    }
}

/// Once an item fails to stand for an action, so does every longer prefix.
proof fn lemma_decode_actions_fails(items: Seq<JsonModel>, i: nat, n: nat)
    requires
        i <= n <= items.len(),
        decode_actions(items, i) is None,
    ensures
        decode_actions(items, n) is None,
    decreases n,
{
    if n > i {
        lemma_decode_actions_fails(items, i, (n - 1) as nat);
    }
}

/// Reads an optional text.
pub fn text_from_value(v: Option<&Value>) -> (r: Option<Option<String>>)
    ensures
        match r {
            Some(t) => decode_text(value_view(v)) == Some(crate::ast::text_view(t)),
            None => decode_text(value_view(v)) is None,
        },
{
    match v {
        None => Some(None),
        Some(Value::String(s)) => Some(Some(s.clone())),
        Some(_) => None,
    }
}

/// The model of an optional value.
pub open spec fn value_view(v: Option<&Value>) -> Option<JsonModel> {
    match v {
        Some(v) => Some(v@),
        None => None,
    }
}

/// Reads an optional binary64 number.
pub fn float_from_value(v: Option<&Value>) -> (r: Option<Option<u64>>)
    ensures
        r == decode_float(value_view(v)),
{
    match v {
        None => Some(None),
        Some(Value::Number(n)) => Some(Some(n.as_float())),
        Some(_) => None,
    }
}

/// Reads a list of strings.
pub fn strings_from_items(items: &Vec<Value>) -> (r: Option<Vec<String>>)
    ensures
        match r {
            Some(tags) => decode_strings(items_view(items@)) == Some(texts_view(tags@)),
            None => decode_strings(items_view(items@)) is None,
        },
{
    let ghost iv = items_view(items@);
    let mut out: Vec<String> = Vec::new();
    let mut i: usize = 0;
    while i < items.len()
        invariant
            i <= items.len(),
            iv == items_view(items@),
            out.len() == i,
            forall|j: int| 0 <= j < i ==> #[trigger] iv[j] == JsonModel::String(out[j]@),
        decreases items.len() - i,
    {
        match &items[i] {
            Value::String(s) => {
                out.push(s.clone());
            },
            _ => {
                assert(!(iv[i as int] is String));
                return None;
            },
        }
        i += 1;
    }
    assert(decode_strings(iv)->0 =~= texts_view(out@));
    Some(out)
}

/// The value under an optional key: nothing where the key is absent or null.
pub fn get_optional<'a>(entries: &'a Vec<(String, Value)>, key: &str) -> (r: Option<&'a Value>)
    ensures
        value_view(r) == optional(entries_view(entries@), key@),
{
    match find_present(entries, key) {
        Some(i) => Some(&entries[i].1),
        None => None,
    }
}

/// Reads a sequence of actions from a list of values.
pub fn actions_from_items(items: &Vec<Value>) -> (r: Option<Vec<Action>>)
    ensures
        match r {
            Some(actions) => decode_actions(items_view(items@), items.len() as nat) == Some(
                actions_view(actions@),
            ),
            None => decode_actions(items_view(items@), items.len() as nat) is None,
        },
    decreases items,
{
    let ghost iv = items_view(items@);
    let mut out: Vec<Action> = Vec::new();
    let mut i: usize = 0;
    while i < items.len()
        invariant
            i <= items.len(),
            iv == items_view(items@),
            out.len() == i,
            decode_actions(iv, i as nat) == Some(actions_view(out@)),
        decreases items.len() - i,
    {
        let ghost before = actions_view(out@);
        assert(decode_actions(iv, (i + 1) as nat) == match (
            decode_actions(iv, i as nat),
            decode_action(iv[i as int]),
        ) {
            (Some(front), Some(last)) => Some(front.push(last)),
            _ => None,
        });
        match Action::from_value(&items[i]) {
            Some(a) => {
                out.push(a);
                assert(actions_view(out@) =~= before.push(a@));
            },
            None => {
                proof {
                    lemma_decode_actions_fails(iv, (i + 1) as nat, items.len() as nat);
                }
                return None;
            },
        }
        i += 1;
    }
    Some(out)
}

/// Reads the optional sequence of actions under `key`.
pub fn block_from_entries(entries: &Vec<(String, Value)>, key: &str) -> (r: Option<
    Option<Vec<Action>>,
>)
    ensures
        match r {
            Some(block) => decode_block(entries_view(entries@), key@) == Some(
                crate::ast::block_view(block),
            ),
            None => decode_block(entries_view(entries@), key@) is None,
        },
    decreases entries,
{
    match find_present(entries, key) {
        None => Some(None),
        Some(i) => match &entries[i].1 {
            Value::List(items) => {
                proof {
                    lemma_view_list(*items);
                }
                match actions_from_items(items) {
                    Some(actions) => Some(Some(actions)),
                    None => None,
                }
            },
            _ => None,
        },
    }
}

/// Whether the parameters among the entries hold a body of actions: see
/// [`body_decodes`].
pub fn body_from_entries(entries: &Vec<(String, Value)>) -> (r: bool)
    ensures
        r == body_decodes(entries_view(entries@)),
    decreases entries,
{
    match find_present(entries, "params") {
        None => false,
        Some(i) => match &entries[i].1 {
            Value::Object(params) => {
                proof {
                    lemma_view_object(*params);
                }
                match find_position(params, "body") {
                    Some(j) => match &params[j].1 {
                        Value::List(items) => {
                            proof {
                                lemma_view_list(*items);
                            }
                            actions_from_items(items).is_some()
                        },
                        _ => false,
                    },
                    None => false,
                }
            },
            _ => false,
        },
    }
}

impl Action {
    /// Reads an action from its document form.
    pub fn from_value(v: &Value) -> (r: Option<Action>)
        ensures
            match r {
                Some(a) => decode_action(v@) == Some(a@),
                None => decode_action(v@) is None,
            },
        decreases v,
    {
        let entries = match v {
            Value::Object(entries) => entries,
            _ => {
                return None;
            },
        };
        proof {
            lemma_view_object(*entries);
        }
        let actor = match get_entry(entries, "actor") {
            Some(Value::String(actor)) => actor.clone(),
            _ => {
                return None;
            },
        };
        let op = match get_entry(entries, "op") {
            Some(x) => match Operation::from_value(x) {
                Some(op) => op,
                None => {
                    return None;
                },
            },
            None => {
                return None;
            },
        };
        let target = match get_entry(entries, "target") {
            Some(Value::String(target)) => target.clone(),
            _ => {
                return None;
            },
        };
        let t = match float_from_value(get_optional(entries, "t")) {
            Some(t) => t,
            None => {
                return None;
            },
        };
        let dur = match float_from_value(get_optional(entries, "dur")) {
            Some(dur) => dur,
            None => {
                return None;
            },
        };
        let params = match get_optional(entries, "params") {
            None => None,
            Some(Value::Object(p)) => {
                proof {
                    lemma_view_object(*p);
                }
                Some(clone_entries(p))
            },
            Some(_) => {
                return None;
            },
        };
        let pre = match text_from_value(get_optional(entries, "pre")) {
            Some(pre) => pre,
            None => {
                return None;
            },
        };
        let post = match text_from_value(get_optional(entries, "post")) {
            Some(post) => post,
            None => {
                return None;
            },
        };
        let effects = match get_optional(entries, "effects") {
            None => None,
            Some(Value::List(items)) => {
                proof {
                    lemma_view_list(*items);
                }
                match strings_from_items(items) {
                    Some(tags) => Some(tags),
                    None => {
                        return None;
                    },
                }
            },
            Some(_) => {
                return None;
            },
        };
        let condition = match get_optional(entries, "condition") {
            None => None,
            Some(c) => match Condition::from_value(c) {
                Some(c) => Some(c),
                None => {
                    return None;
                },
            },
        };
        let then_actions = match block_from_entries(entries, "then") {
            Some(block) => block,
            None => {
                return None;
            },
        };
        let else_actions = match block_from_entries(entries, "else") {
            Some(block) => block,
            None => {
                return None;
            },
        };
        let body_actions = match block_from_entries(entries, "body") {
            Some(block) => block,
            None => {
                return None;
            },
        };
        let loop_var = match text_from_value(get_optional(entries, "var")) {
            Some(name) => name,
            None => {
                return None;
            },
        };
        let from_expr = match get_entry(entries, "from") {
            Some(e) => Some(Expression::from_value(e)),
            None => None,
        };
        let to_expr = match get_entry(entries, "to") {
            Some(e) => Some(Expression::from_value(e)),
            None => None,
        };
        let a = Action {
            actor,
            op,
            target,
            t,
            dur,
            params,
            pre,
            post,
            effects,
            condition,
            then_actions,
            else_actions,
            body_actions,
            loop_var,
            from_expr,
            to_expr,
        };
        proof {
            lemma_view_action(a);
        }
        let defined = match a.op {
            Operation::DefineFunction => body_from_entries(entries),
            _ => true,
        };
        if a.has_required() && defined {
            Some(a)
        } else {
            None
        }
    }

    /// Whether the action carries what its operation requires.
    pub fn has_required(&self) -> (r: bool)
        ensures
            r == carries_required(self@),
    {
        proof {
            lemma_view_action(*self);
        }
        match self.op {
            Operation::If => self.condition.is_some(),
            Operation::While => self.condition.is_some(),
            Operation::For => self.loop_var.is_some() && self.from_expr.is_some()
                && self.to_expr.is_some(),
            Operation::DefineFunction => match &self.params {
                Some(entries) => {
                    let names = match get_entry(entries, "args") {
                        Some(Value::List(_)) => true,
                        _ => false,
                    };
                    let body = match get_entry(entries, "body") {
                        Some(Value::List(_)) => true,
                        _ => false,
                    };
                    names && body
                },
                None => false,
            },
            _ => true,
        }
    }
}

/// The text that names an operation in a trace: its name, and for a custom
/// one `Custom(..)` around its name as a quoted string.
pub open spec fn operation_debug(op: OperationModel) -> Seq<char> {
    match op {
        OperationModel::Custom(name) => "Custom("@ + crate::text::debug_quoted(name) + ")"@,
        _ => operation_name(op),
    }
}

/// The text that names an action in a trace or an error: its operation and,
/// in parentheses, its target.
pub open spec fn action_label(a: ActionModel) -> Seq<char> {
    operation_debug(a.op) + "("@ + a.target + ")"@
}

impl Action {
    /// The text that names the action in a trace or an error.
    pub fn label(&self) -> (r: String)
        ensures
            r@ == action_label(self@),
    {
        let mut out = self.op.debug_text();
        out.append("(");
        out.append(self.target.as_str());
        out.append(")");
        out
    }
}

impl Operation {
    /// The text that names the operation in a trace.
    pub fn debug_text(&self) -> (r: String)
        ensures
            r@ == operation_debug(self@),
    {
        match self {
            Operation::Custom(name) => {
                let mut out = String::from_str("Custom(");
                let quoted = crate::text::debug_quote(name.as_str());
                out.append(quoted.as_str());
                out.append(")");
                out
            },
            _ => self.name(),
        }
    }
}

/// The program that a value stands for, if it stands for one: an object
/// with a list of actions under `actions` and, optionally, an object under
/// `metadata`.
pub open spec fn decode_program(v: JsonModel) -> Option<ProgramModel> {
    match v {
        JsonModel::Object(entries) => match (
            decode_params(optional(entries, "metadata"@)),
            lookup(entries, "actions"@),
        ) {
            (Some(metadata), Some(JsonModel::List(items))) => match decode_actions(
                items,
                items.len(),
            ) {
                Some(actions) => Some(ProgramModel { metadata, actions }),
                None => None,
            },
            _ => None,
        },
        _ => None,
    }
}

impl Program {
    /// Reads a program from its document form.
    pub fn from_value(v: &Value) -> (r: Option<Program>)
        ensures
            match r {
                Some(p) => decode_program(v@) == Some(p@),
                None => decode_program(v@) is None,
            },
    {
        let entries = match v {
            Value::Object(entries) => entries,
            _ => {
                return None;
            },
        };
        proof {
            lemma_view_object(*entries);
        }
        let metadata = match get_optional(entries, "metadata") {
            None => None,
            Some(Value::Object(m)) => {
                proof {
                    lemma_view_object(*m);
                }
                Some(clone_entries(m))
            },
            Some(_) => {
                return None;
            },
        };
        match get_entry(entries, "actions") {
            Some(Value::List(items)) => {
                proof {
                    lemma_view_list(*items);
                }
                match actions_from_items(items) {
                    Some(actions) => Some(Program { metadata, actions }),
                    None => None,
                }
            },
            _ => None,
        }
    }
}

/// The entries with one more under `key`, where there is a value for it.
pub open spec fn with_field(
    entries: Seq<(Seq<char>, JsonModel)>,
    key: Seq<char>,
    value: Option<JsonModel>,
) -> Seq<(Seq<char>, JsonModel)> {
    match value {
        Some(v) => entries.push((key, v)),
        None => entries,
    }
}

/// The document form of an operation.
pub open spec fn encode_operation(op: OperationModel) -> JsonModel {
    match op {
        OperationModel::Custom(name) => JsonModel::Object(
            seq![("Custom"@, JsonModel::String(name))],
        ),
        _ => JsonModel::String(operation_name(op)),
    }
}

/// The document forms of the first `n` named arguments, under their names.
pub open spec fn encode_args(args: Seq<(Seq<char>, ExprModel)>, n: nat) -> Seq<
    (Seq<char>, JsonModel),
>
    decreases args, n,
{
    if n == 0 || n > args.len() {
        Seq::empty()
    } else {
        encode_args(args, (n - 1) as nat).push((args[n - 1].0, encode_expr(args[n - 1].1)))
    }
}

/// The document form of an expression.
pub open spec fn encode_expr(e: ExprModel) -> JsonModel
    decreases e, 0nat,
{
    match e {
        ExprModel::Value(v) => v,
        ExprModel::Variable { var } => JsonModel::Object(seq![("var"@, JsonModel::String(var))]),
        ExprModel::BinaryOp { op, left, right } => JsonModel::Object(
            seq![
                (
                    "expr"@,
                    JsonModel::Object(
                        seq![
                            ("op"@, JsonModel::String(op)),
                            ("left"@, encode_expr(*left)),
                            ("right"@, encode_expr(*right)),
                        ],
                    ),
                ),
            ],
        ),
        ExprModel::FunctionCall { call, args } => JsonModel::Object(
            seq![
                ("call"@, JsonModel::String(call)),
                ("args"@, JsonModel::Object(encode_args(args, args.len()))),
            ],
        ),
    }
}

/// The document forms of the first `n` operands.
pub open spec fn encode_conds(operands: Seq<CondModel>, n: nat) -> Seq<JsonModel>
    decreases operands, n,
{
    if n == 0 || n > operands.len() {
        Seq::empty()
    } else {
        encode_conds(operands, (n - 1) as nat).push(encode_cond(operands[n - 1]))
    }
}

/// The document form of a condition.
pub open spec fn encode_cond(c: CondModel) -> JsonModel
    decreases c, 0nat,
{
    match c {
        CondModel::Comparison { op, left, right } => JsonModel::Object(
            seq![
                ("type"@, JsonModel::String("comparison"@)),
                ("op"@, JsonModel::String(comparison_name(op))),
                ("left"@, encode_expr(left)),
                ("right"@, encode_expr(right)),
            ],
        ),
        CondModel::And { operands } => JsonModel::Object(
            seq![
                ("type"@, JsonModel::String("and"@)),
                ("operands"@, JsonModel::List(encode_conds(operands, operands.len()))),
            ],
        ),
        CondModel::Or { operands } => JsonModel::Object(
            seq![
                ("type"@, JsonModel::String("or"@)),
                ("operands"@, JsonModel::List(encode_conds(operands, operands.len()))),
            ],
        ),
        CondModel::Not { operand } => JsonModel::Object(
            seq![("type"@, JsonModel::String("not"@)), ("operand"@, encode_cond(*operand))],
        ),
    }
}

/// The document form of an optional text.
pub open spec fn encode_text(s: Option<Seq<char>>) -> Option<JsonModel> {
    match s {
        Some(s) => Some(JsonModel::String(s)),
        None => None,
    }
}

/// The document form of an optional binary64 number.
pub open spec fn encode_float(bits: Option<u64>) -> Option<JsonModel> {
    match bits {
        Some(bits) => Some(JsonModel::Number(crate::value::Number::Float(bits))),
        None => None,
    }
}

/// The list of the texts as strings.
pub open spec fn encode_strings(tags: Seq<Seq<char>>) -> Seq<JsonModel> {
    Seq::new(tags.len(), |i: int| JsonModel::String(tags[i]))
}

/// The document forms of the first `n` actions.
pub open spec fn encode_actions(actions: Seq<ActionModel>, n: nat) -> Seq<JsonModel>
    decreases actions, n,
{
    if n == 0 || n > actions.len() {
        Seq::empty()
    } else {
        encode_actions(actions, (n - 1) as nat).push(encode_action(actions[n - 1]))
    }
}

/// The document form of an optional sequence of actions.
pub open spec fn encode_block(actions: Option<Seq<ActionModel>>) -> Option<JsonModel>
    decreases actions, 1nat,
{
    match actions {
        Some(actions) => Some(JsonModel::List(encode_actions(actions, actions.len()))),
        None => None,
    }
}

/// The entries of the document form of an action: `actor`, `op` and
/// `target`, then each optional field that the action has, in the order
/// `t`, `dur`, `params`, `pre`, `post`, `effects`, `condition`, `then`,
/// `else`, `body`, `var`, `from`, `to`.
pub open spec fn action_entries(a: ActionModel) -> Seq<(Seq<char>, JsonModel)>
    decreases a, 0nat,
{
    let required = seq![
        ("actor"@, JsonModel::String(a.actor)),
        ("op"@, encode_operation(a.op)),
        ("target"@, JsonModel::String(a.target)),
    ];
    let timed = with_field(with_field(required, "t"@, encode_float(a.t)), "dur"@, encode_float(a.dur));
    let described = with_field(
        with_field(
            with_field(
                with_field(
                    timed,
                    "params"@,
                    match a.params {
                        Some(entries) => Some(JsonModel::Object(entries)),
                        None => None,
                    },
                ),
                "pre"@,
                encode_text(a.pre),
            ),
            "post"@,
            encode_text(a.post),
        ),
        "effects"@,
        match a.effects {
            Some(tags) => Some(JsonModel::List(encode_strings(tags))),
            None => None,
        },
    );
    let branched = with_field(
        with_field(
            with_field(
                with_field(
                    described,
                    "condition"@,
                    match a.condition {
                        Some(c) => Some(encode_cond(c)),
                        None => None,
                    },
                ),
                "then"@,
                encode_block(a.then_actions),
            ),
            "else"@,
            encode_block(a.else_actions),
        ),
        "body"@,
        encode_block(a.body_actions),
    );
    with_field(
        with_field(
            with_field(branched, "var"@, encode_text(a.loop_var)),
            "from"@,
            match a.from_expr {
                Some(e) => Some(encode_expr(e)),
                None => None,
            },
        ),
        "to"@,
        match a.to_expr {
            Some(e) => Some(encode_expr(e)),
            None => None,
        },
    )
}

/// The document form of an action.
pub open spec fn encode_action(a: ActionModel) -> JsonModel
    decreases a, 1nat,
{
    JsonModel::Object(action_entries(a))
}

/// The document form of a program.
pub open spec fn encode_program(p: ProgramModel) -> JsonModel {
    JsonModel::Object(
        with_field(
            Seq::empty(),
            "metadata"@,
            match p.metadata {
                Some(entries) => Some(JsonModel::Object(entries)),
                None => None,
            },
        ).push(("actions"@, JsonModel::List(encode_actions(p.actions, p.actions.len())))),
    )
}

/// The model of an optional value.
pub open spec fn owned_view(v: Option<Value>) -> Option<JsonModel> {
    match v {
        Some(v) => Some(v@),
        None => None,
    }
}

/// Adds an entry under `key` where there is a value for it.
pub fn push_field(entries: &mut Vec<(String, Value)>, key: &str, value: Option<Value>)
    ensures
        entries_view(final(entries)@) == with_field(
            entries_view(old(entries)@),
            key@,
            owned_view(value),
        ),
{
    match value {
        Some(v) => {
            let ghost before = entries_view(entries@);
            entries.push((String::from_str(key), v));
            assert(entries_view(entries@) =~= before.push((key@, v@)));
        },
        None => {},
    }
}

/// An object of the given entries.
pub fn object_of(entries: Vec<(String, Value)>) -> (r: Value)
    ensures
        r@ == JsonModel::Object(entries_view(entries@)),
{
    proof {
        lemma_view_object(entries);
    }
    Value::Object(entries)
}

/// A list of the given items.
pub fn list_of(items: Vec<Value>) -> (r: Value)
    ensures
        r@ == JsonModel::List(items_view(items@)),
{
    proof {
        lemma_view_list(items);
    }
    Value::List(items)
}

/// A string value of the given text.
pub fn string_of(s: &str) -> (r: Value)
    ensures
        r@ == JsonModel::String(s@),
{
    Value::String(String::from_str(s))
}

/// Adds an entry under `key`.
pub fn push_entry(entries: &mut Vec<(String, Value)>, key: &str, value: Value)
    ensures
        entries_view(final(entries)@) == entries_view(old(entries)@).push((key@, value@)),
{
    let ghost before = entries_view(entries@);
    entries.push((String::from_str(key), value));
    assert(entries_view(entries@) =~= before.push((key@, value@)));
}

/// Adds an item to a list of values.
pub fn push_item(items: &mut Vec<Value>, value: Value)
    ensures
        items_view(final(items)@) == items_view(old(items)@).push(value@),
{
    let ghost before = items_view(items@);
    items.push(value);
    assert(items_view(items@) =~= before.push(value@));
}

/// No entries.
pub fn no_entries() -> (r: Vec<(String, Value)>)
    ensures
        r.len() == 0,
        entries_view(r@) == Seq::<(Seq<char>, JsonModel)>::empty(),
{
    let r: Vec<(String, Value)> = Vec::new();
    assert(entries_view(r@) =~= Seq::empty());
    r
}

/// No items.
pub fn no_items() -> (r: Vec<Value>)
    ensures
        r.len() == 0,
        items_view(r@) == Seq::<JsonModel>::empty(),
{
    let r: Vec<Value> = Vec::new();
    assert(items_view(r@) =~= Seq::empty());
    r
}

impl Operation {
    /// The document form of the operation.
    pub fn to_value(&self) -> (r: Value)
        ensures
            r@ == encode_operation(self@),
    {
        match self {
            Operation::Custom(name) => {
                let mut entries = no_entries();
                push_entry(&mut entries, "Custom", string_of(name.as_str()));
                object_of(entries)
            },
            _ => Value::String(self.name()),
        }
    }
}

/// The document forms of named arguments, under their names.
pub fn args_to_entries(args: &Vec<(String, Expression)>) -> (r: Vec<(String, Value)>)
    ensures
        entries_view(r@) == encode_args(args_view(args@), args.len() as nat),
    decreases args,
{
    let ghost av = args_view(args@);
    let mut out = no_entries();
    let mut i: usize = 0;
    while i < args.len()
        invariant
            i <= args.len(),
            av == args_view(args@),
            entries_view(out@) == encode_args(av, i as nat),
        decreases args.len() - i,
    {
        proof {
            assert(encode_args(av, (i + 1) as nat) == encode_args(av, i as nat).push(
                (av[i as int].0, encode_expr(av[i as int].1)),
            ));
        }
        let v = args[i].1.to_value();
        push_entry(&mut out, args[i].0.as_str(), v);
        i += 1;
    }
    out
}

impl Expression {
    /// The document form of the expression.
    pub fn to_value(&self) -> (r: Value)
        ensures
            r@ == encode_expr(self@),
        decreases self,
    {
        match self {
            Expression::Value(v) => v.clone(),
            Expression::Variable { var } => {
                let mut entries = no_entries();
                push_entry(&mut entries, "var", string_of(var.as_str()));
                object_of(entries)
            },
            Expression::BinaryOp { expr: operation } => {
                let mut inner = no_entries();
                push_entry(&mut inner, "op", string_of(operation.op.as_str()));
                push_entry(&mut inner, "left", operation.left.to_value());
                push_entry(&mut inner, "right", operation.right.to_value());
                assert(entries_view(inner@) =~= seq![
                    ("op"@, JsonModel::String(operation.op@)),
                    ("left"@, encode_expr(operation.left@)),
                    ("right"@, encode_expr(operation.right@)),
                ]);
                let mut entries = no_entries();
                push_entry(&mut entries, "expr", object_of(inner));
                assert(entries_view(entries@) =~= seq![
                    ("expr"@, JsonModel::Object(entries_view(inner@))),
                ]);
                object_of(entries)
            },
            Expression::FunctionCall { call, args } => {
                proof {
                    lemma_view_call(*call, *args);
                }
                let mut entries = no_entries();
                push_entry(&mut entries, "call", string_of(call.as_str()));
                push_entry(&mut entries, "args", object_of(args_to_entries(args)));
                let r = object_of(entries);
                assert(r@->Object_0 =~= encode_expr(self@)->Object_0);
                r
            },
        }
    }
}

/// The document forms of the operands of a conjunction or disjunction.
pub fn conds_to_items(operands: &Vec<Condition>) -> (r: Vec<Value>)
    ensures
        items_view(r@) == encode_conds(conds_view(operands@), operands.len() as nat),
    decreases operands,
{
    let ghost cv = conds_view(operands@);
    let mut out = no_items();
    let mut i: usize = 0;
    while i < operands.len()
        invariant
            i <= operands.len(),
            cv == conds_view(operands@),
            items_view(out@) == encode_conds(cv, i as nat),
        decreases operands.len() - i,
    {
        proof {
            assert(encode_conds(cv, (i + 1) as nat) == encode_conds(cv, i as nat).push(
                encode_cond(cv[i as int]),
            ));
        }
        push_item(&mut out, operands[i].to_value());
        i += 1;
    }
    out
}

impl Condition {
    /// The document form of the condition.
    pub fn to_value(&self) -> (r: Value)
        ensures
            r@ == encode_cond(self@),
        decreases self,
    {
        let mut entries = no_entries();
        match self {
            Condition::Comparison { op, left, right } => {
                push_entry(&mut entries, "type", string_of("comparison"));
                push_entry(&mut entries, "op", string_of(op.name()));
                push_entry(&mut entries, "left", left.to_value());
                push_entry(&mut entries, "right", right.to_value());
            },
            Condition::And { operands } => {
                proof {
                    lemma_view_operands(*operands);
                }
                push_entry(&mut entries, "type", string_of("and"));
                push_entry(&mut entries, "operands", list_of(conds_to_items(operands)));
            },
            Condition::Or { operands } => {
                proof {
                    lemma_view_operands(*operands);
                }
                push_entry(&mut entries, "type", string_of("or"));
                push_entry(&mut entries, "operands", list_of(conds_to_items(operands)));
            },
            Condition::Not { operand } => {
                let inner: &Condition = &**operand;
                push_entry(&mut entries, "type", string_of("not"));
                push_entry(&mut entries, "operand", inner.to_value());
            },
        }
        let r = object_of(entries);
        assert(r@->Object_0 =~= encode_cond(self@)->Object_0);
        r
    }
}

/// The document forms of a sequence of actions.
pub fn actions_to_items(actions: &Vec<Action>) -> (r: Vec<Value>)
    ensures
        items_view(r@) == encode_actions(actions_view(actions@), actions.len() as nat),
    decreases actions,
{
    let ghost av = actions_view(actions@);
    let mut out = no_items();
    let mut i: usize = 0;
    while i < actions.len()
        invariant
            i <= actions.len(),
            av == actions_view(actions@),
            items_view(out@) == encode_actions(av, i as nat),
        decreases actions.len() - i,
    {
        proof {
            assert(encode_actions(av, (i + 1) as nat) == encode_actions(av, i as nat).push(
                encode_action(av[i as int]),
            ));
        }
        push_item(&mut out, actions[i].to_value());
        i += 1;
    }
    out
}

/// The document form of an optional sequence of actions.
pub fn block_to_value(actions: &Option<Vec<Action>>) -> (r: Option<Value>)
    ensures
        owned_view(r) == encode_block(block_view(*actions)),
    decreases actions,
{
    match actions {
        Some(actions) => Some(list_of(actions_to_items(actions))),
        None => None,
    }
}

/// The document form of an optional text.
pub fn text_to_value(s: &Option<String>) -> (r: Option<Value>)
    ensures
        owned_view(r) == encode_text(crate::ast::text_view(*s)),
{
    match s {
        Some(s) => Some(string_of(s.as_str())),
        None => None,
    }
}

/// The document form of an optional binary64 number.
pub fn float_to_value(bits: Option<u64>) -> (r: Option<Value>)
    ensures
        owned_view(r) == encode_float(bits),
{
    match bits {
        Some(bits) => Some(Value::Number(crate::value::Number::Float(bits))),
        None => None,
    }
}

/// The list of the strings as values.
pub fn strings_to_items(tags: &Vec<String>) -> (r: Vec<Value>)
    ensures
        items_view(r@) == encode_strings(texts_view(tags@)),
{
    let mut out = no_items();
    let mut i: usize = 0;
    while i < tags.len()
        invariant
            i <= tags.len(),
            out.len() == i,
            forall|j: int| 0 <= j < i ==> out[j]@ == JsonModel::String(tags[j]@),
        decreases tags.len() - i,
    {
        out.push(string_of(tags[i].as_str()));
        i += 1;
    }
    assert(items_view(out@) =~= encode_strings(texts_view(tags@)));
    out
}

impl Action {
    /// The document form of the action.
    pub fn to_value(&self) -> (r: Value)
        ensures
            r@ == encode_action(self@),
        decreases self,
    {
        proof {
            lemma_view_action(*self);
        }
        let mut entries = no_entries();
        push_entry(&mut entries, "actor", string_of(self.actor.as_str()));
        push_entry(&mut entries, "op", self.op.to_value());
        push_entry(&mut entries, "target", string_of(self.target.as_str()));
        assert(entries_view(entries@) =~= seq![
            ("actor"@, JsonModel::String(self@.actor)),
            ("op"@, encode_operation(self@.op)),
            ("target"@, JsonModel::String(self@.target)),
        ]);
        push_field(&mut entries, "t", float_to_value(self.t));
        push_field(&mut entries, "dur", float_to_value(self.dur));
        push_field(
            &mut entries,
            "params",
            match &self.params {
                Some(p) => Some(object_of(clone_entries(p))),
                None => None,
            },
        );
        push_field(&mut entries, "pre", text_to_value(&self.pre));
        push_field(&mut entries, "post", text_to_value(&self.post));
        push_field(
            &mut entries,
            "effects",
            match &self.effects {
                Some(tags) => Some(list_of(strings_to_items(tags))),
                None => None,
            },
        );
        push_field(
            &mut entries,
            "condition",
            match &self.condition {
                Some(c) => Some(c.to_value()),
                None => None,
            },
        );
        push_field(&mut entries, "then", block_to_value(&self.then_actions));
        push_field(&mut entries, "else", block_to_value(&self.else_actions));
        push_field(&mut entries, "body", block_to_value(&self.body_actions));
        push_field(&mut entries, "var", text_to_value(&self.loop_var));
        push_field(
            &mut entries,
            "from",
            match &self.from_expr {
                Some(e) => Some(e.to_value()),
                None => None,
            },
        );
        push_field(
            &mut entries,
            "to",
            match &self.to_expr {
                Some(e) => Some(e.to_value()),
                None => None,
            },
        );
        object_of(entries)
    }
}

impl Program {
    /// The document form of the program.
    pub fn to_value(&self) -> (r: Value)
        ensures
            r@ == encode_program(self@),
    {
        let mut entries = no_entries();
        push_field(
            &mut entries,
            "metadata",
            match &self.metadata {
                Some(m) => Some(object_of(clone_entries(m))),
                None => None,
            },
        );
        push_entry(&mut entries, "actions", list_of(actions_to_items(&self.actions)));
        object_of(entries)
    }
}

} // verus!
