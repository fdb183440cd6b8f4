//! The document form reads back. Every well-formed program that is written
//! as a value is read from that value as a program of the same structure,
//! which [`reread_program`] gives exactly. It is the program that was written
//! where no literal has the form of a variable, an operation or a call.

use crate::ast::{ActionModel, ComparisonOp, CondModel, ExprModel, OperationModel, ProgramModel};
use crate::document::{
    action_entries, comparison_name, comparison_named, decode_action, decode_actions, decode_args,
    body_decodes, carries_required, decode_block, decode_bound, decode_call, decode_cond, decode_conds, decode_expr, decode_guard,
    decode_operation, decode_program, decode_strings, decode_tags, encode_action, encode_actions,
    encode_args, encode_block, encode_cond, encode_conds, encode_expr, encode_float,
    encode_operation, encode_program, encode_strings, encode_text, operation_name,
    operation_named, optional, present, with_field,
};
use crate::semantics::defined_function;
use crate::table::{lemma_first_match, lemma_no_match};
use crate::value::{find_from, lemma_find_from, lookup, JsonModel};
use vstd::prelude::*;

verus! {

/// The character of a text at a position, or a blank where the text has no
/// such position.
pub open spec fn char_at(s: Seq<char>, i: int) -> char {
    if 0 <= i < s.len() {
        s[i]
    } else {
        ' '
    }
}

/// Marks by which two texts can be told apart: the length, the first three
/// characters and the last.
pub open spec fn mark(s: Seq<char>) -> (nat, char, char, char, char) {
    (s.len(), char_at(s, 0), char_at(s, 1), char_at(s, 2), char_at(s, s.len() - 1))
}

/// The names of the operations have marks as their letters give them.
proof fn lemma_operation_marks()
    ensures
        mark("Create"@) == (6nat, 'C', 'r', 'e', 'e'),
        mark("Read"@) == (4nat, 'R', 'e', 'a', 'd'),
        mark("Write"@) == (5nat, 'W', 'r', 'i', 'e'),
        mark("Delete"@) == (6nat, 'D', 'e', 'l', 'e'),
        mark("Bind"@) == (4nat, 'B', 'i', 'n', 'd'),
        mark("Unbind"@) == (6nat, 'U', 'n', 'b', 'd'),
        mark("Emit"@) == (4nat, 'E', 'm', 'i', 't'),
        mark("Receive"@) == (7nat, 'R', 'e', 'c', 'e'),
        mark("Measure"@) == (7nat, 'M', 'e', 'a', 'e'),
        mark("Decide"@) == (6nat, 'D', 'e', 'c', 'e'),
        mark("Wait"@) == (4nat, 'W', 'a', 'i', 't'),
        mark("Assert"@) == (6nat, 'A', 's', 's', 't'),
        mark("StoreFact"@) == (9nat, 'S', 't', 'o', 't'),
        mark("Oblige"@) == (6nat, 'O', 'b', 'l', 'e'),
        mark("Permit"@) == (6nat, 'P', 'e', 'r', 't'),
        mark("Remedy"@) == (6nat, 'R', 'e', 'm', 'y'),
        mark("Transcribe"@) == (10nat, 'T', 'r', 'a', 'e'),
        mark("Translate"@) == (9nat, 'T', 'r', 'a', 'e'),
        mark("Express"@) == (7nat, 'E', 'x', 'p', 's'),
        mark("Call"@) == (4nat, 'C', 'a', 'l', 'l'),
        mark("Assign"@) == (6nat, 'A', 's', 's', 'n'),
        mark("Return"@) == (6nat, 'R', 'e', 't', 'n'),
        mark("GenRandomInt"@) == (12nat, 'G', 'e', 'n', 't'),
        mark("If"@) == (2nat, 'I', 'f', ' ', 'f'),
        mark("While"@) == (5nat, 'W', 'h', 'i', 'e'),
        mark("For"@) == (3nat, 'F', 'o', 'r', 'r'),
        mark("DefineFunction"@) == (14nat, 'D', 'e', 'f', 'n'),
        mark("Gather"@) == (6nat, 'G', 'a', 't', 'r'),
        mark("Heat"@) == (4nat, 'H', 'e', 'a', 't'),
        mark("Pour"@) == (4nat, 'P', 'o', 'u', 'r'),
        mark("Mix"@) == (3nat, 'M', 'i', 'x', 'x'),
        mark("Stir"@) == (4nat, 'S', 't', 'i', 'r'),
        mark("Place"@) == (5nat, 'P', 'l', 'a', 'e'),
        mark("Remove"@) == (6nat, 'R', 'e', 'm', 'e'),
        mark("Steep"@) == (5nat, 'S', 't', 'e', 'p'),
        mark("Serve"@) == (5nat, 'S', 'e', 'r', 'e'),
        mark("Generate"@) == (8nat, 'G', 'e', 'n', 'e'),
        mark("Parse"@) == (5nat, 'P', 'a', 'r', 'e'),
        mark("Execute"@) == (7nat, 'E', 'x', 'e', 'e'),
        mark("Flurble"@) == (7nat, 'F', 'l', 'u', 'e'),
        mark("Grok"@) == (4nat, 'G', 'r', 'o', 'k'),
        mark("Defenestrate"@) == (12nat, 'D', 'e', 'f', 'e'),
{
    reveal_strlit("Create");
    reveal_strlit("Read");
    reveal_strlit("Write");
    reveal_strlit("Delete");
    reveal_strlit("Bind");
    reveal_strlit("Unbind");
    reveal_strlit("Emit");
    reveal_strlit("Receive");
    reveal_strlit("Measure");
    reveal_strlit("Decide");
    reveal_strlit("Wait");
    reveal_strlit("Assert");
    reveal_strlit("StoreFact");
    reveal_strlit("Oblige");
    reveal_strlit("Permit");
    reveal_strlit("Remedy");
    reveal_strlit("Transcribe");
    reveal_strlit("Translate");
    reveal_strlit("Express");
    reveal_strlit("Call");
    reveal_strlit("Assign");
    reveal_strlit("Return");
    reveal_strlit("GenRandomInt");
    reveal_strlit("If");
    reveal_strlit("While");
    reveal_strlit("For");
    reveal_strlit("DefineFunction");
    reveal_strlit("Gather");
    reveal_strlit("Heat");
    reveal_strlit("Pour");
    reveal_strlit("Mix");
    reveal_strlit("Stir");
    reveal_strlit("Place");
    reveal_strlit("Remove");
    reveal_strlit("Steep");
    reveal_strlit("Serve");
    reveal_strlit("Generate");
    reveal_strlit("Parse");
    reveal_strlit("Execute");
    reveal_strlit("Flurble");
    reveal_strlit("Grok");
    reveal_strlit("Defenestrate");
}

/// An operation that is written by its name is read as itself.
proof fn lemma_operation_named(op: OperationModel)
    requires
        !(op is Custom),
    ensures
        operation_named(operation_name(op)) == Some(op),
{
    lemma_operation_marks();
}

/// The keys and tags of the document form have marks as their letters give
/// them.
pub proof fn lemma_key_marks()
    ensures
        mark("actor"@) == (5nat, 'a', 'c', 't', 'r'),
        mark("op"@) == (2nat, 'o', 'p', ' ', 'p'),
        mark("target"@) == (6nat, 't', 'a', 'r', 't'),
        mark("t"@) == (1nat, 't', ' ', ' ', 't'),
        mark("dur"@) == (3nat, 'd', 'u', 'r', 'r'),
        mark("params"@) == (6nat, 'p', 'a', 'r', 's'),
        mark("pre"@) == (3nat, 'p', 'r', 'e', 'e'),
        mark("post"@) == (4nat, 'p', 'o', 's', 't'),
        mark("effects"@) == (7nat, 'e', 'f', 'f', 's'),
        mark("condition"@) == (9nat, 'c', 'o', 'n', 'n'),
        mark("then"@) == (4nat, 't', 'h', 'e', 'n'),
        mark("else"@) == (4nat, 'e', 'l', 's', 'e'),
        mark("body"@) == (4nat, 'b', 'o', 'd', 'y'),
        mark("var"@) == (3nat, 'v', 'a', 'r', 'r'),
        mark("from"@) == (4nat, 'f', 'r', 'o', 'm'),
        mark("to"@) == (2nat, 't', 'o', ' ', 'o'),
        mark("metadata"@) == (8nat, 'm', 'e', 't', 'a'),
        mark("actions"@) == (7nat, 'a', 'c', 't', 's'),
        mark("expr"@) == (4nat, 'e', 'x', 'p', 'r'),
        mark("call"@) == (4nat, 'c', 'a', 'l', 'l'),
        mark("args"@) == (4nat, 'a', 'r', 'g', 's'),
        mark("left"@) == (4nat, 'l', 'e', 'f', 't'),
        mark("right"@) == (5nat, 'r', 'i', 'g', 't'),
        mark("type"@) == (4nat, 't', 'y', 'p', 'e'),
        mark("operands"@) == (8nat, 'o', 'p', 'e', 's'),
        mark("operand"@) == (7nat, 'o', 'p', 'e', 'd'),
        mark("Custom"@) == (6nat, 'C', 'u', 's', 'm'),
        mark("comparison"@) == (10nat, 'c', 'o', 'm', 'n'),
        mark("and"@) == (3nat, 'a', 'n', 'd', 'd'),
        mark("or"@) == (2nat, 'o', 'r', ' ', 'r'),
        mark("not"@) == (3nat, 'n', 'o', 't', 't'),
        mark("=="@) == (2nat, '=', '=', ' ', '='),
        mark("!="@) == (2nat, '!', '=', ' ', '='),
        mark("<"@) == (1nat, '<', ' ', ' ', '<'),
        mark("<="@) == (2nat, '<', '=', ' ', '='),
        mark(">"@) == (1nat, '>', ' ', ' ', '>'),
        mark(">="@) == (2nat, '>', '=', ' ', '='),
{
    reveal_strlit("actor");
    reveal_strlit("op");
    reveal_strlit("target");
    reveal_strlit("t");
    reveal_strlit("dur");
    reveal_strlit("params");
    reveal_strlit("pre");
    reveal_strlit("post");
    reveal_strlit("effects");
    reveal_strlit("condition");
    reveal_strlit("then");
    reveal_strlit("else");
    reveal_strlit("body");
    reveal_strlit("var");
    reveal_strlit("from");
    reveal_strlit("to");
    reveal_strlit("metadata");
    reveal_strlit("actions");
    reveal_strlit("expr");
    reveal_strlit("call");
    reveal_strlit("args");
    reveal_strlit("left");
    reveal_strlit("right");
    reveal_strlit("type");
    reveal_strlit("operands");
    reveal_strlit("operand");
    reveal_strlit("Custom");
    reveal_strlit("comparison");
    reveal_strlit("and");
    reveal_strlit("or");
    reveal_strlit("not");
    reveal_strlit("==");
    reveal_strlit("!=");
    reveal_strlit("<");
    reveal_strlit("<=");
    reveal_strlit(">");
    reveal_strlit(">=");
}

/// An operation that is written is read as itself.
proof fn lemma_operation(op: OperationModel)
    ensures
        decode_operation(encode_operation(op)) == Some(op),
{
    match op {
        OperationModel::Custom(name) => {
            let entries = seq![("Custom"@, JsonModel::String(name))];
            lemma_first_match(entries, "Custom"@, 0);
        },
        _ => {
            lemma_operation_named(op);
        },
    }
}

/// A comparison that is written by its sign is read as itself.
proof fn lemma_comparison(op: ComparisonOp)
    ensures
        comparison_named(comparison_name(op)) == Some(op),
{
    lemma_key_marks();
}

/// An expression reads back where each of its literals does: where none
/// has the form of a variable, an operation or a call.
pub open spec fn expr_reads_back(e: ExprModel) -> bool
    decreases e,
{
    match e {
        ExprModel::Value(v) => decode_expr(v) == ExprModel::Value(v),
        ExprModel::Variable { var } => true,
        ExprModel::BinaryOp { op, left, right } => expr_reads_back(*left) && expr_reads_back(
            *right,
        ),
        ExprModel::FunctionCall { call, args } => forall|i: int|
            0 <= i < args.len() ==> expr_reads_back(#[trigger] args[i].1),
    }
}

/// A condition reads back where its expressions do.
pub open spec fn cond_reads_back(c: CondModel) -> bool
    decreases c,
{
    match c {
        CondModel::Comparison { op, left, right } => expr_reads_back(left) && expr_reads_back(
            right,
        ),
        CondModel::And { operands } => forall|i: int|
            0 <= i < operands.len() ==> cond_reads_back(#[trigger] operands[i]),
        CondModel::Or { operands } => forall|i: int|
            0 <= i < operands.len() ==> cond_reads_back(#[trigger] operands[i]),
        CondModel::Not { operand } => cond_reads_back(*operand),
    }
}

/// A bound of a `For` reads back where it does as an expression.
pub open spec fn bound_reads_back(e: Option<ExprModel>) -> bool {
    match e {
        Some(e) => expr_reads_back(e),
        None => true,
    }
}

/// The actions of an optional sequence all read back.
pub open spec fn block_reads_back(actions: Option<Seq<ActionModel>>) -> bool
    decreases actions, 1nat,
{
    match actions {
        Some(actions) => forall|i: int|
            0 <= i < actions.len() ==> action_reads_back(#[trigger] actions[i]),
        None => true,
    }
}

/// An action reads back where its condition, its bounds and its nested
/// actions do.
pub open spec fn action_reads_back(a: ActionModel) -> bool
    decreases a, 0nat,
{
    &&& match a.condition {
        Some(c) => cond_reads_back(c),
        None => true,
    }
    &&& bound_reads_back(a.from_expr)
    &&& bound_reads_back(a.to_expr)
    &&& block_reads_back(a.then_actions)
    &&& block_reads_back(a.else_actions)
    &&& block_reads_back(a.body_actions)
}

/// A program reads back where its actions do.
pub open spec fn program_reads_back(p: ProgramModel) -> bool {
    forall|i: int| 0 <= i < p.actions.len() ==> action_reads_back(#[trigger] p.actions[i])
}

/// The actions of an optional sequence are all well formed.
pub open spec fn block_well_formed(actions: Option<Seq<ActionModel>>) -> bool
    decreases actions, 1nat,
{
    match actions {
        Some(actions) => forall|i: int|
            0 <= i < actions.len() ==> action_well_formed(#[trigger] actions[i]),
        None => true,
    }
}

/// An action is well formed where it carries what its operation requires,
/// a `DefineFunction` defines a function, and every action nested in it is
/// well formed.
pub open spec fn action_well_formed(a: ActionModel) -> bool
    decreases a, 0nat,
{
    &&& carries_required(a)
    &&& a.op is DefineFunction ==> defined_function(a) is Some
    &&& block_well_formed(a.then_actions)
    &&& block_well_formed(a.else_actions)
    &&& block_well_formed(a.body_actions)
}

/// A program is well formed where its actions are.
pub open spec fn program_well_formed(p: ProgramModel) -> bool {
    forall|i: int| 0 <= i < p.actions.len() ==> action_well_formed(#[trigger] p.actions[i])
}

/// The first `n` named arguments as they are read once written.
pub open spec fn reread_args(args: Seq<(Seq<char>, ExprModel)>, n: nat) -> Seq<
    (Seq<char>, ExprModel),
>
    decreases args, n,
{
    if n == 0 || n > args.len() {
        Seq::empty()
    } else {
        reread_args(args, (n - 1) as nat).push((args[n - 1].0, reread_expr(args[n - 1].1)))
    }
}

/// An expression as it is read once written: the same expression, but that
/// a literal which has the form of a variable, an operation or a call is
/// read as that.
pub open spec fn reread_expr(e: ExprModel) -> ExprModel
    decreases e, 0nat,
{
    match e {
        ExprModel::Value(v) => decode_expr(v),
        ExprModel::Variable { var } => e,
        ExprModel::BinaryOp { op, left, right } => ExprModel::BinaryOp {
            op,
            left: Box::new(reread_expr(*left)),
            right: Box::new(reread_expr(*right)),
        },
        ExprModel::FunctionCall { call, args } => ExprModel::FunctionCall {
            call,
            args: reread_args(args, args.len()),
        },
    }
}

/// The first `n` operands as they are read once written.
pub open spec fn reread_conds(operands: Seq<CondModel>, n: nat) -> Seq<CondModel>
    decreases operands, n,
{
    if n == 0 || n > operands.len() {
        Seq::empty()
    } else {
        reread_conds(operands, (n - 1) as nat).push(reread_cond(operands[n - 1]))
    }
}

/// A condition as it is read once written: the same condition over its
/// expressions as they are read.
pub open spec fn reread_cond(c: CondModel) -> CondModel
    decreases c, 0nat,
{
    match c {
        CondModel::Comparison { op, left, right } => CondModel::Comparison {
            op,
            left: reread_expr(left),
            right: reread_expr(right),
        },
        CondModel::And { operands } => CondModel::And {
            operands: reread_conds(operands, operands.len()),
        },
        CondModel::Or { operands } => CondModel::Or {
            operands: reread_conds(operands, operands.len()),
        },
        CondModel::Not { operand } => CondModel::Not { operand: Box::new(reread_cond(*operand)) },
    }
}

/// An optional condition as it is read once written.
pub open spec fn reread_guard(c: Option<CondModel>) -> Option<CondModel> {
    match c {
        Some(c) => Some(reread_cond(c)),
        None => None,
    }
}

/// An optional bound as it is read once written.
pub open spec fn reread_bound(e: Option<ExprModel>) -> Option<ExprModel> {
    match e {
        Some(e) => Some(reread_expr(e)),
        None => None,
    }
}

/// The first `n` actions as they are read once written.
pub open spec fn reread_actions(actions: Seq<ActionModel>, n: nat) -> Seq<ActionModel>
    decreases actions, n,
{
    if n == 0 || n > actions.len() {
        Seq::empty()
    } else {
        reread_actions(actions, (n - 1) as nat).push(reread_action(actions[n - 1]))
    }
}

/// An optional sequence of actions as it is read once written.
pub open spec fn reread_block(actions: Option<Seq<ActionModel>>) -> Option<Seq<ActionModel>>
    decreases actions, 1nat,
{
    match actions {
        Some(actions) => Some(reread_actions(actions, actions.len())),
        None => None,
    }
}

/// An action as it is read once written: the same actor, operation, target,
/// times, parameters, texts and tags, with its condition, its bounds and its
/// nested actions as they are read.
pub open spec fn reread_action(a: ActionModel) -> ActionModel
    decreases a, 0nat,
{
    ActionModel {
        condition: reread_guard(a.condition),
        then_actions: reread_block(a.then_actions),
        else_actions: reread_block(a.else_actions),
        body_actions: reread_block(a.body_actions),
        from_expr: reread_bound(a.from_expr),
        to_expr: reread_bound(a.to_expr),
        ..a
    }
}

/// A program as it is read once written.
pub open spec fn reread_program(p: ProgramModel) -> ProgramModel {
    ProgramModel { actions: reread_actions(p.actions, p.actions.len()), ..p }
}

/// The document forms of named arguments stand at the positions of the
/// arguments, under their names.
proof fn lemma_encode_args(args: Seq<(Seq<char>, ExprModel)>, n: nat)
    requires
        n <= args.len(),
    ensures
        encode_args(args, n).len() == n,
        forall|i: int|
            0 <= i < n ==> #[trigger] encode_args(args, n)[i] == (
                args[i].0,
                encode_expr(args[i].1),
            ),
    decreases n,
{
    if n > 0 {
        lemma_encode_args(args, (n - 1) as nat);
    }
}

/// What is read from written named arguments.
proof fn lemma_args(args: Seq<(Seq<char>, ExprModel)>, n: nat)
    requires
        n <= args.len(),
    ensures
        decode_args(encode_args(args, args.len()), n) == reread_args(args, n),
    decreases args, n,
{
    lemma_encode_args(args, args.len());
    if n > 0 {
        lemma_args(args, (n - 1) as nat);
        lemma_expr(args[n - 1].1);
    }
}

/// What is read from a written expression.
pub proof fn lemma_expr(e: ExprModel)
    ensures
        decode_expr(encode_expr(e)) == reread_expr(e),
    decreases e, 0nat,
{
    lemma_key_marks();
    match e {
        ExprModel::Value(v) => {},
        ExprModel::Variable { var } => {
            let entries = seq![("var"@, JsonModel::String(var))];
            lemma_first_match(entries, "var"@, 0);
        },
        ExprModel::BinaryOp { op, left, right } => {
            lemma_expr(*left);
            lemma_expr(*right);
            let inner = seq![
                ("op"@, JsonModel::String(op)),
                ("left"@, encode_expr(*left)),
                ("right"@, encode_expr(*right)),
            ];
            let entries = seq![("expr"@, JsonModel::Object(inner))];
            lemma_no_match(entries, "var"@);
            lemma_first_match(entries, "expr"@, 0);
            lemma_first_match(inner, "op"@, 0);
            lemma_first_match(inner, "left"@, 1);
            lemma_first_match(inner, "right"@, 2);
            assert(encode_expr(e) == JsonModel::Object(entries));
        },
        ExprModel::FunctionCall { call, args } => {
            let written = encode_args(args, args.len());
            let entries = seq![
                ("call"@, JsonModel::String(call)),
                ("args"@, JsonModel::Object(written)),
            ];
            lemma_no_match(entries, "var"@);
            lemma_no_match(entries, "expr"@);
            lemma_first_match(entries, "call"@, 0);
            lemma_first_match(entries, "args"@, 1);
            lemma_encode_args(args, args.len());
            lemma_args(args, args.len());
            assert(encode_expr(e) == JsonModel::Object(entries));
            assert(decode_expr(JsonModel::Object(entries)) == decode_call(
                JsonModel::Object(entries),
                entries,
            ));
        },
    }
}

/// The document forms of operands stand at the positions of the operands.
proof fn lemma_encode_conds(operands: Seq<CondModel>, n: nat)
    requires
        n <= operands.len(),
    ensures
        encode_conds(operands, n).len() == n,
        forall|i: int|
            0 <= i < n ==> #[trigger] encode_conds(operands, n)[i] == encode_cond(operands[i]),
    decreases n,
{
    if n > 0 {
        lemma_encode_conds(operands, (n - 1) as nat);
    }
}

/// What is read from written operands.
proof fn lemma_conds(operands: Seq<CondModel>, n: nat)
    requires
        n <= operands.len(),
    ensures
        decode_conds(encode_conds(operands, operands.len()), n) == Some(reread_conds(operands, n)),
    decreases operands, n,
{
    lemma_encode_conds(operands, operands.len());
    if n > 0 {
        lemma_conds(operands, (n - 1) as nat);
        lemma_cond(operands[n - 1]);
    }
}

/// What is read from a written condition.
pub proof fn lemma_cond(c: CondModel)
    ensures
        decode_cond(encode_cond(c)) == Some(reread_cond(c)),
    decreases c, 0nat,
{
    lemma_key_marks();
    match c {
        CondModel::Comparison { op, left, right } => {
            lemma_expr(left);
            lemma_expr(right);
            lemma_comparison(op);
            let entries = seq![
                ("type"@, JsonModel::String("comparison"@)),
                ("op"@, JsonModel::String(comparison_name(op))),
                ("left"@, encode_expr(left)),
                ("right"@, encode_expr(right)),
            ];
            lemma_first_match(entries, "type"@, 0);
            lemma_first_match(entries, "op"@, 1);
            lemma_first_match(entries, "left"@, 2);
            lemma_first_match(entries, "right"@, 3);
            assert(encode_cond(c) == JsonModel::Object(entries));
        },
        CondModel::And { operands } => {
            let written = encode_conds(operands, operands.len());
            let entries = seq![
                ("type"@, JsonModel::String("and"@)),
                ("operands"@, JsonModel::List(written)),
            ];
            lemma_first_match(entries, "type"@, 0);
            lemma_first_match(entries, "operands"@, 1);
            lemma_encode_conds(operands, operands.len());
            lemma_conds(operands, operands.len());
            assert(encode_cond(c) == JsonModel::Object(entries));
        },
        CondModel::Or { operands } => {
            let written = encode_conds(operands, operands.len());
            let entries = seq![
                ("type"@, JsonModel::String("or"@)),
                ("operands"@, JsonModel::List(written)),
            ];
            lemma_first_match(entries, "type"@, 0);
            lemma_first_match(entries, "operands"@, 1);
            lemma_encode_conds(operands, operands.len());
            lemma_conds(operands, operands.len());
            assert(encode_cond(c) == JsonModel::Object(entries));
        },
        CondModel::Not { operand } => {
            lemma_cond(*operand);
            let entries = seq![
                ("type"@, JsonModel::String("not"@)),
                ("operand"@, encode_cond(*operand)),
            ];
            lemma_first_match(entries, "type"@, 0);
            lemma_first_match(entries, "operand"@, 1);
            assert(encode_cond(c) == JsonModel::Object(entries));
        },
    }
}

/// Whether an entry list holds `value` under `key`: it finds the key at an
/// entry with that value, or, for no value, does not find the key.
#[verifier::opaque]
pub open spec fn holds(
    entries: Seq<(Seq<char>, JsonModel)>,
    key: Seq<char>,
    value: Option<JsonModel>,
) -> bool {
    match value {
        Some(v) => match find_from(entries, key, 0) {
            Some(i) => 0 <= i < entries.len() && entries[i].1 == v,
            None => false,
        },
        None => find_from(entries, key, 0) is None,
    }
}

/// What adding an optional entry does to an entry list: it holds what it
/// held under every other key, and the new value under the new key if it
/// held none under it.
proof fn lemma_with_field(
    entries: Seq<(Seq<char>, JsonModel)>,
    key: Seq<char>,
    value: Option<JsonModel>,
)
    ensures
        forall|k: Seq<char>, v: Option<JsonModel>|
            (k != key && holds(entries, k, v)) || (k == key && v == value && holds(
                entries,
                key,
                None,
            )) ==> #[trigger] holds(with_field(entries, key, value), k, v),
{
    reveal(holds);
    let after = with_field(entries, key, value);
    assert forall|k: Seq<char>, v: Option<JsonModel>|
        (k != key && holds(entries, k, v)) || (k == key && v == value && holds(
            entries,
            key,
            None,
        )) implies #[trigger] holds(after, k, v) by {
        lemma_find_from(entries, k, 0);
        match find_from(entries, k, 0) {
            Some(i) => {
                lemma_first_match(after, k, i);
            },
            None => {
                if k == key && value is Some {
                    lemma_first_match(after, k, entries.len() as int);
                } else {
                    lemma_no_match(after, k);
                }
            },
        }
    }
}

/// The optional document form of optional parameters.
pub open spec fn encode_params(params: Option<Seq<(Seq<char>, JsonModel)>>) -> Option<JsonModel> {
    match params {
        Some(entries) => Some(JsonModel::Object(entries)),
        None => None,
    }
}

/// The optional document form of optional tags.
pub open spec fn encode_tags(tags: Option<Seq<Seq<char>>>) -> Option<JsonModel> {
    match tags {
        Some(tags) => Some(JsonModel::List(encode_strings(tags))),
        None => None,
    }
}

/// The optional document form of an optional condition.
pub open spec fn encode_guard(c: Option<CondModel>) -> Option<JsonModel> {
    match c {
        Some(c) => Some(encode_cond(c)),
        None => None,
    }
}

/// The optional document form of an optional expression.
pub open spec fn encode_bound(e: Option<ExprModel>) -> Option<JsonModel> {
    match e {
        Some(e) => Some(encode_expr(e)),
        None => None,
    }
}

/// The entries of a written action hold each field under its key.
proof fn lemma_action_entries(a: ActionModel)
    ensures
        holds(action_entries(a), "actor"@, Some(JsonModel::String(a.actor))),
        holds(action_entries(a), "op"@, Some(encode_operation(a.op))),
        holds(action_entries(a), "target"@, Some(JsonModel::String(a.target))),
        holds(action_entries(a), "t"@, encode_float(a.t)),
        holds(action_entries(a), "dur"@, encode_float(a.dur)),
        holds(action_entries(a), "params"@, encode_params(a.params)),
        holds(action_entries(a), "pre"@, encode_text(a.pre)),
        holds(action_entries(a), "post"@, encode_text(a.post)),
        holds(action_entries(a), "effects"@, encode_tags(a.effects)),
        holds(action_entries(a), "condition"@, encode_guard(a.condition)),
        holds(action_entries(a), "then"@, encode_block(a.then_actions)),
        holds(action_entries(a), "else"@, encode_block(a.else_actions)),
        holds(action_entries(a), "body"@, encode_block(a.body_actions)),
        holds(action_entries(a), "var"@, encode_text(a.loop_var)),
        holds(action_entries(a), "from"@, encode_bound(a.from_expr)),
        holds(action_entries(a), "to"@, encode_bound(a.to_expr)),
{
    lemma_key_marks();
    let e0 = seq![
        ("actor"@, JsonModel::String(a.actor)),
        ("op"@, encode_operation(a.op)),
        ("target"@, JsonModel::String(a.target)),
    ];
    let e1 = with_field(e0, "t"@, encode_float(a.t));
    let e2 = with_field(e1, "dur"@, encode_float(a.dur));
    let e3 = with_field(e2, "params"@, encode_params(a.params));
    let e4 = with_field(e3, "pre"@, encode_text(a.pre));
    let e5 = with_field(e4, "post"@, encode_text(a.post));
    let e6 = with_field(e5, "effects"@, encode_tags(a.effects));
    let e7 = with_field(e6, "condition"@, encode_guard(a.condition));
    let e8 = with_field(e7, "then"@, encode_block(a.then_actions));
    let e9 = with_field(e8, "else"@, encode_block(a.else_actions));
    let e10 = with_field(e9, "body"@, encode_block(a.body_actions));
    let e11 = with_field(e10, "var"@, encode_text(a.loop_var));
    let e12 = with_field(e11, "from"@, encode_bound(a.from_expr));
    let e13 = with_field(e12, "to"@, encode_bound(a.to_expr));
    assert(holds(e0, "actor"@, Some(JsonModel::String(a.actor)))) by {
        reveal(holds);
        lemma_first_match(e0, "actor"@, 0);
    }
    assert(holds(e0, "op"@, Some(encode_operation(a.op)))) by {
        reveal(holds);
        lemma_first_match(e0, "op"@, 1);
    }
    assert(holds(e0, "target"@, Some(JsonModel::String(a.target)))) by {
        reveal(holds);
        lemma_first_match(e0, "target"@, 2);
    }
    assert(holds(e0, "t"@, None) && holds(e0, "dur"@, None) && holds(e0, "params"@, None)
        && holds(e0, "pre"@, None) && holds(e0, "post"@, None) && holds(e0, "effects"@, None)
        && holds(e0, "condition"@, None) && holds(e0, "then"@, None) && holds(
        e0,
        "else"@,
        None,
    ) && holds(e0, "body"@, None) && holds(e0, "var"@, None) && holds(e0, "from"@, None)
        && holds(e0, "to"@, None)) by {
        reveal(holds);
        lemma_no_match(e0, "t"@);
        lemma_no_match(e0, "dur"@);
        lemma_no_match(e0, "params"@);
        lemma_no_match(e0, "pre"@);
        lemma_no_match(e0, "post"@);
        lemma_no_match(e0, "effects"@);
        lemma_no_match(e0, "condition"@);
        lemma_no_match(e0, "then"@);
        lemma_no_match(e0, "else"@);
        lemma_no_match(e0, "body"@);
        lemma_no_match(e0, "var"@);
        lemma_no_match(e0, "from"@);
        lemma_no_match(e0, "to"@);
    }
    lemma_with_field(e0, "t"@, encode_float(a.t));
    lemma_with_field(e1, "dur"@, encode_float(a.dur));
    lemma_with_field(e2, "params"@, encode_params(a.params));
    lemma_with_field(e3, "pre"@, encode_text(a.pre));
    lemma_with_field(e4, "post"@, encode_text(a.post));
    lemma_with_field(e5, "effects"@, encode_tags(a.effects));
    lemma_with_field(e6, "condition"@, encode_guard(a.condition));
    lemma_with_field(e7, "then"@, encode_block(a.then_actions));
    lemma_with_field(e8, "else"@, encode_block(a.else_actions));
    lemma_with_field(e9, "body"@, encode_block(a.body_actions));
    lemma_with_field(e10, "var"@, encode_text(a.loop_var));
    lemma_with_field(e11, "from"@, encode_bound(a.from_expr));
    lemma_with_field(e12, "to"@, encode_bound(a.to_expr));
}

/// What an entry list holds under a key is what is looked up under it; a
/// value that is not null is what is under the key as an optional one.
proof fn lemma_holds(entries: Seq<(Seq<char>, JsonModel)>, key: Seq<char>, value: Option<JsonModel>)
    requires
        holds(entries, key, value),
    ensures
        lookup(entries, key) == value,
        !(value == Some(JsonModel::Null)) ==> optional(entries, key) == value,
{
    reveal(holds);
    lemma_find_from(entries, key, 0);
}

/// The document forms of actions stand at the positions of the actions.
proof fn lemma_encode_actions(actions: Seq<ActionModel>, n: nat)
    requires
        n <= actions.len(),
    ensures
        encode_actions(actions, n).len() == n,
        forall|i: int|
            0 <= i < n ==> #[trigger] encode_actions(actions, n)[i] == encode_action(actions[i]),
    decreases n,
{
    if n > 0 {
        lemma_encode_actions(actions, (n - 1) as nat);
    }
}

/// What is read from written actions.
proof fn lemma_actions(actions: Seq<ActionModel>, n: nat)
    requires
        n <= actions.len(),
        forall|i: int| 0 <= i < actions.len() ==> action_well_formed(#[trigger] actions[i]),
    ensures
        decode_actions(encode_actions(actions, actions.len()), n) == Some(
            reread_actions(actions, n),
        ),
    decreases actions, n,
{
    lemma_encode_actions(actions, actions.len());
    if n > 0 {
        lemma_actions(actions, (n - 1) as nat);
        lemma_action(actions[n - 1]);
    }
}

/// A list of texts that is written is read as itself.
proof fn lemma_strings(tags: Seq<Seq<char>>)
    ensures
        decode_strings(encode_strings(tags)) == Some(tags),
{
    let written = encode_strings(tags);
    assert forall|i: int| 0 <= i < written.len() implies #[trigger] written[i] is String by {}
}

/// What is read from an optional sequence of actions that is written under
/// a key.
proof fn lemma_block(
    entries: Seq<(Seq<char>, JsonModel)>,
    key: Seq<char>,
    actions: Option<Seq<ActionModel>>,
)
    requires
        block_well_formed(actions),
        holds(entries, key, encode_block(actions)),
    ensures
        decode_block(entries, key) == Some(reread_block(actions)),
    decreases actions, 2nat,
{
    reveal(holds);
    lemma_find_from(entries, key, 0);
    match actions {
        Some(list) => {
            lemma_actions(list, list.len());
            lemma_encode_actions(list, list.len());
        },
        None => {},
    }
}

/// What is read from a written action.
pub proof fn lemma_action(a: ActionModel)
    requires
        action_well_formed(a),
    ensures
        decode_action(encode_action(a)) == Some(reread_action(a)),
    decreases a, 3nat,
{
    let entries = action_entries(a);
    lemma_action_entries(a);
    lemma_operation(a.op);
    lemma_holds(entries, "actor"@, Some(JsonModel::String(a.actor)));
    lemma_holds(entries, "op"@, Some(encode_operation(a.op)));
    lemma_holds(entries, "target"@, Some(JsonModel::String(a.target)));
    lemma_holds(entries, "t"@, encode_float(a.t));
    lemma_holds(entries, "dur"@, encode_float(a.dur));
    lemma_holds(entries, "params"@, encode_params(a.params));
    lemma_holds(entries, "pre"@, encode_text(a.pre));
    lemma_holds(entries, "post"@, encode_text(a.post));
    lemma_holds(entries, "effects"@, encode_tags(a.effects));
    lemma_holds(entries, "condition"@, encode_guard(a.condition));
    lemma_holds(entries, "var"@, encode_text(a.loop_var));
    lemma_holds(entries, "from"@, encode_bound(a.from_expr));
    lemma_holds(entries, "to"@, encode_bound(a.to_expr));
    lemma_block(entries, "then"@, a.then_actions);
    lemma_block(entries, "else"@, a.else_actions);
    lemma_block(entries, "body"@, a.body_actions);
    assert(decode_tags(optional(entries, "effects"@)) == Some(a.effects)) by {
        match a.effects {
            Some(tags) => {
                lemma_strings(tags);
            },
            None => {},
        }
    }
    assert(decode_guard(optional(entries, "condition"@)) == Some(reread_guard(a.condition))) by {
        match a.condition {
            Some(c) => {
                lemma_cond(c);
            },
            None => {},
        }
    }
    assert(decode_bound(lookup(entries, "from"@)) == reread_bound(a.from_expr)) by {
        match a.from_expr {
            Some(e) => {
                lemma_expr(e);
            },
            None => {},
        }
    }
    assert(decode_bound(lookup(entries, "to"@)) == reread_bound(a.to_expr)) by {
        match a.to_expr {
            Some(e) => {
                lemma_expr(e);
            },
            None => {},
        }
    }
    assert(carries_required(reread_action(a)));
    if a.op is DefineFunction {
        lemma_find_from(a.params->0, "body"@, 0);
        assert(body_decodes(entries));
    }
}

/// What is read from a written program: for every well-formed program, the
/// program as it is read once written.
pub proof fn law_reread(p: ProgramModel)
    requires
        program_well_formed(p),
    ensures
        decode_program(encode_program(p)) == Some(reread_program(p)),
{
    lemma_key_marks();
    let metadata = encode_params(p.metadata);
    let e0 = with_field(Seq::empty(), "metadata"@, metadata);
    let written = JsonModel::List(encode_actions(p.actions, p.actions.len()));
    let e1 = with_field(e0, "actions"@, Some(written));
    assert(holds(Seq::<(Seq<char>, JsonModel)>::empty(), "metadata"@, None) && holds(
        Seq::<(Seq<char>, JsonModel)>::empty(),
        "actions"@,
        None,
    )) by {
        reveal(holds);
        lemma_no_match(Seq::<(Seq<char>, JsonModel)>::empty(), "metadata"@);
        lemma_no_match(Seq::<(Seq<char>, JsonModel)>::empty(), "actions"@);
    }
    lemma_with_field(Seq::empty(), "metadata"@, metadata);
    lemma_with_field(e0, "actions"@, Some(written));
    lemma_holds(e1, "metadata"@, metadata);
    lemma_holds(e1, "actions"@, Some(written));
    lemma_actions(p.actions, p.actions.len());
    lemma_encode_actions(p.actions, p.actions.len());
}

/// The first `n` rereadings stand at the positions of the arguments.
proof fn lemma_reread_args(args: Seq<(Seq<char>, ExprModel)>, n: nat)
    requires
        n <= args.len(),
    ensures
        reread_args(args, n).len() == n,
        forall|i: int|
            0 <= i < n ==> #[trigger] reread_args(args, n)[i] == (
                args[i].0,
                reread_expr(args[i].1),
            ),
    decreases n,
{
    if n > 0 {
        lemma_reread_args(args, (n - 1) as nat);
    }
}

/// The first `n` rereadings stand at the positions of the operands.
proof fn lemma_reread_conds(operands: Seq<CondModel>, n: nat)
    requires
        n <= operands.len(),
    ensures
        reread_conds(operands, n).len() == n,
        forall|i: int|
            0 <= i < n ==> #[trigger] reread_conds(operands, n)[i] == reread_cond(operands[i]),
    decreases n,
{
    if n > 0 {
        lemma_reread_conds(operands, (n - 1) as nat);
    }
}

/// The first `n` rereadings stand at the positions of the actions.
proof fn lemma_reread_actions(actions: Seq<ActionModel>, n: nat)
    requires
        n <= actions.len(),
    ensures
        reread_actions(actions, n).len() == n,
        forall|i: int|
            0 <= i < n ==> #[trigger] reread_actions(actions, n)[i] == reread_action(actions[i]),
    decreases n,
{
    if n > 0 {
        lemma_reread_actions(actions, (n - 1) as nat);
    }
}

/// An expression that reads back is read as itself.
proof fn lemma_same_expr(e: ExprModel)
    requires
        expr_reads_back(e),
    ensures
        reread_expr(e) == e,
    decreases e,
{
    match e {
        ExprModel::Value(v) => {},
        ExprModel::Variable { var } => {},
        ExprModel::BinaryOp { op, left, right } => {
            lemma_same_expr(*left);
            lemma_same_expr(*right);
        },
        ExprModel::FunctionCall { call, args } => {
            lemma_reread_args(args, args.len());
            assert forall|i: int| 0 <= i < args.len() implies reread_args(args, args.len())[i]
                == args[i] by {
                lemma_same_expr(args[i].1);
            }
            assert(reread_args(args, args.len()) =~= args);
        },
    }
}

/// A condition that reads back is read as itself.
proof fn lemma_same_cond(c: CondModel)
    requires
        cond_reads_back(c),
    ensures
        reread_cond(c) == c,
    decreases c,
{
    match c {
        CondModel::Comparison { op, left, right } => {
            lemma_same_expr(left);
            lemma_same_expr(right);
        },
        CondModel::And { operands } => {
            lemma_reread_conds(operands, operands.len());
            assert forall|i: int| 0 <= i < operands.len() implies reread_conds(
                operands,
                operands.len(),
            )[i] == operands[i] by {
                lemma_same_cond(operands[i]);
            }
            assert(reread_conds(operands, operands.len()) =~= operands);
        },
        CondModel::Or { operands } => {
            lemma_reread_conds(operands, operands.len());
            assert forall|i: int| 0 <= i < operands.len() implies reread_conds(
                operands,
                operands.len(),
            )[i] == operands[i] by {
                lemma_same_cond(operands[i]);
            }
            assert(reread_conds(operands, operands.len()) =~= operands);
        },
        CondModel::Not { operand } => {
            lemma_same_cond(*operand);
        },
    }
}

/// An optional sequence of actions that read back is read as itself.
proof fn lemma_same_block(actions: Option<Seq<ActionModel>>)
    requires
        block_reads_back(actions),
    ensures
        reread_block(actions) == actions,
    decreases actions, 1nat,
{
    match actions {
        Some(list) => {
            lemma_reread_actions(list, list.len());
            assert forall|i: int| 0 <= i < list.len() implies reread_actions(list, list.len())[i]
                == list[i] by {
                lemma_same_action(list[i]);
            }
            assert(reread_actions(list, list.len()) =~= list);
        },
        None => {},
    }
}

/// An action that reads back is read as itself.
proof fn lemma_same_action(a: ActionModel)
    requires
        action_reads_back(a),
    ensures
        reread_action(a) == a,
    decreases a, 0nat,
{
    match a.condition {
        Some(c) => {
            lemma_same_cond(c);
        },
        None => {},
    }
    match a.from_expr {
        Some(e) => {
            lemma_same_expr(e);
        },
        None => {},
    }
    match a.to_expr {
        Some(e) => {
            lemma_same_expr(e);
        },
        None => {},
    }
    lemma_same_block(a.then_actions);
    lemma_same_block(a.else_actions);
    lemma_same_block(a.body_actions);
}

/// Writing a well-formed program as a value and reading that value gives
/// the program, where the program reads back: the same actions in the same
/// order, each with the same fields and the same nested sequences.
pub proof fn law_round_trip(p: ProgramModel)
    requires
        program_well_formed(p),
        program_reads_back(p),
    ensures
        decode_program(encode_program(p)) == Some(p),
{
    law_reread(p);
    lemma_same_block(Some(p.actions));
}

/// Whether two optional sequences of actions have the same shape: both
/// absent, or of one length with actions of the same shape at each place.
pub open spec fn blocks_same_shape(
    x: Option<Seq<ActionModel>>,
    y: Option<Seq<ActionModel>>,
) -> bool
    decreases x, 1nat,
{
    match (x, y) {
        (Some(x), Some(y)) => x.len() == y.len() && forall|i: int|
            0 <= i < x.len() ==> same_shape(#[trigger] x[i], y[i]),
        (None, None) => true,
        _ => false,
    }
}

/// Whether two actions have the same shape: the same actor, operation,
/// target, times, parameters, texts, tags and loop variable; a condition and
/// bounds in the one where the other has them; and nested sequences of the
/// same shape.
pub open spec fn same_shape(a: ActionModel, b: ActionModel) -> bool
    decreases a, 0nat,
{
    &&& a.actor == b.actor
    &&& a.op == b.op
    &&& a.target == b.target
    &&& a.t == b.t
    &&& a.dur == b.dur
    &&& a.params == b.params
    &&& a.pre == b.pre
    &&& a.post == b.post
    &&& a.effects == b.effects
    &&& a.loop_var == b.loop_var
    &&& (a.condition is Some <==> b.condition is Some)
    &&& (a.from_expr is Some <==> b.from_expr is Some)
    &&& (a.to_expr is Some <==> b.to_expr is Some)
    &&& blocks_same_shape(a.then_actions, b.then_actions)
    &&& blocks_same_shape(a.else_actions, b.else_actions)
    &&& blocks_same_shape(a.body_actions, b.body_actions)
}

/// An optional sequence of actions has the shape in which it is read once
/// written.
proof fn lemma_block_shape(actions: Option<Seq<ActionModel>>)
    ensures
        blocks_same_shape(actions, reread_block(actions)),
    decreases actions, 1nat,
{
    match actions {
        Some(list) => {
            lemma_reread_actions(list, list.len());
            assert forall|i: int| 0 <= i < list.len() implies same_shape(
                #[trigger] list[i],
                reread_actions(list, list.len())[i],
            ) by {
                lemma_action_shape(list[i]);
            }
        },
        None => {},
    }
}

/// An action has the shape in which it is read once written.
proof fn lemma_action_shape(a: ActionModel)
    ensures
        same_shape(a, reread_action(a)),
    decreases a, 0nat,
{
    lemma_block_shape(a.then_actions);
    lemma_block_shape(a.else_actions);
    lemma_block_shape(a.body_actions);
}

/// Writing any well-formed program as a value and reading that value gives
/// a program of the same structure: the same metadata, as many actions, and
/// at each place an action of the same shape, whatever its literals are
/// read as.
pub proof fn law_structure_survives(p: ProgramModel)
    requires
        program_well_formed(p),
    ensures
        decode_program(encode_program(p)) is Some,
        decode_program(encode_program(p))->0.metadata == p.metadata,
        decode_program(encode_program(p))->0.actions.len() == p.actions.len(),
        forall|i: int|
            0 <= i < p.actions.len() ==> same_shape(
                #[trigger] p.actions[i],
                decode_program(encode_program(p))->0.actions[i],
            ),
        program_well_formed(decode_program(encode_program(p))->0),
{
    law_reread(p);
    lemma_block_shape(Some(p.actions));
    lemma_block_stays_well_formed(Some(p.actions));
}

/// An optional sequence of well-formed actions is one as it is read once
/// written.
proof fn lemma_block_stays_well_formed(actions: Option<Seq<ActionModel>>)
    requires
        block_well_formed(actions),
    ensures
        block_well_formed(reread_block(actions)),
    decreases actions, 1nat,
{
    match actions {
        Some(list) => {
            lemma_reread_actions(list, list.len());
            assert forall|i: int| 0 <= i < list.len() implies action_well_formed(
                #[trigger] reread_actions(list, list.len())[i],
            ) by {
                lemma_action_stays_well_formed(list[i]);
            }
        },
        None => {},
    }
}

/// A well-formed action is one as it is read once written.
proof fn lemma_action_stays_well_formed(a: ActionModel)
    requires
        action_well_formed(a),
    ensures
        action_well_formed(reread_action(a)),
    decreases a, 0nat,
{
    lemma_block_stays_well_formed(a.then_actions);
    lemma_block_stays_well_formed(a.else_actions);
    lemma_block_stays_well_formed(a.body_actions);
}

/// An expression writes back where each of its literals does: where the
/// literal, read as an expression and written again, is the literal. A
/// literal that is read as a literal does, and so does one that is exactly
/// the document form of a variable, an operation or a call.
pub open spec fn expr_writes_back(e: ExprModel) -> bool
    decreases e,
{
    match e {
        ExprModel::Value(v) => encode_expr(decode_expr(v)) == v,
        ExprModel::Variable { var } => true,
        ExprModel::BinaryOp { op, left, right } => expr_writes_back(*left) && expr_writes_back(
            *right,
        ),
        ExprModel::FunctionCall { call, args } => forall|i: int|
            0 <= i < args.len() ==> expr_writes_back(#[trigger] args[i].1),
    }
}

/// A condition writes back where its expressions do.
pub open spec fn cond_writes_back(c: CondModel) -> bool
    decreases c,
{
    match c {
        CondModel::Comparison { op, left, right } => expr_writes_back(left) && expr_writes_back(
            right,
        ),
        CondModel::And { operands } => forall|i: int|
            0 <= i < operands.len() ==> cond_writes_back(#[trigger] operands[i]),
        CondModel::Or { operands } => forall|i: int|
            0 <= i < operands.len() ==> cond_writes_back(#[trigger] operands[i]),
        CondModel::Not { operand } => cond_writes_back(*operand),
    }
}

/// The actions of an optional sequence all write back.
pub open spec fn block_writes_back(actions: Option<Seq<ActionModel>>) -> bool
    decreases actions, 1nat,
{
    match actions {
        Some(actions) => forall|i: int|
            0 <= i < actions.len() ==> action_writes_back(#[trigger] actions[i]),
        None => true,
    }
}

/// An action writes back where its condition, its bounds and its nested
/// actions do.
pub open spec fn action_writes_back(a: ActionModel) -> bool
    decreases a, 0nat,
{
    &&& match a.condition {
        Some(c) => cond_writes_back(c),
        None => true,
    }
    &&& match a.from_expr {
        Some(e) => expr_writes_back(e),
        None => true,
    }
    &&& match a.to_expr {
        Some(e) => expr_writes_back(e),
        None => true,
    }
    &&& block_writes_back(a.then_actions)
    &&& block_writes_back(a.else_actions)
    &&& block_writes_back(a.body_actions)
}

/// A program writes back where its actions do.
pub open spec fn program_writes_back(p: ProgramModel) -> bool {
    forall|i: int| 0 <= i < p.actions.len() ==> action_writes_back(#[trigger] p.actions[i])
}

/// An expression that writes back is written, once read, as it was.
proof fn lemma_expr_rewritten(e: ExprModel)
    requires
        expr_writes_back(e),
    ensures
        encode_expr(reread_expr(e)) == encode_expr(e),
    decreases e,
{
    match e {
        ExprModel::Value(v) => {},
        ExprModel::Variable { var } => {},
        ExprModel::BinaryOp { op, left, right } => {
            lemma_expr_rewritten(*left);
            lemma_expr_rewritten(*right);
        },
        ExprModel::FunctionCall { call, args } => {
            let read = reread_args(args, args.len());
            lemma_reread_args(args, args.len());
            lemma_encode_args(args, args.len());
            lemma_encode_args(read, read.len());
            assert forall|i: int| 0 <= i < args.len() implies encode_args(read, read.len())[i]
                == encode_args(args, args.len())[i] by {
                lemma_expr_rewritten(args[i].1);
            }
            assert(encode_args(read, read.len()) =~= encode_args(args, args.len()));
        },
    }
}

/// A condition that writes back is written, once read, as it was.
proof fn lemma_cond_rewritten(c: CondModel)
    requires
        cond_writes_back(c),
    ensures
        encode_cond(reread_cond(c)) == encode_cond(c),
    decreases c,
{
    match c {
        CondModel::Comparison { op, left, right } => {
            lemma_expr_rewritten(left);
            lemma_expr_rewritten(right);
        },
        CondModel::And { operands } => {
            lemma_conds_rewritten(operands);
        },
        CondModel::Or { operands } => {
            lemma_conds_rewritten(operands);
        },
        CondModel::Not { operand } => {
            lemma_cond_rewritten(*operand);
        },
    }
}

/// Operands that write back are written, once read, as they were.
proof fn lemma_conds_rewritten(operands: Seq<CondModel>)
    requires
        forall|i: int| 0 <= i < operands.len() ==> cond_writes_back(#[trigger] operands[i]),
    ensures
        encode_conds(reread_conds(operands, operands.len()), operands.len()) == encode_conds(
            operands,
            operands.len(),
        ),
        reread_conds(operands, operands.len()).len() == operands.len(),
    decreases operands, 0nat,
{
    let read = reread_conds(operands, operands.len());
    lemma_reread_conds(operands, operands.len());
    lemma_encode_conds(operands, operands.len());
    lemma_encode_conds(read, read.len());
    assert forall|i: int| 0 <= i < operands.len() implies encode_conds(read, read.len())[i]
        == encode_conds(operands, operands.len())[i] by {
        lemma_cond_rewritten(operands[i]);
    }
    assert(encode_conds(read, read.len()) =~= encode_conds(operands, operands.len()));
}

/// An optional sequence of actions that write back is written, once read,
/// as it was.
proof fn lemma_block_rewritten(actions: Option<Seq<ActionModel>>)
    requires
        block_writes_back(actions),
    ensures
        encode_block(reread_block(actions)) == encode_block(actions),
    decreases actions, 1nat,
{
    match actions {
        Some(list) => {
            let read = reread_actions(list, list.len());
            lemma_reread_actions(list, list.len());
            lemma_encode_actions(list, list.len());
            lemma_encode_actions(read, read.len());
            assert forall|i: int| 0 <= i < list.len() implies encode_actions(read, read.len())[i]
                == encode_actions(list, list.len())[i] by {
                lemma_action_rewritten(list[i]);
            }
            assert(encode_actions(read, read.len()) =~= encode_actions(list, list.len()));
        },
        None => {},
    }
}

/// An action that writes back is written, once read, as it was.
proof fn lemma_action_rewritten(a: ActionModel)
    requires
        action_writes_back(a),
    ensures
        encode_action(reread_action(a)) == encode_action(a),
    decreases a, 0nat,
{
    match a.condition {
        Some(c) => {
            lemma_cond_rewritten(c);
        },
        None => {},
    }
    match a.from_expr {
        Some(e) => {
            lemma_expr_rewritten(e);
        },
        None => {},
    }
    match a.to_expr {
        Some(e) => {
            lemma_expr_rewritten(e);
        },
        None => {},
    }
    lemma_block_rewritten(a.then_actions);
    lemma_block_rewritten(a.else_actions);
    lemma_block_rewritten(a.body_actions);
    assert(action_entries(reread_action(a)) == action_entries(a));
}

/// Writing, reading and writing again gives what the first writing gave,
/// for every well-formed program that writes back: also for one with a
/// literal that is exactly the document form of a variable, an operation or
/// a call, though the literal is read as that.
pub proof fn law_write_read_write(p: ProgramModel)
    requires
        program_well_formed(p),
        program_writes_back(p),
    ensures
        decode_program(encode_program(p)) is Some,
        encode_program(decode_program(encode_program(p))->0) == encode_program(p),
        decode_program(encode_program(p))->0.actions.len() == p.actions.len(),
{
    law_reread(p);
    lemma_reread_actions(p.actions, p.actions.len());
    lemma_block_rewritten(Some(p.actions));
}

/// The first `n` items that are read as actions are read as well-formed
/// actions.
proof fn lemma_read_actions(items: Seq<JsonModel>, n: nat)
    requires
        n <= items.len(),
        decode_actions(items, n) is Some,
    ensures
        decode_actions(items, n)->0.len() == n,
        forall|i: int|
            0 <= i < n ==> action_well_formed(#[trigger] decode_actions(items, n)->0[i]),
    decreases items, n,
{
    if n > 0 {
        lemma_read_actions(items, (n - 1) as nat);
        law_read_is_well_formed(items[n - 1]);
    }
}

/// A sequence of actions that is read under a key is one of well-formed
/// actions.
proof fn lemma_read_block(entries: Seq<(Seq<char>, JsonModel)>, key: Seq<char>)
    requires
        decode_block(entries, key) is Some,
    ensures
        block_well_formed(decode_block(entries, key)->0),
    decreases entries, 0nat,
{
    match present(entries, key) {
        Some(i) => match entries[i].1 {
            JsonModel::List(items) => {
                lemma_read_actions(items, items.len());
            },
            _ => {},
        },
        None => {},
    }
}

/// Every action that is read from a document is well formed: it carries
/// what its operation requires, and so does every action nested in it.
pub proof fn law_read_is_well_formed(v: JsonModel)
    requires
        decode_action(v) is Some,
    ensures
        action_well_formed(decode_action(v)->0),
    decreases v, 1nat,
{
    let entries = v->Object_0;
    lemma_read_block(entries, "then"@);
    lemma_read_block(entries, "else"@);
    lemma_read_block(entries, "body"@);
    let a = decode_action(v)->0;
    if a.op is DefineFunction {
        lemma_find_from(a.params->0, "body"@, 0);
    }
}

/// Every program that is read from a document is well formed.
pub proof fn law_read_program_is_well_formed(v: JsonModel)
    requires
        decode_program(v) is Some,
    ensures
        program_well_formed(decode_program(v)->0),
{
    let items = lookup(v->Object_0, "actions"@)->0->List_0;
    lemma_read_actions(items, items.len());
}

} // verus!
