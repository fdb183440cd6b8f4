//! A program as instructions to a person: what each action asks of the one
//! who carries it out, and the record of a step that was carried out.

use crate::ast::{Action, ActionModel, Operation, OperationModel};
use crate::document::operation_debug;
use crate::float;
use crate::params::{get_integer_or, get_param, get_text_or, integer_or, param, text_or};
use crate::text::{decimal, i64_text, signed_decimal, str_equal, texts_view, u64_text};
use vstd::prelude::*;
use vstd::string::*;

verus! {

/// Binary64 pattern of 1.0, the duration of a `Wait` that names none.
pub const ONE_SECOND: u64 = 0x3FF0_0000_0000_0000;

/// The sign that stands for an operation in a calculation.
pub open spec fn sign_text(operation: Seq<char>) -> Seq<char> {
    if operation == "multiply"@ {
        "×"@
    } else if operation == "add"@ {
        "+"@
    } else if operation == "subtract"@ {
        "-"@
    } else if operation == "divide"@ {
        "÷"@
    } else {
        "×"@
    }
}

/// The sign that stands for an operation in a calculation.
pub fn sign_for(operation: &str) -> (r: &'static str)
    ensures
        r@ == sign_text(operation@),
{
    if str_equal(operation, "multiply") {
        "×"
    } else if str_equal(operation, "add") {
        "+"
    } else if str_equal(operation, "subtract") {
        "-"
    } else if str_equal(operation, "divide") {
        "÷"
    } else {
        "×"
    }
}

/// What a `Write` asks: with both registers, to recall them, to calculate
/// and to store; else to update the memory.
pub open spec fn write_task(a: ActionModel) -> Seq<Seq<char>> {
    match a.params {
        Some(_) => if param(a, "lhs_register"@) is Some && param(a, "rhs_register"@) is Some {
            let lhs = text_or(a, "lhs_register"@, "?"@);
            let rhs = text_or(a, "rhs_register"@, "?"@);
            seq![
                "   → Recall "@ + lhs + " and "@ + rhs,
                "   → Calculate: "@ + lhs + " "@ + sign_text(
                    text_or(a, "operation"@, "multiply"@),
                ) + " "@ + rhs,
                "   → Store the answer in: "@ + a.target,
            ]
        } else {
            seq!["   → Update memory: "@ + a.target, "   → Store a new value"@]
        },
        None => seq!["   → Update memory: "@ + a.target],
    }
}

/// What an action asks of the one who carries it out, line by line.
pub open spec fn task_text(a: ActionModel) -> Seq<Seq<char>> {
    match a.op {
        OperationModel::StoreFact => seq![
            "   → Store this information in your memory"@,
            "   → Commit '"@ + a.target + "' to long-term storage"@,
        ],
        OperationModel::Assert => seq![
            "   → Assert this as a strong belief"@,
            "   → Make this a core part of your worldview"@,
        ],
        OperationModel::Emit => seq![
            "   → Generate and speak this output"@,
            "   → Say it out loud or in your mind"@,
        ],
        OperationModel::Receive => seq![
            "   → Process this input through your senses"@,
            "   → Pay attention to: "@ + a.target,
        ],
        OperationModel::Decide => seq![
            "   → Make this decision"@,
            "   → Commit to: "@ + a.target,
        ],
        OperationModel::Measure => seq![
            "   → Observe and measure"@,
            "   → Focus your attention on: "@ + a.target,
        ],
        OperationModel::Create => seq![
            "   → Create this new concept in your mind"@,
            "   → Imagine: "@ + a.target,
        ],
        OperationModel::Bind => seq![
            "   → Bind this concept to a mental variable"@,
            "   → Associate '"@ + a.target + "' with a value"@,
        ],
        OperationModel::Write => write_task(a),
        OperationModel::Oblige => seq![
            "   → Accept this obligation"@,
            "   → Add to your active goals"@,
        ],
        OperationModel::Wait => seq![
            "   → Wait and let "@ + float::plain_display(
                match a.dur {
                    Some(bits) => bits,
                    None => ONE_SECOND,
                },
            ) + " seconds pass"@,
            "   → Be present in this moment"@,
        ],
        OperationModel::GenRandomInt => match a.params {
            Some(_) => seq![
                "   → Think of a random number between "@ + signed_decimal(
                    integer_or(a, "min"@, 0) as int,
                ) + " and "@ + signed_decimal(integer_or(a, "max"@, 9) as int),
                "   → Remember it as '"@ + a.target + "'"@,
            ],
            None => seq![
                "   → Generate a random number"@,
                "   → Remember it as '"@ + a.target + "'"@,
            ],
        },
        _ => seq![
            "   ⚠️  UNKNOWN OPERATION!"@,
            "   → Experience confusion"@,
            "   → Notice you don't understand"@,
        ],
    }
}

/// Two lines.
fn two(first: String, second: String) -> (r: Vec<String>)
    ensures
        texts_view(r@) == seq![first@, second@],
{
    let mut out: Vec<String> = Vec::new();
    out.push(first);
    out.push(second);
    assert(texts_view(out@) =~= seq![first@, second@]);
    out
}

/// A line made of a text before and a text after a name.
fn around(before: &str, name: &str, after: &str) -> (r: String)
    ensures
        r@ == before@ + name@ + after@,
{
    let mut out = String::from_str(before);
    out.append(name);
    out.append(after);
    out
}

/// A line made of a text and a name.
fn line(before: &str, name: &str) -> (r: String)
    ensures
        r@ == before@ + name@,
{
    let mut out = String::from_str(before);
    out.append(name);
    out
}

/// What a `Write` asks.
fn task_of_write(action: &Action) -> (r: Vec<String>)
    ensures
        texts_view(r@) == write_task(action@),
{
    if action.params.is_none() {
        let mut out: Vec<String> = Vec::new();
        out.push(line("   → Update memory: ", action.target.as_str()));
        assert(texts_view(out@) =~= write_task(action@));
        return out;
    }
    if get_param(action, "lhs_register").is_some() && get_param(action, "rhs_register").is_some() {
        let lhs = get_text_or(action, "lhs_register", "?");
        let rhs = get_text_or(action, "rhs_register", "?");
        let sign = sign_for(get_text_or(action, "operation", "multiply"));
        let mut recall = String::from_str("   → Recall ");
        recall.append(lhs);
        recall.append(" and ");
        recall.append(rhs);
        let mut calculate = String::from_str("   → Calculate: ");
        calculate.append(lhs);
        calculate.append(" ");
        calculate.append(sign);
        calculate.append(" ");
        calculate.append(rhs);
        let store = line("   → Store the answer in: ", action.target.as_str());
        let mut out: Vec<String> = Vec::new();
        out.push(recall);
        out.push(calculate);
        out.push(store);
        assert(texts_view(out@) =~= write_task(action@));
        out
    } else {
        two(
            line("   → Update memory: ", action.target.as_str()),
            String::from_str("   → Store a new value"),
        )
    }
}

/// What an action asks of the one who carries it out, line by line.
pub fn task_lines(action: &Action) -> (r: Vec<String>)
    ensures
        texts_view(r@) == task_text(action@),
{
    let target = action.target.as_str();
    match &action.op {
        Operation::StoreFact => two(
            String::from_str("   → Store this information in your memory"),
            around("   → Commit '", target, "' to long-term storage"),
        ),
        Operation::Assert => two(
            String::from_str("   → Assert this as a strong belief"),
            String::from_str("   → Make this a core part of your worldview"),
        ),
        Operation::Emit => two(
            String::from_str("   → Generate and speak this output"),
            String::from_str("   → Say it out loud or in your mind"),
        ),
        Operation::Receive => two(
            String::from_str("   → Process this input through your senses"),
            line("   → Pay attention to: ", target),
        ),
        Operation::Decide => two(
            String::from_str("   → Make this decision"),
            line("   → Commit to: ", target),
        ),
        Operation::Measure => two(
            String::from_str("   → Observe and measure"),
            line("   → Focus your attention on: ", target),
        ),
        Operation::Create => two(
            String::from_str("   → Create this new concept in your mind"),
            line("   → Imagine: ", target),
        ),
        Operation::Bind => two(
            String::from_str("   → Bind this concept to a mental variable"),
            around("   → Associate '", target, "' with a value"),
        ),
        Operation::Write => task_of_write(action),
        Operation::Oblige => two(
            String::from_str("   → Accept this obligation"),
            String::from_str("   → Add to your active goals"),
        ),
        Operation::Wait => {
            let duration = match action.dur {
                Some(bits) => bits,
                None => ONE_SECOND,
            };
            let seconds = float::plain_text(duration);
            two(
                around("   → Wait and let ", seconds.as_str(), " seconds pass"),
                String::from_str("   → Be present in this moment"),
            )
        },
        Operation::GenRandomInt => {
            let remember = around("   → Remember it as '", target, "'");
            if action.params.is_some() {
                let mut think = String::from_str("   → Think of a random number between ");
                let min = i64_text(get_integer_or(action, "min", 0));
                think.append(min.as_str());
                think.append(" and ");
                let max = i64_text(get_integer_or(action, "max", 9));
                think.append(max.as_str());
                two(think, remember)
            } else {
                two(String::from_str("   → Generate a random number"), remember)
            }
        },
        _ => {
            let mut out: Vec<String> = Vec::new();
            out.push(String::from_str("   ⚠️  UNKNOWN OPERATION!"));
            out.push(String::from_str("   → Experience confusion"));
            out.push(String::from_str("   → Notice you don't understand"));
            assert(texts_view(out@) =~= task_text(action@));
            out
        },
    }
}

/// The record of a step that was carried out: its number from 1, the
/// action, and what the person reported.
pub open spec fn step_text(
    step: nat,
    a: ActionModel,
    thought: Seq<char>,
    emotion: Seq<char>,
    memory: Seq<char>,
) -> Seq<char> {
    "Step "@ + decimal(step) + ": "@ + operation_debug(a.op) + "("@ + a.target + ")\n  Thought: "@
        + thought + "\n  Emotion: "@ + emotion + "\n  Memory: "@ + memory
}

/// The record of a step that was carried out.
pub fn step_record(step: u64, action: &Action, thought: &str, emotion: &str, memory: &str) -> (r:
    String)
    ensures
        r@ == step_text(step as nat, action@, thought@, emotion@, memory@),
{
    let mut out = String::from_str("Step ");
    let number = u64_text(step);
    out.append(number.as_str());
    out.append(": ");
    let name = action.op.debug_text();
    out.append(name.as_str());
    out.append("(");
    out.append(action.target.as_str());
    out.append(")\n  Thought: ");
    out.append(thought);
    out.append("\n  Emotion: ");
    out.append(emotion);
    out.append("\n  Memory: ");
    out.append(memory);
    out
}

} // verus!
