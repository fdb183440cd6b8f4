//! A mock language model: a knowledge base of canned programs that it
//! "generates" for instructions which name them.

use crate::ast::{
    actions_view, Action, ActionModel, BinaryExpr, ComparisonOp, CondModel, Condition, ExprModel,
    Expression, Operation, OperationModel, Program,
};
use crate::document::{
    action_label, actions_from_items, actions_to_items, decode_actions, encode_actions,
    encode_expr, list_of, no_entries, no_items, push_entry, push_item, string_of,
};
use crate::error::{ErrorKind, ErrorModel, ExecError};
use crate::float;
use crate::handler::outcome_view;
use crate::params::{get_param_text, get_text_or_target, param_text, text_or_target};
use crate::table::{pairs_view, Table};
use crate::text::{
    contains_text, decimal, lowercased, occurs_in, push_text, texts_view, to_lowercase, u64_text,
};
use crate::value::{entries_view, items_view, lemma_view_list, JsonModel, Number, Value};
use vstd::prelude::*;
use vstd::string::*;

verus! {

/// A program that the model has generated.
#[derive(Debug)]
pub struct Script {
    pub actions: Vec<Action>,
}

impl View for Script {
    type V = Seq<ActionModel>;

    open spec fn view(&self) -> Seq<ActionModel> {
        actions_view(self.actions@)
    }
}

/// The state of the mock model.
#[derive(Debug)]
pub struct MockAIState {
    /// For each keyword, the document form of the program that the model
    /// gives for an instruction with that keyword.
    pub knowledge_base: Table<Value>,
    /// The instructions received.
    pub prompts: Vec<String>,
    /// What the model answered.
    pub responses: Vec<String>,
    /// The programs generated, by the name they were asked under.
    pub generated_code: Table<Script>,
    /// The name of the model.
    pub model_name: String,
    /// The sampling temperature, as a binary64 pattern.
    pub temperature: u64,
}

/// The mathematical value of a [`MockAIState`].
pub struct MockAIModel {
    pub knowledge_base: Seq<(Seq<char>, JsonModel)>,
    pub prompts: Seq<Seq<char>>,
    pub responses: Seq<Seq<char>>,
    pub generated_code: Map<Seq<char>, Seq<ActionModel>>,
    pub model_name: Seq<char>,
    pub temperature: u64,
}

impl View for MockAIState {
    type V = MockAIModel;

    open spec fn view(&self) -> MockAIModel {
        MockAIModel {
            knowledge_base: pairs_view(self.knowledge_base.entries@),
            prompts: texts_view(self.prompts@),
            responses: texts_view(self.responses@),
            generated_code: self.generated_code@,
            model_name: self.model_name@,
            temperature: self.temperature,
        }
    }
}

/// A `Return` of the value in document form `value`.
pub open spec fn return_of(value: JsonModel) -> ActionModel {
    ActionModel {
        params: Some(seq![("value"@, value)]),
        ..plain_action(OperationModel::Return, "result"@)
    }
}

/// The action of the virtual machine with an operation and a target and
/// nothing else.
pub open spec fn plain_action(op: OperationModel, target: Seq<char>) -> ActionModel {
    ActionModel {
        actor: "VM"@,
        op,
        target,
        t: None,
        dur: None,
        params: None,
        pre: None,
        post: None,
        effects: None,
        condition: None,
        then_actions: None,
        else_actions: None,
        body_actions: None,
        loop_var: None,
        from_expr: None,
        to_expr: None,
    }
}

/// The variable `n`.
pub open spec fn n() -> ExprModel {
    ExprModel::Variable { var: "n"@ }
}

/// The literal of a small whole number.
pub open spec fn whole(k: u64) -> ExprModel {
    ExprModel::Value(JsonModel::Number(Number::PosInt(k)))
}

/// The call of `name` on `n - k`.
pub open spec fn call_on_less(name: Seq<char>, k: u64) -> ExprModel {
    ExprModel::FunctionCall {
        call: name,
        args: seq![
            ("n"@, ExprModel::BinaryOp { op: "-"@, left: Box::new(n()), right: Box::new(whole(k)) }),
        ],
    }
}

/// The definition of a function of `n` that returns `base` where `n` is at
/// most 1 and `step` elsewhere.
pub open spec fn recursive_definition(name: Seq<char>, base: ExprModel, step: ExprModel) -> Seq<
    ActionModel,
> {
    let test = ActionModel {
        condition: Some(
            CondModel::Comparison { op: ComparisonOp::LessThanOrEqual, left: n(), right: whole(1) },
        ),
        then_actions: Some(seq![return_of(encode_expr(base))]),
        else_actions: Some(seq![return_of(encode_expr(step))]),
        ..plain_action(OperationModel::If, "base_case"@)
    };
    seq![
        ActionModel {
            params: Some(
                seq![
                    ("args"@, JsonModel::List(seq![JsonModel::String("n"@)])),
                    ("body"@, JsonModel::List(encode_actions(seq![test], 1))),
                ],
            ),
            ..plain_action(OperationModel::DefineFunction, name)
        },
    ]
}

/// The program that defines the factorial.
pub open spec fn factorial_program() -> Seq<ActionModel> {
    recursive_definition(
        "factorial"@,
        whole(1),
        ExprModel::BinaryOp {
            op: "*"@,
            left: Box::new(n()),
            right: Box::new(call_on_less("factorial"@, 1)),
        },
    )
}

/// The program that defines the Fibonacci numbers.
pub open spec fn fibonacci_program() -> Seq<ActionModel> {
    recursive_definition(
        "fibonacci"@,
        n(),
        ExprModel::BinaryOp {
            op: "+"@,
            left: Box::new(call_on_less("fibonacci"@, 1)),
            right: Box::new(call_on_less("fibonacci"@, 2)),
        },
    )
}

/// The program that greets the world.
pub open spec fn hello_program() -> Seq<ActionModel> {
    seq![
        ActionModel {
            params: Some(seq![("content"@, JsonModel::String("Hello, World!"@))]),
            ..plain_action(OperationModel::Emit, "output"@)
        },
    ]
}

/// The knowledge that the model starts with: for each keyword the document
/// form of its program.
pub open spec fn preloaded() -> Seq<(Seq<char>, JsonModel)> {
    seq![
        ("factorial"@, JsonModel::List(encode_actions(factorial_program(), 1))),
        ("fibonacci"@, JsonModel::List(encode_actions(fibonacci_program(), 1))),
        ("hello world"@, JsonModel::List(encode_actions(hello_program(), 1))),
    ]
}

/// The variable `n`.
fn variable_n() -> (r: Expression)
    ensures
        r@ == n(),
{
    Expression::Variable { var: String::from_str("n") }
}

/// The literal of a small whole number.
fn literal(k: u64) -> (r: Expression)
    ensures
        r@ == whole(k),
{
    Expression::Value(Value::Number(Number::PosInt(k)))
}

/// A binary operation.
fn operation(op: &str, left: Expression, right: Expression) -> (r: Expression)
    ensures
        r@ == (ExprModel::BinaryOp { op: op@, left: Box::new(left@), right: Box::new(right@) }),
{
    Expression::BinaryOp { expr: Box::new(BinaryExpr { op: String::from_str(op), left, right }) }
}

/// The call of `name` on `n - k`.
fn call_less(name: &str, k: u64) -> (r: Expression)
    ensures
        r@ == call_on_less(name@, k),
{
    let mut args: Vec<(String, Expression)> = Vec::new();
    args.push((String::from_str("n"), operation("-", variable_n(), literal(k))));
    let call = String::from_str(name);
    proof {
        crate::ast::lemma_view_call(call, args);
        assert(crate::ast::args_view(args@) =~= call_on_less(name@, k)->args);
    }
    Expression::FunctionCall { call, args }
}

/// A `Return` of an expression.
fn return_expression(value: &Expression) -> (r: Action)
    ensures
        r@ == return_of(encode_expr(value@)),
{
    let mut params = no_entries();
    push_entry(&mut params, "value", value.to_value());
    assert(entries_view(params@) =~= seq![("value"@, encode_expr(value@))]);
    Action::new("VM", Operation::Return, "result").with_params(params)
}

/// The definition of a function of `n` by a base and a step.
fn define_recursive(name: &str, base: &Expression, step: &Expression) -> (r: Vec<Action>)
    ensures
        actions_view(r@) == recursive_definition(name@, base@, step@),
{
    let mut test = Action::new("VM", Operation::If, "base_case");
    test.condition = Some(
        Condition::Comparison {
            op: ComparisonOp::LessThanOrEqual,
            left: variable_n(),
            right: literal(1),
        },
    );
    let mut then: Vec<Action> = Vec::new();
    then.push(return_expression(base));
    let mut other: Vec<Action> = Vec::new();
    other.push(return_expression(step));
    assert(actions_view(then@) =~= seq![return_of(encode_expr(base@))]);
    assert(actions_view(other@) =~= seq![return_of(encode_expr(step@))]);
    test.then_actions = Some(then);
    test.else_actions = Some(other);
    proof {
        crate::ast::lemma_view_action(test);
    }
    let mut body: Vec<Action> = Vec::new();
    body.push(test);
    assert(actions_view(body@) =~= seq![test@]);
    let mut names = no_items();
    push_item(&mut names, string_of("n"));
    assert(items_view(names@) =~= seq![JsonModel::String("n"@)]);
    let mut params = no_entries();
    push_entry(&mut params, "args", list_of(names));
    push_entry(&mut params, "body", list_of(actions_to_items(&body)));
    assert(entries_view(params@) =~= seq![
        ("args"@, JsonModel::List(seq![JsonModel::String("n"@)])),
        ("body"@, JsonModel::List(encode_actions(seq![test@], 1))),
    ]);
    let define = Action::new("VM", Operation::DefineFunction, name).with_params(params);
    let mut program: Vec<Action> = Vec::new();
    program.push(define);
    assert(actions_view(program@) =~= recursive_definition(name@, base@, step@));
    program
}

/// The program that greets the world.
fn hello() -> (r: Vec<Action>)
    ensures
        actions_view(r@) == hello_program(),
{
    let mut params = no_entries();
    push_entry(&mut params, "content", string_of("Hello, World!"));
    assert(entries_view(params@) =~= seq![("content"@, JsonModel::String("Hello, World!"@))]);
    let mut program: Vec<Action> = Vec::new();
    program.push(Action::new("VM", Operation::Emit, "output").with_params(params));
    assert(actions_view(program@) =~= hello_program());
    program
}

/// Adds a program to a knowledge base under a keyword.
fn teach(knowledge: &mut Vec<(String, Value)>, keyword: &str, program: &Vec<Action>)
    requires
        program.len() == 1,
    ensures
        pairs_view(final(knowledge)@) == pairs_view(old(knowledge)@).push(
            (keyword@, JsonModel::List(encode_actions(actions_view(program@), 1))),
        ),
{
    let ghost before = pairs_view(knowledge@);
    let document = list_of(actions_to_items(program));
    knowledge.push((String::from_str(keyword), document));
    assert(pairs_view(knowledge@) =~= before.push((keyword@, document@)));
}

impl MockAIState {
    /// The model as it starts: it knows the factorial, the Fibonacci numbers
    /// and a greeting, and has received and generated nothing.
    pub fn new() -> (r: MockAIState)
        ensures
            r@ == (MockAIModel {
                knowledge_base: preloaded(),
                prompts: Seq::empty(),
                responses: Seq::empty(),
                generated_code: Map::empty(),
                model_name: "MockLLM-UCL-v1"@,
                temperature: 0,
            }),
    {
        let mut knowledge: Vec<(String, Value)> = Vec::new();
        assert(pairs_view(knowledge@) =~= Seq::empty());
        let factorial = define_recursive(
            "factorial",
            &literal(1),
            &operation("*", variable_n(), call_less("factorial", 1)),
        );
        teach(&mut knowledge, "factorial", &factorial);
        let fibonacci = define_recursive(
            "fibonacci",
            &variable_n(),
            &operation("+", call_less("fibonacci", 1), call_less("fibonacci", 2)),
        );
        teach(&mut knowledge, "fibonacci", &fibonacci);
        teach(&mut knowledge, "hello world", &hello());
        assert(pairs_view(knowledge@) =~= preloaded());
        let r = MockAIState {
            knowledge_base: Table { entries: knowledge },
            prompts: Vec::new(),
            responses: Vec::new(),
            generated_code: Table::new(),
            model_name: String::from_str("MockLLM-UCL-v1"),
            temperature: 0,
        };
        assert(texts_view(r.prompts@) =~= Seq::empty());
        assert(texts_view(r.responses@) =~= Seq::empty());
        r
    }
}

impl Default for MockAIState {
    fn default() -> (r: MockAIState)
        ensures
            r@ == (MockAIModel {
                knowledge_base: preloaded(),
                prompts: Seq::empty(),
                responses: Seq::empty(),
                generated_code: Map::empty(),
                model_name: "MockLLM-UCL-v1"@,
                temperature: 0,
            }),
    {
        MockAIState::new()
    }
}

/// Index of the first entry at or after `start` whose keyword occurs in the
/// instruction, read in lower case.
pub open spec fn first_known(
    knowledge: Seq<(Seq<char>, JsonModel)>,
    instruction: Seq<char>,
    start: int,
) -> Option<int>
    decreases knowledge.len() - start,
{
    if start < 0 || start >= knowledge.len() {
        None
    } else if occurs_in(knowledge[start].0, lowercased(instruction)) {
        Some(start)
    } else {
        first_known(knowledge, instruction, start + 1)
    }
}

/// A state and the result with which it was reached.
pub struct Answer {
    pub state: MockAIModel,
    pub result: Result<(), ErrorModel>,
}

/// `Generate`: the instruction is recorded; the first keyword of the
/// knowledge base that occurs in it gives the program, which is kept under
/// the action's target. An instruction without a known keyword is an error.
pub open spec fn generate_answer(m: MockAIModel, a: ActionModel) -> Answer {
    match param_text(a, "instruction"@) {
        None => Answer {
            state: m,
            result: Err(ErrorModel { kind: ErrorKind::MalformedAction, subject: action_label(a), action: None }),
        },
        Some(instruction) => {
            let asked = MockAIModel { prompts: m.prompts.push(instruction), ..m };
            match first_known(m.knowledge_base, instruction, 0) {
                Some(i) => {
                    let known = match m.knowledge_base[i].1 {
                        JsonModel::List(items) => decode_actions(items, items.len()),
                        _ => None,
                    };
                    match known {
                        Some(actions) => Answer {
                            state: MockAIModel {
                                generated_code: m.generated_code.insert(a.target, actions),
                                responses: m.responses.push(
                                    "Generated "@ + m.knowledge_base[i].0 + " for: "@
                                        + instruction,
                                ),
                                ..asked
                            },
                            result: Ok(()),
                        },
                        None => Answer {
                            state: asked,
                            result: Err(
                                ErrorModel {
                                    kind: ErrorKind::MalformedAction,
                                    subject: m.knowledge_base[i].0,
                                    action: None,
                                },
                            ),
                        },
                    }
                },
                None => Answer {
                    state: MockAIModel {
                        responses: m.responses.push("I don't know how to: "@ + instruction),
                        ..asked
                    },
                    result: Err(
                        ErrorModel { kind: ErrorKind::UnknownInstruction, subject: instruction, action: None },
                    ),
                },
            }
        },
    }
}

/// `Execute`: the program named by `code`, or by the target, must have been
/// generated.
pub open spec fn execute_answer(m: MockAIModel, a: ActionModel) -> Answer {
    let name = text_or_target(a, "code"@);
    Answer {
        state: m,
        result: if m.generated_code.contains_key(name) {
            Ok(())
        } else {
            Err(ErrorModel { kind: ErrorKind::UnknownFunction, subject: name, action: None })
        },
    }
}

/// What the model does with an action: it generates, checks that it can
/// execute, and does nothing with anything else.
pub open spec fn answer(m: MockAIModel, a: ActionModel) -> Answer {
    match a.op {
        OperationModel::Generate => generate_answer(m, a),
        OperationModel::Execute => execute_answer(m, a),
        _ => Answer { state: m, result: Ok(()) },
    }
}

/// What the model does with the actions of a program from the `i`-th on: it
/// stops at the first error.
pub open spec fn answers(m: MockAIModel, actions: Seq<ActionModel>, i: nat) -> Answer
    decreases actions.len() - i,
{
    if i >= actions.len() {
        Answer { state: m, result: Ok(()) }
    } else {
        let first = answer(m, actions[i as int]);
        match first.result {
            Err(_) => first,
            Ok(()) => answers(first.state, actions, i + 1),
        }
    }
}

/// The lines of the first `n` prompts, numbered from 1.
pub open spec fn prompt_lines(prompts: Seq<Seq<char>>, n: nat) -> Seq<char>
    decreases n,
{
    if n == 0 || n > prompts.len() {
        Seq::empty()
    } else {
        prompt_lines(prompts, (n - 1) as nat) + "  "@ + decimal(n) + ". "@ + prompts[n - 1]
            + "\n"@
    }
}

/// The lines of the first `n` generated programs: the name of each and the
/// number of its actions.
pub open spec fn script_lines(scripts: Seq<(Seq<char>, Seq<ActionModel>)>, n: nat) -> Seq<char>
    decreases n,
{
    if n == 0 || n > scripts.len() {
        Seq::empty()
    } else {
        script_lines(scripts, (n - 1) as nat) + "  "@ + scripts[n - 1].0 + " - "@ + decimal(
            scripts[n - 1].1.len(),
        ) + " actions\n"@
    }
}

/// The report of a state: the model, the prompts received, the programs
/// generated in the order in which their names were first used, and the
/// size of the knowledge base.
pub open spec fn report(m: MockAIModel, scripts: Seq<(Seq<char>, Seq<ActionModel>)>) -> Seq<char> {
    let head = "=== Mock AI State ===\n\n"@ + "Model: "@ + m.model_name + " (temperature: "@
        + float::plain_display(m.temperature) + ")\n\n"@;
    let prompts = if m.prompts.len() > 0 {
        head + "Prompt History:\n"@ + prompt_lines(m.prompts, m.prompts.len()) + "\n"@
    } else {
        head
    };
    let generated = if scripts.len() > 0 {
        prompts + "Generated Code:\n"@ + script_lines(scripts, scripts.len()) + "\n"@
    } else {
        prompts
    };
    generated + "Knowledge Base: "@ + decimal(m.knowledge_base.len()) + " preloaded tasks\n"@
        + "  • factorial\n"@ + "  • fibonacci\n"@ + "  • hello world\n"@
}

impl MockAIState {
    /// The report of the state.
    pub fn display(&self) -> (r: String)
        ensures
            r@ == report(self@, pairs_view(self.generated_code.entries@)),
    {
        let mut out = String::from_str("=== Mock AI State ===\n\n");
        out.append("Model: ");
        out.append(self.model_name.as_str());
        out.append(" (temperature: ");
        let temperature = float::plain_text(self.temperature);
        out.append(temperature.as_str());
        out.append(")\n\n");
        if self.prompts.len() > 0 {
            out.append("Prompt History:\n");
            let ghost head = out@;
            let ghost pv = texts_view(self.prompts@);
            let mut i: usize = 0;
            while i < self.prompts.len()
                invariant
                    i <= self.prompts.len(),
                    pv == texts_view(self.prompts@),
                    out@ == head + prompt_lines(pv, i as nat),
                decreases self.prompts.len() - i,
            {
                let ghost before = out@;
                out.append("  ");
                let number = u64_text(i as u64 + 1);
                out.append(number.as_str());
                out.append(". ");
                out.append(self.prompts[i].as_str());
                out.append("\n");
                assert(out@ =~= head + prompt_lines(pv, (i + 1) as nat));
                i += 1;
            }
            out.append("\n");
        }
        let scripts = &self.generated_code.entries;
        if scripts.len() > 0 {
            out.append("Generated Code:\n");
            let ghost head = out@;
            let ghost sv = pairs_view(scripts@);
            let mut i: usize = 0;
            while i < scripts.len()
                invariant
                    i <= scripts.len(),
                    sv == pairs_view(scripts@),
                    out@ == head + script_lines(sv, i as nat),
                decreases scripts.len() - i,
            {
                out.append("  ");
                out.append(scripts[i].0.as_str());
                out.append(" - ");
                let count = u64_text(scripts[i].1.actions.len() as u64);
                out.append(count.as_str());
                out.append(" actions\n");
                assert(out@ =~= head + script_lines(sv, (i + 1) as nat));
                i += 1;
            }
            out.append("\n");
        }
        out.append("Knowledge Base: ");
        let size = u64_text(self.knowledge_base.entries.len() as u64);
        out.append(size.as_str());
        out.append(" preloaded tasks\n");
        out.append("  • factorial\n");
        out.append("  • fibonacci\n");
        out.append("  • hello world\n");
        out
    }
}

/// The mock model as a machine that takes programs.
pub struct MockAISimulator {
    state: MockAIState,
    verbose: bool,
}

impl View for MockAISimulator {
    type V = MockAIModel;

    closed spec fn view(&self) -> MockAIModel {
        self.state@
    }
}

impl MockAISimulator {
    /// Whether the simulator was asked to report each step.
    pub closed spec fn is_verbose(&self) -> bool {
        self.verbose
    }

    /// A simulator of the model as it starts.
    pub fn new() -> (r: MockAISimulator)
        ensures
            r@ == (MockAIModel {
                knowledge_base: preloaded(),
                prompts: Seq::empty(),
                responses: Seq::empty(),
                generated_code: Map::empty(),
                model_name: "MockLLM-UCL-v1"@,
                temperature: 0,
            }),
            !r.is_verbose(),
    {
        MockAISimulator { state: MockAIState::new(), verbose: false }
    }

    /// The simulator with its wish for step reports set.
    pub fn with_verbose(self, verbose: bool) -> (r: MockAISimulator)
        ensures
            r@ == self@,
            r.is_verbose() == verbose,
    {
        let mut r = self;
        r.verbose = verbose;
        r
    }

    /// Whether step reports are wished for.
    pub fn verbose(&self) -> (r: bool)
        ensures
            r == self.is_verbose(),
    {
        self.verbose
    }

    /// The state of the model.
    pub fn state(&self) -> (r: &MockAIState)
        ensures
            r@ == self@,
    {
        &self.state
    }

    /// Takes a program: every action in order, up to the first error.
    pub fn execute(&mut self, program: &Program) -> (r: Result<(), ExecError>)
        ensures
            (Answer { state: final(self)@, result: outcome_view(r) }) == answers(
                old(self)@,
                program@.actions,
                0,
            ),
            final(self).is_verbose() == old(self).is_verbose(),
    {
        let ghost av = actions_view(program.actions@);
        let ghost start = self@;
        let mut i: usize = 0;
        while i < program.actions.len()
            invariant
                i <= program.actions.len(),
                av == actions_view(program.actions@),
                start == old(self)@,
                self.is_verbose() == old(self).is_verbose(),
                answers(start, av, 0) == answers(self@, av, i as nat),
            decreases program.actions.len() - i,
        {
            match self.execute_action(&program.actions[i]) {
                Ok(()) => {},
                Err(e) => {
                    return Err(e);
                },
            }
            i += 1;
        }
        Ok(())
    }

    /// Takes one action.
    pub fn execute_action(&mut self, action: &Action) -> (r: Result<(), ExecError>)
        ensures
            (Answer { state: final(self)@, result: outcome_view(r) }) == answer(
                old(self)@,
                action@,
            ),
            final(self).is_verbose() == old(self).is_verbose(),
    {
        match &action.op {
            Operation::Generate => self.generate(action),
            Operation::Parse => self.parse(action),
            Operation::Execute => self.execute_code(action),
            Operation::Emit => self.emit(action),
            _ => Ok(()),
        }
    }

    /// The first keyword of the knowledge base that occurs in the
    /// instruction, read in lower case.
    fn find_known(&self, instruction: &str) -> (r: Option<usize>)
        ensures
            match r {
                Some(i) => first_known(self@.knowledge_base, instruction@, 0) == Some(i as int)
                    && i < self.state.knowledge_base.entries.len(),
                None => first_known(self@.knowledge_base, instruction@, 0) is None,
            },
    {
        let lowered = to_lowercase(instruction);
        let knowledge = &self.state.knowledge_base.entries;
        let ghost kv = pairs_view(knowledge@);
        let mut i: usize = 0;
        while i < knowledge.len()
            invariant
                i <= knowledge.len(),
                kv == pairs_view(knowledge@),
                *knowledge == self.state.knowledge_base.entries,
                lowered@ == lowercased(instruction@),
                first_known(kv, instruction@, 0) == first_known(kv, instruction@, i as int),
            decreases knowledge.len() - i,
        {
            if contains_text(lowered.as_str(), knowledge[i].0.as_str()) {
                return Some(i);
            }
            i += 1;
        }
        None
    }

    /// Generates the program that the instruction of a `Generate` names: see [`generate_answer`].
    fn generate(&mut self, action: &Action) -> (r: Result<(), ExecError>)
        ensures
            (Answer { state: final(self)@, result: outcome_view(r) }) == generate_answer(
                old(self)@,
                action@,
            ),
            final(self).is_verbose() == old(self).is_verbose(),
    {
        let instruction = match get_param_text(action, "instruction") {
            Some(instruction) => instruction,
            None => {
                return Err(ExecError::about(ErrorKind::MalformedAction, action.label()));
            },
        };
        let found = self.find_known(instruction);
        push_text(&mut self.state.prompts, String::from_str(instruction));
        match found {
            Some(i) => {
                let keyword = self.state.knowledge_base.entries[i].0.clone();
                let known = match &self.state.knowledge_base.entries[i].1 {
                    Value::List(items) => {
                        proof {
                            lemma_view_list(*items);
                        }
                        actions_from_items(items)
                    },
                    _ => None,
                };
                match known {
                    Some(actions) => {
                        self.state.generated_code.insert(action.target.clone(), Script { actions });
                        let mut response = String::from_str("Generated ");
                        response.append(keyword.as_str());
                        response.append(" for: ");
                        response.append(instruction);
                        push_text(&mut self.state.responses, response);
                        Ok(())
                    },
                    None => Err(ExecError::new(ErrorKind::MalformedAction, keyword.as_str())),
                }
            },
            None => {
                let mut response = String::from_str("I don't know how to: ");
                response.append(instruction);
                push_text(&mut self.state.responses, response);
                Err(ExecError::new(ErrorKind::UnknownInstruction, instruction))
            },
        }
    }

    /// Takes a `Parse`, which asks nothing of a model that gives programs as they are.
    fn parse(&mut self, action: &Action) -> (r: Result<(), ExecError>)
        ensures
            r is Ok,
            final(self)@ == old(self)@,
            final(self).is_verbose() == old(self).is_verbose(),
    {
        Ok(())
    }

    /// Checks that the program of an `Execute` was generated: see [`execute_answer`].
    fn execute_code(&mut self, action: &Action) -> (r: Result<(), ExecError>)
        ensures
            (Answer { state: final(self)@, result: outcome_view(r) }) == execute_answer(
                old(self)@,
                action@,
            ),
            final(self).is_verbose() == old(self).is_verbose(),
    {
        let name = get_text_or_target(action, "code");
        if self.state.generated_code.contains_key(name) {
            Ok(())
        } else {
            Err(ExecError::new(ErrorKind::UnknownFunction, name))
        }
    }

    /// Takes an `Emit`, which leaves no mark on the model.
    fn emit(&mut self, action: &Action) -> (r: Result<(), ExecError>)
        ensures
            r is Ok,
            final(self)@ == old(self)@,
            final(self).is_verbose() == old(self).is_verbose(),
    {
        Ok(())
    }
}

impl Default for MockAISimulator {
    fn default() -> (r: MockAISimulator)
        ensures
            r@ == (MockAIModel {
                knowledge_base: preloaded(),
                prompts: Seq::empty(),
                responses: Seq::empty(),
                generated_code: Map::empty(),
                model_name: "MockLLM-UCL-v1"@,
                temperature: 0,
            }),
            !r.is_verbose(),
    {
        MockAISimulator::new()
    }
}

} // verus!
