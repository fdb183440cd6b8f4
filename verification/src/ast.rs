//! The action tree: operations, expressions, conditions, actions, programs
//! and function definitions, each with the mathematical model that contracts
//! speak of.

use crate::text::texts_view;
use crate::value::{clone_entries, entries_view, JsonModel, Value};
use vstd::prelude::*;
use vstd::string::*;

verus! {

/// The kind of an action. The set is open: a tag that is not listed is held
/// as `Custom` with its name.
#[derive(Debug)]
pub enum Operation {
    // Records
    Create,
    Read,
    Write,
    Delete,
    // Bindings
    Bind,
    Unbind,
    // Communication
    Emit,
    Receive,
    // Observation and decision
    Measure,
    Decide,
    // Time
    Wait,
    // Facts
    Assert,
    StoreFact,
    // Obligations
    Oblige,
    Permit,
    Remedy,
    // Biology
    Transcribe,
    Translate,
    Express,
    // Programs
    Call,
    Assign,
    Return,
    GenRandomInt,
    // Control flow
    If,
    While,
    For,
    DefineFunction,
    // Physical handling
    Gather,
    Heat,
    Pour,
    Mix,
    Stir,
    Place,
    Remove,
    Steep,
    Serve,
    // Code generation by a model
    Generate,
    Parse,
    Execute,
    // Tags that no backend supports
    Custom(String),
    Flurble,
    Grok,
    Defenestrate,
}

/// The mathematical value of an [`Operation`].
pub enum OperationModel {
    Create,
    Read,
    Write,
    Delete,
    Bind,
    Unbind,
    Emit,
    Receive,
    Measure,
    Decide,
    Wait,
    Assert,
    StoreFact,
    Oblige,
    Permit,
    Remedy,
    Transcribe,
    Translate,
    Express,
    Call,
    Assign,
    Return,
    GenRandomInt,
    If,
    While,
    For,
    DefineFunction,
    Gather,
    Heat,
    Pour,
    Mix,
    Stir,
    Place,
    Remove,
    Steep,
    Serve,
    Generate,
    Parse,
    Execute,
    Custom(Seq<char>),
    Flurble,
    Grok,
    Defenestrate,
}

impl View for Operation {
    type V = OperationModel;

    open spec fn view(&self) -> OperationModel {
        match self {
            Operation::Create => OperationModel::Create,
            Operation::Read => OperationModel::Read,
            Operation::Write => OperationModel::Write,
            Operation::Delete => OperationModel::Delete,
            Operation::Bind => OperationModel::Bind,
            Operation::Unbind => OperationModel::Unbind,
            Operation::Emit => OperationModel::Emit,
            Operation::Receive => OperationModel::Receive,
            Operation::Measure => OperationModel::Measure,
            Operation::Decide => OperationModel::Decide,
            Operation::Wait => OperationModel::Wait,
            Operation::Assert => OperationModel::Assert,
            Operation::StoreFact => OperationModel::StoreFact,
            Operation::Oblige => OperationModel::Oblige,
            Operation::Permit => OperationModel::Permit,
            Operation::Remedy => OperationModel::Remedy,
            Operation::Transcribe => OperationModel::Transcribe,
            Operation::Translate => OperationModel::Translate,
            Operation::Express => OperationModel::Express,
            Operation::Call => OperationModel::Call,
            Operation::Assign => OperationModel::Assign,
            Operation::Return => OperationModel::Return,
            Operation::GenRandomInt => OperationModel::GenRandomInt,
            Operation::If => OperationModel::If,
            Operation::While => OperationModel::While,
            Operation::For => OperationModel::For,
            Operation::DefineFunction => OperationModel::DefineFunction,
            Operation::Gather => OperationModel::Gather,
            Operation::Heat => OperationModel::Heat,
            Operation::Pour => OperationModel::Pour,
            Operation::Mix => OperationModel::Mix,
            Operation::Stir => OperationModel::Stir,
            Operation::Place => OperationModel::Place,
            Operation::Remove => OperationModel::Remove,
            Operation::Steep => OperationModel::Steep,
            Operation::Serve => OperationModel::Serve,
            Operation::Generate => OperationModel::Generate,
            Operation::Parse => OperationModel::Parse,
            Operation::Execute => OperationModel::Execute,
            Operation::Flurble => OperationModel::Flurble,
            Operation::Grok => OperationModel::Grok,
            Operation::Defenestrate => OperationModel::Defenestrate,
            Operation::Custom(name) => OperationModel::Custom(name@),
        }
    }
}

impl Clone for Operation {
    fn clone(&self) -> (r: Operation)
        ensures
            r@ == self@,
    {
        match self {
            Operation::Create => Operation::Create,
            Operation::Read => Operation::Read,
            Operation::Write => Operation::Write,
            Operation::Delete => Operation::Delete,
            Operation::Bind => Operation::Bind,
            Operation::Unbind => Operation::Unbind,
            Operation::Emit => Operation::Emit,
            Operation::Receive => Operation::Receive,
            Operation::Measure => Operation::Measure,
            Operation::Decide => Operation::Decide,
            Operation::Wait => Operation::Wait,
            Operation::Assert => Operation::Assert,
            Operation::StoreFact => Operation::StoreFact,
            Operation::Oblige => Operation::Oblige,
            Operation::Permit => Operation::Permit,
            Operation::Remedy => Operation::Remedy,
            Operation::Transcribe => Operation::Transcribe,
            Operation::Translate => Operation::Translate,
            Operation::Express => Operation::Express,
            Operation::Call => Operation::Call,
            Operation::Assign => Operation::Assign,
            Operation::Return => Operation::Return,
            Operation::GenRandomInt => Operation::GenRandomInt,
            Operation::If => Operation::If,
            Operation::While => Operation::While,
            Operation::For => Operation::For,
            Operation::DefineFunction => Operation::DefineFunction,
            Operation::Gather => Operation::Gather,
            Operation::Heat => Operation::Heat,
            Operation::Pour => Operation::Pour,
            Operation::Mix => Operation::Mix,
            Operation::Stir => Operation::Stir,
            Operation::Place => Operation::Place,
            Operation::Remove => Operation::Remove,
            Operation::Steep => Operation::Steep,
            Operation::Serve => Operation::Serve,
            Operation::Generate => Operation::Generate,
            Operation::Parse => Operation::Parse,
            Operation::Execute => Operation::Execute,
            Operation::Flurble => Operation::Flurble,
            Operation::Grok => Operation::Grok,
            Operation::Defenestrate => Operation::Defenestrate,
            Operation::Custom(name) => Operation::Custom(name.clone()),
        }
    }
}

impl Operation {
    /// Whether two operations are the same tag.
    pub fn same(&self, other: &Operation) -> (r: bool)
        ensures
            r == (self@ == other@),
    {
        match (self, other) {
            (Operation::Create, Operation::Create) => true,
            (Operation::Read, Operation::Read) => true,
            (Operation::Write, Operation::Write) => true,
            (Operation::Delete, Operation::Delete) => true,
            (Operation::Bind, Operation::Bind) => true,
            (Operation::Unbind, Operation::Unbind) => true,
            (Operation::Emit, Operation::Emit) => true,
            (Operation::Receive, Operation::Receive) => true,
            (Operation::Measure, Operation::Measure) => true,
            (Operation::Decide, Operation::Decide) => true,
            (Operation::Wait, Operation::Wait) => true,
            (Operation::Assert, Operation::Assert) => true,
            (Operation::StoreFact, Operation::StoreFact) => true,
            (Operation::Oblige, Operation::Oblige) => true,
            (Operation::Permit, Operation::Permit) => true,
            (Operation::Remedy, Operation::Remedy) => true,
            (Operation::Transcribe, Operation::Transcribe) => true,
            (Operation::Translate, Operation::Translate) => true,
            (Operation::Express, Operation::Express) => true,
            (Operation::Call, Operation::Call) => true,
            (Operation::Assign, Operation::Assign) => true,
            (Operation::Return, Operation::Return) => true,
            (Operation::GenRandomInt, Operation::GenRandomInt) => true,
            (Operation::If, Operation::If) => true,
            (Operation::While, Operation::While) => true,
            (Operation::For, Operation::For) => true,
            (Operation::DefineFunction, Operation::DefineFunction) => true,
            (Operation::Gather, Operation::Gather) => true,
            (Operation::Heat, Operation::Heat) => true,
            (Operation::Pour, Operation::Pour) => true,
            (Operation::Mix, Operation::Mix) => true,
            (Operation::Stir, Operation::Stir) => true,
            (Operation::Place, Operation::Place) => true,
            (Operation::Remove, Operation::Remove) => true,
            (Operation::Steep, Operation::Steep) => true,
            (Operation::Serve, Operation::Serve) => true,
            (Operation::Generate, Operation::Generate) => true,
            (Operation::Parse, Operation::Parse) => true,
            (Operation::Execute, Operation::Execute) => true,
            (Operation::Flurble, Operation::Flurble) => true,
            (Operation::Grok, Operation::Grok) => true,
            (Operation::Defenestrate, Operation::Defenestrate) => true,
            (Operation::Custom(a), Operation::Custom(b)) => crate::text::str_equal(
                a.as_str(),
                b.as_str(),
            ),
            _ => false,
        }
    }
}

/// The six comparisons of a condition.
#[derive(Clone, Copy, Debug, PartialEq, Eq, Structural)]
pub enum ComparisonOp {
    Equal,
    NotEqual,
    LessThan,
    LessThanOrEqual,
    GreaterThan,
    GreaterThanOrEqual,
}

/// The operands of a binary operation and its operator, as written: one of
/// `+`, `-`, `*`, `/`, `%` in a well-formed expression.
#[derive(Debug)]
pub struct BinaryExpr {
    pub op: String,
    pub left: Expression,
    pub right: Expression,
}

/// An expression: a literal, a variable, a binary operation or a call of a
/// defined function with named arguments.
#[derive(Debug)]
pub enum Expression {
    Value(Value),
    Variable { var: String },
    BinaryOp { expr: Box<BinaryExpr> },
    FunctionCall { call: String, args: Vec<(String, Expression)> },
}

/// The mathematical value of an [`Expression`].
pub enum ExprModel {
    Value(JsonModel),
    Variable { var: Seq<char> },
    BinaryOp { op: Seq<char>, left: Box<ExprModel>, right: Box<ExprModel> },
    FunctionCall { call: Seq<char>, args: Seq<(Seq<char>, ExprModel)> },
}

/// The models of the first `n` named arguments.
pub open spec fn args_prefix(args: Vec<(String, Expression)>, n: nat) -> Seq<
    (Seq<char>, ExprModel),
>
    decreases args, n,
{
    if n == 0 || n > args.len() {
        Seq::empty()
    } else {
        args_prefix(args, (n - 1) as nat).push((args[n - 1].0@, args[n - 1].1.view()))
    }
}

impl View for Expression {
    type V = ExprModel;

    open spec fn view(&self) -> ExprModel
        decreases self, 0nat,
    {
        match self {
            Expression::Value(v) => ExprModel::Value(v@),
            Expression::Variable { var } => ExprModel::Variable { var: var@ },
            Expression::BinaryOp { expr } => ExprModel::BinaryOp {
                op: expr.op@,
                left: Box::new(expr.left.view()),
                right: Box::new(expr.right.view()),
            },
            Expression::FunctionCall { call, args } => ExprModel::FunctionCall {
                call: call@,
                args: args_prefix(*args, args.len() as nat),
            },
        }
    }
}

/// The named arguments that a vector of pairs stands for.
pub open spec fn args_view(args: Seq<(String, Expression)>) -> Seq<(Seq<char>, ExprModel)> {
    Seq::new(args.len(), |i: int| (args[i].0@, args[i].1@))
}

/// The prefix of `n` arguments is the view of the first `n` arguments.
proof fn lemma_args_prefix(args: Vec<(String, Expression)>, n: nat)
    requires
        n <= args.len(),
    ensures
        args_prefix(args, n) == args_view(args@.take(n as int)),
    decreases n,
{
    let want = args_view(args@.take(n as int));
    if n > 0 {
        assert(args_prefix(args, n) == args_prefix(args, (n - 1) as nat).push(
            (args[n - 1].0@, args[n - 1].1.view()),
        ));
        lemma_args_prefix(args, (n - 1) as nat);
        let shorter = args_view(args@.take(n - 1));
        assert forall|i: int| 0 <= i < n implies args_prefix(args, n)[i] == want[i] by {
            if i < n - 1 {
                assert(shorter[i].1 == args@.take(n - 1)[i].1@);
            }
        }
    }
    assert(args_prefix(args, n) =~= want);
}

/// A call's model lists the models of its arguments, in order.
pub proof fn lemma_view_call(call: String, args: Vec<(String, Expression)>)
    ensures
        (Expression::FunctionCall { call, args })@ == (ExprModel::FunctionCall {
            call: call@,
            args: args_view(args@),
        }),
{
    lemma_args_prefix(args, args.len() as nat);
    assert(args@.take(args.len() as int) =~= args@);
}

/// A copy of a list of named arguments.
pub fn clone_args(args: &Vec<(String, Expression)>) -> (r: Vec<(String, Expression)>)
    ensures
        args_view(r@) == args_view(args@),
    decreases args,
{
    let mut out: Vec<(String, Expression)> = Vec::new();
    let mut i: usize = 0;
    while i < args.len()
        invariant
            i <= args.len(),
            out.len() == i,
            forall|j: int| 0 <= j < i ==> out[j].0@ == args[j].0@ && out[j].1@ == args[j].1@,
        decreases args.len() - i,
    {
        out.push((args[i].0.clone(), args[i].1.clone()));
        i += 1;
    }
    assert(args_view(out@) =~= args_view(args@));
    out
}

impl Clone for Expression {
    fn clone(&self) -> (r: Expression)
        ensures
            r@ == self@,
        decreases self,
    {
        match self {
            Expression::Value(v) => Expression::Value(v.clone()),
            Expression::Variable { var } => Expression::Variable { var: var.clone() },
            Expression::BinaryOp { expr } => Expression::BinaryOp {
                expr: Box::new(
                    BinaryExpr {
                        op: expr.op.clone(),
                        left: expr.left.clone(),
                        right: expr.right.clone(),
                    },
                ),
            },
            Expression::FunctionCall { call, args } => {
                let out = clone_args(args);
                let name = call.clone();
                proof {
                    lemma_view_call(name, out);
                    lemma_view_call(*call, *args);
                }
                Expression::FunctionCall { call: name, args: out }
            },
        }
    }
}

/// A condition: a comparison of two expressions, a conjunction, a disjunction
/// or a negation.
#[derive(Debug)]
pub enum Condition {
    Comparison { op: ComparisonOp, left: Expression, right: Expression },
    And { operands: Vec<Condition> },
    Or { operands: Vec<Condition> },
    Not { operand: Box<Condition> },
}

/// The mathematical value of a [`Condition`].
pub enum CondModel {
    Comparison { op: ComparisonOp, left: ExprModel, right: ExprModel },
    And { operands: Seq<CondModel> },
    Or { operands: Seq<CondModel> },
    Not { operand: Box<CondModel> },
}

/// The models of the first `n` operands.
pub open spec fn conds_prefix(operands: Vec<Condition>, n: nat) -> Seq<CondModel>
    decreases operands, n,
{
    if n == 0 || n > operands.len() {
        Seq::empty()
    } else {
        conds_prefix(operands, (n - 1) as nat).push(operands[n - 1].view())
    }
}

impl View for Condition {
    type V = CondModel;

    open spec fn view(&self) -> CondModel
        decreases self, 0nat,
    {
        match self {
            Condition::Comparison { op, left, right } => CondModel::Comparison {
                op: *op,
                left: left@,
                right: right@,
            },
            Condition::And { operands } => CondModel::And {
                operands: conds_prefix(*operands, operands.len() as nat),
            },
            Condition::Or { operands } => CondModel::Or {
                operands: conds_prefix(*operands, operands.len() as nat),
            },
            Condition::Not { operand } => CondModel::Not { operand: Box::new((**operand).view()) },
        }
    }
}

/// The operand list that a vector of conditions stands for.
pub open spec fn conds_view(operands: Seq<Condition>) -> Seq<CondModel> {
    Seq::new(operands.len(), |i: int| operands[i]@)
}

/// The prefix of `n` operands is the view of the first `n` operands.
proof fn lemma_conds_prefix(operands: Vec<Condition>, n: nat)
    requires
        n <= operands.len(),
    ensures
        conds_prefix(operands, n) == conds_view(operands@.take(n as int)),
    decreases n,
{
    let want = conds_view(operands@.take(n as int));
    if n > 0 {
        assert(conds_prefix(operands, n) == conds_prefix(operands, (n - 1) as nat).push(
            operands[n - 1].view(),
        ));
        lemma_conds_prefix(operands, (n - 1) as nat);
        let shorter = conds_view(operands@.take(n - 1));
        assert forall|i: int| 0 <= i < n implies conds_prefix(operands, n)[i] == want[i] by {
            if i < n - 1 {
                assert(shorter[i] == operands@.take(n - 1)[i]@);
            }
        }
    }
    assert(conds_prefix(operands, n) =~= want);
}

/// The model of a conjunction or disjunction lists the models of its
/// operands, in order.
pub proof fn lemma_view_operands(operands: Vec<Condition>)
    ensures
        (Condition::And { operands })@ == (CondModel::And { operands: conds_view(operands@) }),
        (Condition::Or { operands })@ == (CondModel::Or { operands: conds_view(operands@) }),
{
    lemma_conds_prefix(operands, operands.len() as nat);
    assert(operands@.take(operands.len() as int) =~= operands@);
}

/// A copy of a list of conditions.
pub fn clone_conds(operands: &Vec<Condition>) -> (r: Vec<Condition>)
    ensures
        conds_view(r@) == conds_view(operands@),
    decreases operands,
{
    let mut out: Vec<Condition> = Vec::new();
    let mut i: usize = 0;
    while i < operands.len()
        invariant
            i <= operands.len(),
            out.len() == i,
            forall|j: int| 0 <= j < i ==> out[j]@ == operands[j]@,
        decreases operands.len() - i,
    {
        out.push(operands[i].clone());
        i += 1;
    }
    assert(conds_view(out@) =~= conds_view(operands@));
    out
}

impl Clone for Condition {
    fn clone(&self) -> (r: Condition)
        ensures
            r@ == self@,
        decreases self,
    {
        match self {
            Condition::Comparison { op, left, right } => Condition::Comparison {
                op: *op,
                left: left.clone(),
                right: right.clone(),
            },
            Condition::And { operands } => {
                let out = clone_conds(operands);
                proof {
                    lemma_view_operands(out);
                    lemma_view_operands(*operands);
                }
                Condition::And { operands: out }
            },
            Condition::Or { operands } => {
                let out = clone_conds(operands);
                proof {
                    lemma_view_operands(out);
                    lemma_view_operands(*operands);
                }
                Condition::Or { operands: out }
            },
            Condition::Not { operand } => {
                let inner: &Condition = &**operand;
                Condition::Not { operand: Box::new(inner.clone()) }
            },
        }
    }
}

/// A copy of a list of strings.
pub fn clone_strings(items: &Vec<String>) -> (r: Vec<String>)
    ensures
        texts_view(r@) == texts_view(items@),
{
    let mut out: Vec<String> = Vec::new();
    let mut i: usize = 0;
    while i < items.len()
        invariant
            i <= items.len(),
            out.len() == i,
            forall|j: int| 0 <= j < i ==> out[j]@ == items[j]@,
        decreases items.len() - i,
    {
        out.push(items[i].clone());
        i += 1;
    }
    assert(texts_view(out@) =~= texts_view(items@));
    out
}

/// One causal event: who acts, what kind of action, on what, with optional
/// timing, parameters, conditions and effect tags. A compound action (`If`,
/// `While`, `For`) carries its condition, bounds and nested sequences in the
/// fields named for them.
#[derive(Debug)]
pub struct Action {
    /// Who or what initiates the action.
    pub actor: String,
    /// The kind of action.
    pub op: Operation,
    /// What is acted upon.
    pub target: String,
    /// When the action occurs, as a binary64 bit pattern.
    pub t: Option<u64>,
    /// How long it lasts, as a binary64 bit pattern.
    pub dur: Option<u64>,
    /// Named arguments.
    pub params: Option<Vec<(String, Value)>>,
    /// Required precondition.
    pub pre: Option<String>,
    /// Resulting condition.
    pub post: Option<String>,
    /// Domain tags.
    pub effects: Option<Vec<String>>,
    /// Condition of an `If` or a `While`.
    pub condition: Option<Condition>,
    /// Branch of an `If` taken when the condition holds.
    pub then_actions: Option<Vec<Action>>,
    /// Branch of an `If` taken when the condition does not hold.
    pub else_actions: Option<Vec<Action>>,
    /// Body of a `While` or a `For`.
    pub body_actions: Option<Vec<Action>>,
    /// Variable that a `For` binds on each iteration.
    pub loop_var: Option<String>,
    /// First value of a `For`.
    pub from_expr: Option<Expression>,
    /// Last value of a `For`, included.
    pub to_expr: Option<Expression>,
}

/// The mathematical value of an [`Action`].
pub struct ActionModel {
    pub actor: Seq<char>,
    pub op: OperationModel,
    pub target: Seq<char>,
    pub t: Option<u64>,
    pub dur: Option<u64>,
    pub params: Option<Seq<(Seq<char>, JsonModel)>>,
    pub pre: Option<Seq<char>>,
    pub post: Option<Seq<char>>,
    pub effects: Option<Seq<Seq<char>>>,
    pub condition: Option<CondModel>,
    pub then_actions: Option<Seq<ActionModel>>,
    pub else_actions: Option<Seq<ActionModel>>,
    pub body_actions: Option<Seq<ActionModel>>,
    pub loop_var: Option<Seq<char>>,
    pub from_expr: Option<ExprModel>,
    pub to_expr: Option<ExprModel>,
}

/// The models of the first `n` actions.
pub open spec fn actions_prefix(actions: Vec<Action>, n: nat) -> Seq<ActionModel>
    decreases actions, n,
{
    if n == 0 || n > actions.len() {
        Seq::empty()
    } else {
        actions_prefix(actions, (n - 1) as nat).push(actions[n - 1].view())
    }
}

/// The text of an optional string.
pub open spec fn text_view(s: Option<String>) -> Option<Seq<char>> {
    match s {
        Some(s) => Some(s@),
        None => None,
    }
}

impl View for Action {
    type V = ActionModel;

    open spec fn view(&self) -> ActionModel
        decreases self, 0nat,
    {
        ActionModel {
            actor: self.actor@,
            op: self.op@,
            target: self.target@,
            t: self.t,
            dur: self.dur,
            params: match self.params {
                Some(entries) => Some(entries_view(entries@)),
                None => None,
            },
            pre: text_view(self.pre),
            post: text_view(self.post),
            effects: match self.effects {
                Some(tags) => Some(texts_view(tags@)),
                None => None,
            },
            condition: match self.condition {
                Some(c) => Some(c@),
                None => None,
            },
            then_actions: match self.then_actions {
                Some(actions) => Some(actions_prefix(actions, actions.len() as nat)),
                None => None,
            },
            else_actions: match self.else_actions {
                Some(actions) => Some(actions_prefix(actions, actions.len() as nat)),
                None => None,
            },
            body_actions: match self.body_actions {
                Some(actions) => Some(actions_prefix(actions, actions.len() as nat)),
                None => None,
            },
            loop_var: text_view(self.loop_var),
            from_expr: match self.from_expr {
                Some(e) => Some(e@),
                None => None,
            },
            to_expr: match self.to_expr {
                Some(e) => Some(e@),
                None => None,
            },
        }
    }
}

/// The sequence that a vector of actions stands for.
pub open spec fn actions_view(actions: Seq<Action>) -> Seq<ActionModel> {
    Seq::new(actions.len(), |i: int| actions[i]@)
}

/// The sequence that an optional vector of actions stands for.
pub open spec fn block_view(actions: Option<Vec<Action>>) -> Option<Seq<ActionModel>> {
    match actions {
        Some(actions) => Some(actions_view(actions@)),
        None => None,
    }
}

/// The prefix of `n` actions is the view of the first `n` actions.
proof fn lemma_actions_prefix(actions: Vec<Action>, n: nat)
    requires
        n <= actions.len(),
    ensures
        actions_prefix(actions, n) == actions_view(actions@.take(n as int)),
    decreases n,
{
    let want = actions_view(actions@.take(n as int));
    if n > 0 {
        assert(actions_prefix(actions, n) == actions_prefix(actions, (n - 1) as nat).push(
            actions[n - 1].view(),
        ));
        lemma_actions_prefix(actions, (n - 1) as nat);
        let shorter = actions_view(actions@.take(n - 1));
        assert forall|i: int| 0 <= i < n implies actions_prefix(actions, n)[i] == want[i] by {
            if i < n - 1 {
                assert(shorter[i] == actions@.take(n - 1)[i]@);
            }
        }
    }
    assert(actions_prefix(actions, n) =~= want);
}

/// The prefix of full length is the whole sequence.
pub proof fn lemma_actions_full(actions: Vec<Action>)
    ensures
        actions_prefix(actions, actions.len() as nat) == actions_view(actions@),
{
    lemma_actions_prefix(actions, actions.len() as nat);
    assert(actions@.take(actions.len() as int) =~= actions@);
}

/// An action's model lists the models of its nested sequences, in order.
pub proof fn lemma_view_action(a: Action)
    ensures
        a@.then_actions == block_view(a.then_actions),
        a@.else_actions == block_view(a.else_actions),
        a@.body_actions == block_view(a.body_actions),
{
    if let Some(actions) = a.then_actions {
        lemma_actions_full(actions);
    }
    if let Some(actions) = a.else_actions {
        lemma_actions_full(actions);
    }
    if let Some(actions) = a.body_actions {
        lemma_actions_full(actions);
    }
}

/// A copy of a sequence of actions.
pub fn clone_actions(actions: &Vec<Action>) -> (r: Vec<Action>)
    ensures
        actions_view(r@) == actions_view(actions@),
    decreases actions,
{
    let mut out: Vec<Action> = Vec::new();
    let mut i: usize = 0;
    while i < actions.len()
        invariant
            i <= actions.len(),
            out.len() == i,
            forall|j: int| 0 <= j < i ==> out[j]@ == actions[j]@,
        decreases actions.len() - i,
    {
        out.push(actions[i].clone());
        i += 1;
    }
    assert(actions_view(out@) =~= actions_view(actions@));
    out
}

/// A copy of an optional string.
pub fn clone_text(s: &Option<String>) -> (r: Option<String>)
    ensures
        text_view(r) == text_view(*s),
{
    match s {
        Some(s) => Some(s.clone()),
        None => None,
    }
}

impl Clone for Action {
    fn clone(&self) -> (r: Action)
        ensures
            r@ == self@,
        decreases self,
    {
        let r = Action {
            actor: self.actor.clone(),
            op: self.op.clone(),
            target: self.target.clone(),
            t: self.t,
            dur: self.dur,
            params: match &self.params {
                Some(entries) => Some(clone_entries(entries)),
                None => None,
            },
            pre: clone_text(&self.pre),
            post: clone_text(&self.post),
            effects: match &self.effects {
                Some(tags) => Some(clone_strings(tags)),
                None => None,
            },
            condition: match &self.condition {
                Some(c) => Some(c.clone()),
                None => None,
            },
            then_actions: match &self.then_actions {
                Some(actions) => Some(clone_actions(actions)),
                None => None,
            },
            else_actions: match &self.else_actions {
                Some(actions) => Some(clone_actions(actions)),
                None => None,
            },
            body_actions: match &self.body_actions {
                Some(actions) => Some(clone_actions(actions)),
                None => None,
            },
            loop_var: clone_text(&self.loop_var),
            from_expr: match &self.from_expr {
                Some(e) => Some(e.clone()),
                None => None,
            },
            to_expr: match &self.to_expr {
                Some(e) => Some(e.clone()),
                None => None,
            },
        };
        proof {
            lemma_view_action(r);
            lemma_view_action(*self);
        }
        r
    }
}

impl Action {
    /// An action with its three required fields and nothing else.
    pub fn new(actor: &str, op: Operation, target: &str) -> (r: Action)
        ensures
            r@ == (ActionModel {
                actor: actor@,
                op: op@,
                target: target@,
                t: None,
                dur: None,
                params: None,
                pre: None,
                post: None,
                effects: None,
                condition: None,
                then_actions: None,
                else_actions: None,
                body_actions: None,
                loop_var: None,
                from_expr: None,
                to_expr: None,
            }),
    {
        Action {
            actor: String::from_str(actor),
            op,
            target: String::from_str(target),
            t: None,
            dur: None,
            params: None,
            pre: None,
            post: None,
            effects: None,
            condition: None,
            then_actions: None,
            else_actions: None,
            body_actions: None,
            loop_var: None,
            from_expr: None,
            to_expr: None,
        }
    }

    /// The action with its time set to the binary64 pattern `t`.
    pub fn with_time(self, t: u64) -> (r: Action)
        ensures
            r@ == (ActionModel { t: Some(t), ..self@ }),
    {
        let mut r = self;
        r.t = Some(t);
        proof {
            lemma_view_action(r);
            lemma_view_action(self);
        }
        r
    }

    /// The action with its duration set to the binary64 pattern `dur`.
    pub fn with_duration(self, dur: u64) -> (r: Action)
        ensures
            r@ == (ActionModel { dur: Some(dur), ..self@ }),
    {
        let mut r = self;
        r.dur = Some(dur);
        proof {
            lemma_view_action(r);
            lemma_view_action(self);
        }
        r
    }

    /// The action with its parameters set.
    pub fn with_params(self, params: Vec<(String, Value)>) -> (r: Action)
        ensures
            r@ == (ActionModel { params: Some(entries_view(params@)), ..self@ }),
    {
        let mut r = self;
        r.params = Some(params);
        proof {
            lemma_view_action(r);
            lemma_view_action(self);
        }
        r
    }

    /// The action with its effect tags set.
    pub fn with_effects(self, effects: Vec<String>) -> (r: Action)
        ensures
            r@ == (ActionModel { effects: Some(texts_view(effects@)), ..self@ }),
    {
        let mut r = self;
        r.effects = Some(effects);
        proof {
            lemma_view_action(r);
            lemma_view_action(self);
        }
        r
    }
}

/// A function that a program defined: its parameter names and its body.
#[derive(Debug)]
pub struct FunctionDef {
    pub args: Vec<String>,
    pub body: Vec<Action>,
}

/// The mathematical value of a [`FunctionDef`].
pub struct FunctionModel {
    pub args: Seq<Seq<char>>,
    pub body: Seq<ActionModel>,
}

impl View for FunctionDef {
    type V = FunctionModel;

    open spec fn view(&self) -> FunctionModel {
        FunctionModel { args: texts_view(self.args@), body: actions_view(self.body@) }
    }
}

impl Clone for FunctionDef {
    fn clone(&self) -> (r: FunctionDef)
        ensures
            r@ == self@,
    {
        FunctionDef { args: clone_strings(&self.args), body: clone_actions(&self.body) }
    }
}

/// A program: optional metadata and the sequence of actions to run.
#[derive(Debug)]
pub struct Program {
    pub metadata: Option<Vec<(String, Value)>>,
    pub actions: Vec<Action>,
}

/// The mathematical value of a [`Program`].
pub struct ProgramModel {
    pub metadata: Option<Seq<(Seq<char>, JsonModel)>>,
    pub actions: Seq<ActionModel>,
}

impl View for Program {
    type V = ProgramModel;

    open spec fn view(&self) -> ProgramModel {
        ProgramModel {
            metadata: match self.metadata {
                Some(entries) => Some(entries_view(entries@)),
                None => None,
            },
            actions: actions_view(self.actions@),
        }
    }
}

impl Program {
    /// The empty program.
    pub fn new() -> (r: Program)
        ensures
            r@ == (ProgramModel { metadata: None, actions: Seq::empty() }),
    {
        let r = Program { metadata: None, actions: Vec::new() };
        assert(actions_view(r.actions@) =~= Seq::empty());
        r
    }

    /// Appends an action to the program.
    pub fn add_action(&mut self, action: Action)
        ensures
            final(self)@ == (ProgramModel {
                actions: old(self)@.actions.push(action@),
                ..old(self)@
            }),
    {
        self.actions.push(action);
        assert(actions_view(self.actions@) =~= actions_view(old(self).actions@).push(action@));
    }
}

impl Default for Program {
    fn default() -> (r: Program)
        ensures
            r@ == (ProgramModel { metadata: None, actions: Seq::empty() }),
    {
        Program::new()
    }
}

} // verus!
