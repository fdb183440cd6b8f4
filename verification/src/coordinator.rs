//! Runs a program on several substrates: each action on the substrate that
//! its actor names.
//!
//! The coordinator decides and keeps state. Running Ruby text is the
//! caller's part: for an action of the Ruby machine the coordinator gives
//! the text to run, and takes back what the run printed.

use crate::ast::{actions_view, Action, ActionModel, Operation, OperationModel, Program};
use crate::compiler::ruby::{ruby_program, RubyCompiler};
use crate::error::{ErrorModel, ExecError};
use crate::guard::{RecursionGuard, DEFAULT_MAX_DEPTH};
use crate::handler::outcome_view;
use crate::params::{get_param_text, param_text};
use crate::semantics::{exec_block, Outcome, World};
use crate::simulator::brain::{BrainMind, BrainModel, BrainSimulator, BrainState};
use crate::table::Table;
use crate::text::str_equal;
use crate::value::{JsonModel, Value};
use vstd::prelude::*;
use vstd::string::*;

verus! {

/// Where an action runs.
#[derive(Clone, Copy, Debug, PartialEq, Eq, Structural)]
pub enum Substrate {
    Ruby,
    Brain,
    Coordinator,
}

/// The substrate that an actor names: `RubyVM` the Ruby machine,
/// `Coordinator` the coordinator, every other actor the mind.
pub open spec fn substrate_named(actor: Seq<char>) -> Substrate {
    if actor == "RubyVM"@ {
        Substrate::Ruby
    } else if actor == "Coordinator"@ {
        Substrate::Coordinator
    } else {
        Substrate::Brain
    }
}

/// The substrate that an actor names.
pub fn substrate_of(actor: &str) -> (r: Substrate)
    ensures
        r == substrate_named(actor@),
{
    if str_equal(actor, "RubyVM") {
        Substrate::Ruby
    } else if str_equal(actor, "Coordinator") {
        Substrate::Coordinator
    } else {
        Substrate::Brain
    }
}

/// The number of the first `n` actions that run on `substrate`.
pub open spec fn count_on(actions: Seq<ActionModel>, n: nat, substrate: Substrate) -> nat
    decreases n,
{
    if n == 0 || n > actions.len() {
        0
    } else {
        count_on(actions, (n - 1) as nat, substrate) + (if substrate_named(actions[n - 1].actor)
            == substrate {
            1nat
        } else {
            0nat
        })
    }
}

/// How many actions of a program run on each substrate.
#[derive(Clone, Copy, Debug)]
pub struct ExecutionPlan {
    pub ruby: usize,
    pub brain: usize,
    pub coordinator: usize,
}

/// No substrate has more actions than there are.
proof fn lemma_count_bound(actions: Seq<ActionModel>, n: nat, substrate: Substrate)
    requires
        n <= actions.len(),
    ensures
        count_on(actions, n, substrate) <= n,
    decreases n,
{
    if n > 0 {
        lemma_count_bound(actions, (n - 1) as nat, substrate);
    }
}

/// Counts the actions of a program by substrate.
pub fn plan(program: &Program) -> (r: ExecutionPlan)
    ensures
        r.ruby == count_on(program@.actions, program@.actions.len(), Substrate::Ruby),
        r.brain == count_on(program@.actions, program@.actions.len(), Substrate::Brain),
        r.coordinator == count_on(
            program@.actions,
            program@.actions.len(),
            Substrate::Coordinator,
        ),
{
    let ghost av = actions_view(program.actions@);
    let mut r = ExecutionPlan { ruby: 0, brain: 0, coordinator: 0 };
    let mut i: usize = 0;
    while i < program.actions.len()
        invariant
            i <= program.actions.len(),
            av == actions_view(program.actions@),
            r.ruby == count_on(av, i as nat, Substrate::Ruby),
            r.brain == count_on(av, i as nat, Substrate::Brain),
            r.coordinator == count_on(av, i as nat, Substrate::Coordinator),
        decreases program.actions.len() - i,
    {
        proof {
            lemma_count_bound(av, i as nat, Substrate::Ruby);
            lemma_count_bound(av, i as nat, Substrate::Brain);
            lemma_count_bound(av, i as nat, Substrate::Coordinator);
        }
        match substrate_of(program.actions[i].actor.as_str()) {
            Substrate::Ruby => {
                r.ruby += 1;
            },
            Substrate::Brain => {
                r.brain += 1;
            },
            Substrate::Coordinator => {
                r.coordinator += 1;
            },
        }
        i += 1;
    }
    r
}

/// What is left to do for an action once the coordinator has done its part.
#[derive(Debug)]
pub enum Task {
    /// Nothing: the action is done.
    Done,
    /// Ruby text to run. What the run prints is the action's result.
    RunRuby { code: String },
}

/// The mathematical value of a [`Task`].
pub enum TaskModel {
    Done,
    RunRuby { code: Seq<char> },
}

impl View for Task {
    type V = TaskModel;

    open spec fn view(&self) -> TaskModel {
        match self {
            Task::Done => TaskModel::Done,
            Task::RunRuby { code } => TaskModel::RunRuby { code: code@ },
        }
    }
}

/// The state of a coordinator.
pub struct CoordinatorModel {
    pub ruby_state: Map<Seq<char>, JsonModel>,
    pub brain: World<BrainModel>,
    pub shared_memory: Map<Seq<char>, JsonModel>,
}

/// The shared memory after the coordinator receives the target from a
/// source: what the mind believes under it, or what the Ruby machine holds
/// under it.
pub open spec fn received(m: CoordinatorModel, a: ActionModel) -> Map<Seq<char>, JsonModel> {
    match param_text(a, "source"@) {
        Some(source) => if source == "BrainVM"@ {
            if m.brain.store.contains_key(a.target) {
                m.shared_memory.insert(a.target, m.brain.store[a.target])
            } else {
                m.shared_memory
            }
        } else if source == "RubyVM"@ {
            if m.ruby_state.contains_key(a.target) {
                m.shared_memory.insert(a.target, m.ruby_state[a.target])
            } else {
                m.shared_memory
            }
        } else {
            m.shared_memory
        },
        None => m.shared_memory,
    }
}

/// The state of the Ruby machine after the coordinator sends it the target
/// from the shared memory.
pub open spec fn sent(m: CoordinatorModel, a: ActionModel) -> Map<Seq<char>, JsonModel> {
    match param_text(a, "destination"@) {
        Some(destination) => if m.shared_memory.contains_key(a.target) && destination
            == "RubyVM"@ {
            m.ruby_state.insert(a.target, m.shared_memory[a.target])
        } else {
            m.ruby_state
        },
        None => m.ruby_state,
    }
}

/// What an action of the coordinator does: `Receive` takes a value into
/// the shared memory, `Emit` sends one to the Ruby machine, and any other
/// operation does nothing.
pub open spec fn coordinated(m: CoordinatorModel, a: ActionModel) -> CoordinatorModel {
    match a.op {
        OperationModel::Receive => CoordinatorModel { shared_memory: received(m, a), ..m },
        OperationModel::Emit => CoordinatorModel { ruby_state: sent(m, a), ..m },
        _ => m,
    }
}

/// The Ruby text of a program of one action.
pub open spec fn ruby_of(a: ActionModel) -> Result<Seq<char>, ErrorModel> {
    ruby_program(seq![a], 0, Map::empty()).result
}

/// Coordinates execution across several substrates.
pub struct MultiSubstrateCoordinator {
    ruby_state: Table<Value>,
    brain_simulator: BrainSimulator,
    shared_memory: Table<Value>,
    verbose: bool,
}

impl View for MultiSubstrateCoordinator {
    type V = CoordinatorModel;

    closed spec fn view(&self) -> CoordinatorModel {
        CoordinatorModel {
            ruby_state: self.ruby_state@,
            brain: self.brain_simulator.world(),
            shared_memory: self.shared_memory@,
        }
    }
}

impl MultiSubstrateCoordinator {
    /// Whether the coordinator was asked to report each step.
    pub closed spec fn is_verbose(&self) -> bool {
        self.verbose
    }

    /// The guard of the mind.
    pub closed spec fn guard(&self) -> RecursionGuard {
        self.brain_simulator.guard()
    }

    /// A coordinator of substrates that hold nothing.
    pub fn new() -> (r: MultiSubstrateCoordinator)
        ensures
            r@ == (CoordinatorModel {
                ruby_state: Map::empty(),
                brain: BrainState::blank(0),
                shared_memory: Map::empty(),
            }),
            r.guard() == (RecursionGuard { depth: 0, max_depth: DEFAULT_MAX_DEPTH }),
            !r.is_verbose(),
    {
        MultiSubstrateCoordinator {
            ruby_state: Table::new(),
            brain_simulator: BrainSimulator::new(),
            shared_memory: Table::new(),
            verbose: false,
        }
    }

    /// The coordinator with its wish for step reports set, for itself and
    /// for the mind.
    pub fn with_verbose(self, verbose: bool) -> (r: MultiSubstrateCoordinator)
        ensures
            r@ == self@,
            r.guard() == self.guard(),
            r.is_verbose() == verbose,
    {
        MultiSubstrateCoordinator {
            ruby_state: self.ruby_state,
            brain_simulator: self.brain_simulator.with_verbose(verbose),
            shared_memory: self.shared_memory,
            verbose,
        }
    }

    /// Whether step reports are wished for.
    pub fn verbose(&self) -> (r: bool)
        ensures
            r == self.is_verbose(),
    {
        self.verbose
    }

    /// What the Ruby machine holds.
    pub fn ruby_state(&self) -> (r: &Table<Value>)
        ensures
            r@ == self@.ruby_state,
    {
        &self.ruby_state
    }

    /// What the coordinator holds for passing on.
    pub fn shared_memory(&self) -> (r: &Table<Value>)
        ensures
            r@ == self@.shared_memory,
    {
        &self.shared_memory
    }

    /// The mind.
    pub fn brain(&self) -> (r: &BrainSimulator)
        ensures
            r.world() == self@.brain,
    {
        &self.brain_simulator
    }

    /// The Ruby text to run for an action of the Ruby machine: the text of
    /// the program of that one action.
    pub fn execute_ruby_action(&self, action: &Action) -> (r: Result<String, ExecError>)
        ensures
            crate::compiler::ruby::text_view(r) == ruby_of(action@),
    {
        let mut actions: Vec<Action> = Vec::new();
        actions.push(action.clone());
        assert(actions_view(actions@) =~= seq![action@]);
        let program = Program { metadata: None, actions };
        let mut compiler = RubyCompiler::new();
        compiler.compile(&program)
    }

    /// Keeps what the run of an action's Ruby text printed as the value
    /// that the Ruby machine holds under the action's target.
    pub fn record_ruby_result(&mut self, action: &Action, result: Value)
        ensures
            final(self)@ == (CoordinatorModel {
                ruby_state: old(self)@.ruby_state.insert(action@.target, result@),
                ..old(self)@
            }),
            final(self).guard() == old(self).guard(),
            final(self).is_verbose() == old(self).is_verbose(),
    {
        self.ruby_state.insert(action.target.clone(), result);
    }

    /// Runs an action on the mind.
    pub fn execute_brain_action(&mut self, action: &Action) -> (r: Result<(), ExecError>)
        ensures
            (Outcome { result: outcome_view(r), world: final(self)@.brain }) == exec_block::<
                BrainMind,
            >(seq![action@], 0, old(self)@.brain, old(self).guard()),
            final(self)@.ruby_state == old(self)@.ruby_state,
            final(self)@.shared_memory == old(self)@.shared_memory,
            final(self).guard() == old(self).guard(),
            final(self).is_verbose() == old(self).is_verbose(),
    {
        let mut actions: Vec<Action> = Vec::new();
        actions.push(action.clone());
        assert(actions_view(actions@) =~= seq![action@]);
        let program = Program { metadata: None, actions };
        self.brain_simulator.execute(&program)
    }

    /// Does an action of the coordinator itself.
    pub fn execute_coordinator_action(&mut self, action: &Action) -> (r: Result<(), ExecError>)
        ensures
            r is Ok,
            final(self)@ == coordinated(old(self)@, action@),
            final(self).guard() == old(self).guard(),
            final(self).is_verbose() == old(self).is_verbose(),
    {
        match &action.op {
            Operation::Receive => {
                match get_param_text(action, "source") {
                    Some(source) => {
                        if str_equal(source, "BrainVM") {
                            let state = self.brain_simulator.state();
                            match state.beliefs.get(action.target.as_str()) {
                                Some(v) => {
                                    let copy = v.clone();
                                    self.shared_memory.insert(action.target.clone(), copy);
                                },
                                None => {},
                            }
                        } else if str_equal(source, "RubyVM") {
                            match self.ruby_state.get(action.target.as_str()) {
                                Some(v) => {
                                    let copy = v.clone();
                                    self.shared_memory.insert(action.target.clone(), copy);
                                },
                                None => {},
                            }
                        }
                    },
                    None => {},
                }
            },
            Operation::Emit => {
                match get_param_text(action, "destination") {
                    Some(destination) => {
                        match self.shared_memory.get(action.target.as_str()) {
                            Some(v) => {
                                if str_equal(destination, "RubyVM") {
                                    let copy = v.clone();
                                    self.ruby_state.insert(action.target.clone(), copy);
                                }
                            },
                            None => {},
                        }
                    },
                    None => {},
                }
            },
            _ => {},
        }
        Ok(())
    }

    /// Does the coordinator's part of an action, on the substrate that the
    /// action's actor names, and says what is left to do.
    pub fn step(&mut self, action: &Action) -> (r: Result<Task, ExecError>)
        ensures
            match substrate_named(action@.actor) {
                Substrate::Ruby => final(self)@ == old(self)@ && match r {
                    Ok(task) => ruby_of(action@) == Ok::<Seq<char>, ErrorModel>(task@->code)
                        && task@ is RunRuby,
                    Err(e) => ruby_of(action@) == Err::<Seq<char>, ErrorModel>(e@),
                },
                Substrate::Brain => (Outcome {
                    result: match r {
                        Ok(_) => Ok(()),
                        Err(e) => Err(e@),
                    },
                    world: final(self)@.brain,
                }) == exec_block::<BrainMind>(
                    seq![action@],
                    0,
                    old(self)@.brain,
                    old(self).guard(),
                ) && final(self)@.ruby_state == old(self)@.ruby_state
                    && final(self)@.shared_memory == old(self)@.shared_memory
                    && (r is Ok ==> r->Ok_0@ is Done),
                Substrate::Coordinator => final(self)@ == coordinated(old(self)@, action@) && r
                    is Ok && r->Ok_0@ is Done,
            },
            final(self).guard() == old(self).guard(),
            final(self).is_verbose() == old(self).is_verbose(),
    {
        match substrate_of(action.actor.as_str()) {
            Substrate::Ruby => match self.execute_ruby_action(action) {
                Ok(code) => Ok(Task::RunRuby { code }),
                Err(e) => Err(e),
            },
            Substrate::Brain => match self.execute_brain_action(action) {
                Ok(()) => Ok(Task::Done),
                Err(e) => Err(e),
            },
            Substrate::Coordinator => match self.execute_coordinator_action(action) {
                Ok(()) => Ok(Task::Done),
                Err(e) => Err(e),
            },
        }
    }
}

impl Default for MultiSubstrateCoordinator {
    fn default() -> (r: MultiSubstrateCoordinator)
        ensures
            r@ == (CoordinatorModel {
                ruby_state: Map::empty(),
                brain: BrainState::blank(0),
                shared_memory: Map::empty(),
            }),
            r.guard() == (RecursionGuard { depth: 0, max_depth: DEFAULT_MAX_DEPTH }),
            !r.is_verbose(),
    {
        MultiSubstrateCoordinator::new()
    }
}

} // verus!
