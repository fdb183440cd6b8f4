//! A simulated robot as a host: objects that it handles, what its gripper
//! holds, and a log of what it did.
//!
//! The variables of the robot are the variable store of the run. Everything
//! else that a leaf action touches is the [`RobotBody`].

use crate::ast::{Action, ActionModel, FunctionDef, Operation, OperationModel, Program};
use crate::document::operation_debug;
use crate::error::{ErrorKind, ErrorModel, ExecError};
use crate::float;
use crate::guard::{RecursionGuard, DEFAULT_MAX_DEPTH};
use crate::handler::{outcome_view, Effect, EffectHandler, VariableStore};
use crate::interp::FunctionTable;
use crate::params::{get_param, get_text_or, get_text_or_target, param, text_or, text_or_target};
use crate::semantics::{exec_action, exec_block, Outcome, World};
use crate::simulator::brain::optional_text;
use crate::table::Table;
use crate::text::{push_text, texts_view};
use crate::value::{items_view, lemma_view_list, JsonModel, Value};
use vstd::prelude::*;
use vstd::string::*;

verus! {

/// A function that the robot has learned.
pub type RobotFunctionDef = FunctionDef;

/// Binary64 pattern of 20.0, the temperature of an object at rest.
pub const ROOM_TEMPERATURE: u64 = 0x4034_0000_0000_0000;

/// Binary64 pattern of 100.0, the temperature of a heated object.
pub const BOILING_TEMPERATURE: u64 = 0x4059_0000_0000_0000;

/// Binary64 pattern of 1.0, the duration of a `Wait` that names none.
pub const ONE_SECOND: u64 = 0x3FF0_0000_0000_0000;

/// An object that the robot handles. Coordinates and temperature are
/// binary64 patterns.
#[derive(Debug)]
pub struct ObjectState {
    pub position: (u64, u64, u64),
    pub container: Option<String>,
    pub temperature: u64,
    /// "solid", "liquid", "mixed" and the like.
    pub state: String,
}

/// The mathematical value of an [`ObjectState`].
pub struct ObjectModel {
    pub position: (u64, u64, u64),
    pub container: Option<Seq<char>>,
    pub temperature: u64,
    pub state: Seq<char>,
}

impl View for ObjectState {
    type V = ObjectModel;

    open spec fn view(&self) -> ObjectModel {
        ObjectModel {
            position: self.position,
            container: optional_text(self.container),
            temperature: self.temperature,
            state: self.state@,
        }
    }
}

impl Clone for ObjectState {
    fn clone(&self) -> (r: ObjectState)
        ensures
            r@ == self@,
    {
        ObjectState {
            position: self.position,
            container: match &self.container {
                Some(c) => Some(c.clone()),
                None => None,
            },
            temperature: self.temperature,
            state: self.state.clone(),
        }
    }
}

/// What a robot holds beside its variables.
#[derive(Debug)]
pub struct RobotBody {
    /// The objects that the robot knows, by name.
    pub objects: Table<ObjectState>,
    /// Where the arm is, as binary64 patterns.
    pub arm_position: (u64, u64, u64),
    /// What the gripper holds.
    pub gripper: Option<String>,
    /// Readings of temperature sensors, as binary64 patterns.
    pub temperatures: Table<u64>,
    /// What the robot did.
    pub log: Vec<String>,
    /// What the robot could not do.
    pub errors: Vec<String>,
}

/// The mathematical value of a [`RobotBody`].
pub struct RobotModel {
    pub objects: Map<Seq<char>, ObjectModel>,
    pub arm_position: (u64, u64, u64),
    pub gripper: Option<Seq<char>>,
    pub temperatures: Map<Seq<char>, u64>,
    pub log: Seq<Seq<char>>,
    pub errors: Seq<Seq<char>>,
}

/// An object as it is gathered: at the origin, in no container, at room
/// temperature, ready.
pub open spec fn gathered_object() -> ObjectModel {
    ObjectModel {
        position: (0, 0, 0),
        container: None,
        temperature: ROOM_TEMPERATURE,
        state: "ready"@,
    }
}

/// The objects after the texts among the first `n` items are gathered.
pub open spec fn gathered(
    items: Seq<JsonModel>,
    n: nat,
    objects: Map<Seq<char>, ObjectModel>,
) -> Map<Seq<char>, ObjectModel>
    decreases n,
{
    if n == 0 || n > items.len() {
        objects
    } else {
        let front = gathered(items, (n - 1) as nat, objects);
        match items[n - 1] {
            JsonModel::String(name) => front.insert(name, gathered_object()),
            _ => front,
        }
    }
}

/// The effect that logs a line and changes nothing else.
pub open spec fn logged(
    m: RobotModel,
    line: Seq<char>,
    store: Map<Seq<char>, JsonModel>,
) -> Effect<RobotModel> {
    Effect { host: RobotModel { log: m.log.push(line), ..m }, store, result: Ok(()) }
}

/// The objects with the object `name` changed by `change`, where there is
/// such an object.
pub open spec fn with_object(
    objects: Map<Seq<char>, ObjectModel>,
    name: Seq<char>,
    changed: spec_fn(ObjectModel) -> ObjectModel,
) -> Map<Seq<char>, ObjectModel> {
    if objects.contains_key(name) {
        objects.insert(name, changed(objects[name]))
    } else {
        objects
    }
}

/// `Gather`: every item named in `items` becomes an object.
pub open spec fn gather_effect(
    m: RobotModel,
    a: ActionModel,
    store: Map<Seq<char>, JsonModel>,
) -> Effect<RobotModel> {
    logged(
        RobotModel {
            objects: match param(a, "items"@) {
                Some(JsonModel::List(items)) => gathered(items, items.len(), m.objects),
                _ => m.objects,
            },
            ..m
        },
        "Gathered items for "@ + a.target,
        store,
    )
}

/// `Measure`: the amount is logged.
pub open spec fn measure_effect(
    m: RobotModel,
    a: ActionModel,
    store: Map<Seq<char>, JsonModel>,
) -> Effect<RobotModel> {
    logged(m, "Measured "@ + text_or(a, "amount"@, "unknown"@) + " of "@ + a.target, store)
}

/// `Heat`: the object boils.
pub open spec fn heat_effect(
    m: RobotModel,
    a: ActionModel,
    store: Map<Seq<char>, JsonModel>,
) -> Effect<RobotModel> {
    logged(
        RobotModel {
            objects: with_object(
                m.objects,
                a.target,
                |o: ObjectModel|
                    ObjectModel { temperature: BOILING_TEMPERATURE, state: "boiling"@, ..o },
            ),
            ..m
        },
        "Heating "@ + a.target + " to "@ + text_or(a, "temperature"@, "100°C"@),
        store,
    )
}

/// `Pour`: with parameters, the pouring is logged.
pub open spec fn pour_effect(
    m: RobotModel,
    a: ActionModel,
    store: Map<Seq<char>, JsonModel>,
) -> Effect<RobotModel> {
    match a.params {
        Some(_) => logged(
            m,
            "Poured "@ + a.target + " from "@ + text_or(a, "from"@, "?"@) + " into "@ + text_or(
                a,
                "into"@,
                "?"@,
            ) + " ("@ + text_or(a, "amount"@, "?"@) + ")"@,
            store,
        ),
        None => Effect { host: m, store, result: Ok(()) },
    }
}

/// `Mix`: the object is mixed.
pub open spec fn mix_effect(
    m: RobotModel,
    a: ActionModel,
    store: Map<Seq<char>, JsonModel>,
) -> Effect<RobotModel> {
    logged(
        RobotModel {
            objects: with_object(
                m.objects,
                a.target,
                |o: ObjectModel| ObjectModel { state: "mixed"@, ..o },
            ),
            ..m
        },
        "Mixed "@ + a.target,
        store,
    )
}

/// `Place`: the object is in the container.
pub open spec fn place_effect(
    m: RobotModel,
    a: ActionModel,
    store: Map<Seq<char>, JsonModel>,
) -> Effect<RobotModel> {
    let into = text_or(a, "into"@, "?"@);
    logged(
        RobotModel {
            objects: with_object(
                m.objects,
                a.target,
                |o: ObjectModel| ObjectModel { container: Some(into), ..o },
            ),
            ..m
        },
        "Placed "@ + a.target + " into "@ + into,
        store,
    )
}

/// `Remove`: the object is in no container.
pub open spec fn remove_effect(
    m: RobotModel,
    a: ActionModel,
    store: Map<Seq<char>, JsonModel>,
) -> Effect<RobotModel> {
    logged(
        RobotModel {
            objects: with_object(
                m.objects,
                a.target,
                |o: ObjectModel| ObjectModel { container: None, ..o },
            ),
            ..m
        },
        "Removed "@ + a.target + " from "@ + text_or(a, "from"@, "?"@),
        store,
    )
}

/// `Wait`: the wait is logged, in whole seconds.
pub open spec fn wait_effect(
    m: RobotModel,
    a: ActionModel,
    store: Map<Seq<char>, JsonModel>,
) -> Effect<RobotModel> {
    let duration = match a.dur {
        Some(bits) => bits,
        None => ONE_SECOND,
    };
    logged(m, "Waiting "@ + float::rounded_display(duration) + "s for "@ + a.target, store)
}

/// `Bind`: the `value` becomes the variable under the target.
pub open spec fn bind_effect(
    m: RobotModel,
    a: ActionModel,
    store: Map<Seq<char>, JsonModel>,
) -> Effect<RobotModel> {
    match param(a, "value"@) {
        Some(v) => Effect { host: m, store: store.insert(a.target, v), result: Ok(()) },
        None => Effect { host: m, store, result: Ok(()) },
    }
}

/// An operation that the robot does not support: it is noted as an error
/// and reported as unsupported.
pub open spec fn unsupported_effect(
    m: RobotModel,
    a: ActionModel,
    store: Map<Seq<char>, JsonModel>,
) -> Effect<RobotModel> {
    Effect {
        host: RobotModel {
            errors: m.errors.push("Unsupported operation: "@ + operation_debug(a.op)),
            ..m
        },
        store,
        result: Err(
            ErrorModel { kind: ErrorKind::UnsupportedOperation, subject: operation_debug(a.op), action: None },
        ),
    }
}

/// What the robot does with a leaf action.
pub open spec fn robot_effect(
    m: RobotModel,
    a: ActionModel,
    store: Map<Seq<char>, JsonModel>,
) -> Effect<RobotModel> {
    match a.op {
        OperationModel::Bind => bind_effect(m, a, store),
        OperationModel::Return => Effect { host: m, store, result: Ok(()) },
        OperationModel::Gather => gather_effect(m, a, store),
        OperationModel::Measure => measure_effect(m, a, store),
        OperationModel::Heat => heat_effect(m, a, store),
        OperationModel::Pour => pour_effect(m, a, store),
        OperationModel::Mix => mix_effect(m, a, store),
        OperationModel::Stir => logged(m, "Stirred "@ + a.target, store),
        OperationModel::Place => place_effect(m, a, store),
        OperationModel::Remove => remove_effect(m, a, store),
        OperationModel::Steep => logged(
            m,
            "Steeping "@ + a.target + " for "@ + text_or(a, "duration"@, "?"@),
            store,
        ),
        OperationModel::Serve => logged(m, "Serving "@ + a.target, store),
        OperationModel::Wait => wait_effect(m, a, store),
        OperationModel::Emit => logged(m, "Output: "@ + text_or_target(a, "content"@), store),
        _ => unsupported_effect(m, a, store),
    }
}

impl RobotBody {
    /// A robot that knows no object and has done nothing.
    pub fn new() -> (r: RobotBody)
        ensures
            r.model() == (RobotModel {
                objects: Map::empty(),
                arm_position: (0, 0, 0),
                gripper: None,
                temperatures: Map::empty(),
                log: Seq::empty(),
                errors: Seq::empty(),
            }),
    {
        let r = RobotBody {
            objects: Table::new(),
            arm_position: (0, 0, 0),
            gripper: None,
            temperatures: Table::new(),
            log: Vec::new(),
            errors: Vec::new(),
        };
        assert(texts_view(r.log@) =~= Seq::empty());
        assert(texts_view(r.errors@) =~= Seq::empty());
        r
    }

    /// Adds a line to the log.
    pub fn note(&mut self, line: String)
        ensures
            final(self).model() == (RobotModel {
                log: old(self).model().log.push(line@),
                ..old(self).model()
            }),
    {
        push_text(&mut self.log, line);
    }

    /// Gathers the items of a `Gather`: see [`gather_effect`].
    fn gather(&mut self, action: &Action) -> (r: Result<(), ExecError>)
        ensures
            r is Ok,
            forall|store: Map<Seq<char>, JsonModel>|
                (Effect { host: final(self).model(), store, result: Ok::<(), ErrorModel>(()) })
                    == gather_effect(old(self).model(), action@, store),
    {
        match get_param(action, "items") {
            Some(Value::List(items)) => {
                proof {
                    lemma_view_list(*items);
                }
                let ghost iv = items_view(items@);
                let ghost start = self.objects@;
                let mut i: usize = 0;
                while i < items.len()
                    invariant
                        i <= items.len(),
                        iv == items_view(items@),
                        self.objects@ == gathered(iv, i as nat, start),
                        self.model() == (RobotModel {
                            objects: self.objects@,
                            ..old(self).model()
                        }),
                    decreases items.len() - i,
                {
                    match &items[i] {
                        Value::String(name) => {
                            self.objects.insert(
                                name.clone(),
                                ObjectState {
                                    position: (0, 0, 0),
                                    container: None,
                                    temperature: ROOM_TEMPERATURE,
                                    state: String::from_str("ready"),
                                },
                            );
                        },
                        _ => {},
                    }
                    i += 1;
                }
            },
            _ => {},
        }
        let mut line = String::from_str("Gathered items for ");
        line.append(action.target.as_str());
        self.note(line);
        Ok(())
    }

    /// Heats the target of a `Heat`: see [`heat_effect`].
    fn heat(&mut self, action: &Action) -> (r: Result<(), ExecError>)
        ensures
            r is Ok,
            forall|store: Map<Seq<char>, JsonModel>|
                (Effect { host: final(self).model(), store, result: Ok::<(), ErrorModel>(()) })
                    == heat_effect(old(self).model(), action@, store),
    {
        let hot = match self.objects.get(action.target.as_str()) {
            Some(object) => Some(
                ObjectState {
                    position: object.position,
                    container: match &object.container {
                        Some(c) => Some(c.clone()),
                        None => None,
                    },
                    temperature: BOILING_TEMPERATURE,
                    state: String::from_str("boiling"),
                },
            ),
            None => None,
        };
        match hot {
            Some(object) => {
                self.objects.insert(action.target.clone(), object);
            },
            None => {},
        }
        let mut line = String::from_str("Heating ");
        line.append(action.target.as_str());
        line.append(" to ");
        line.append(get_text_or(action, "temperature", "100°C"));
        self.note(line);
        Ok(())
    }

    /// Mixes the target of a `Mix`: see [`mix_effect`].
    fn mix(&mut self, action: &Action) -> (r: Result<(), ExecError>)
        ensures
            r is Ok,
            forall|store: Map<Seq<char>, JsonModel>|
                (Effect { host: final(self).model(), store, result: Ok::<(), ErrorModel>(()) })
                    == mix_effect(old(self).model(), action@, store),
    {
        let mixed = match self.objects.get(action.target.as_str()) {
            Some(object) => Some(
                ObjectState {
                    position: object.position,
                    container: match &object.container {
                        Some(c) => Some(c.clone()),
                        None => None,
                    },
                    temperature: object.temperature,
                    state: String::from_str("mixed"),
                },
            ),
            None => None,
        };
        match mixed {
            Some(object) => {
                self.objects.insert(action.target.clone(), object);
            },
            None => {},
        }
        let mut line = String::from_str("Mixed ");
        line.append(action.target.as_str());
        self.note(line);
        Ok(())
    }

    /// Places the target of a `Place`: see [`place_effect`].
    fn place(&mut self, action: &Action) -> (r: Result<(), ExecError>)
        ensures
            r is Ok,
            forall|store: Map<Seq<char>, JsonModel>|
                (Effect { host: final(self).model(), store, result: Ok::<(), ErrorModel>(()) })
                    == place_effect(old(self).model(), action@, store),
    {
        let into = get_text_or(action, "into", "?");
        let placed = match self.objects.get(action.target.as_str()) {
            Some(object) => Some(
                ObjectState {
                    position: object.position,
                    container: Some(String::from_str(into)),
                    temperature: object.temperature,
                    state: object.state.clone(),
                },
            ),
            None => None,
        };
        match placed {
            Some(object) => {
                self.objects.insert(action.target.clone(), object);
            },
            None => {},
        }
        let mut line = String::from_str("Placed ");
        line.append(action.target.as_str());
        line.append(" into ");
        line.append(into);
        self.note(line);
        Ok(())
    }

    /// Removes the target of a `Remove`: see [`remove_effect`].
    fn remove(&mut self, action: &Action) -> (r: Result<(), ExecError>)
        ensures
            r is Ok,
            forall|store: Map<Seq<char>, JsonModel>|
                (Effect { host: final(self).model(), store, result: Ok::<(), ErrorModel>(()) })
                    == remove_effect(old(self).model(), action@, store),
    {
        let removed = match self.objects.get(action.target.as_str()) {
            Some(object) => Some(
                ObjectState {
                    position: object.position,
                    container: None,
                    temperature: object.temperature,
                    state: object.state.clone(),
                },
            ),
            None => None,
        };
        match removed {
            Some(object) => {
                self.objects.insert(action.target.clone(), object);
            },
            None => {},
        }
        let mut line = String::from_str("Removed ");
        line.append(action.target.as_str());
        line.append(" from ");
        line.append(get_text_or(action, "from", "?"));
        self.note(line);
        Ok(())
    }

    /// Measures as a `Measure` asks: see [`measure_effect`].
    fn measure(&mut self, action: &Action) -> (r: Result<(), ExecError>)
        ensures
            r is Ok,
            forall|store: Map<Seq<char>, JsonModel>|
                (Effect { host: final(self).model(), store, result: Ok::<(), ErrorModel>(()) })
                    == measure_effect(old(self).model(), action@, store),
    {
        let mut line = String::from_str("Measured ");
        line.append(get_text_or(action, "amount", "unknown"));
        line.append(" of ");
        line.append(action.target.as_str());
        self.note(line);
        Ok(())
    }

    /// Pours as a `Pour` asks: see [`pour_effect`].
    fn pour(&mut self, action: &Action) -> (r: Result<(), ExecError>)
        ensures
            r is Ok,
            forall|store: Map<Seq<char>, JsonModel>|
                (Effect { host: final(self).model(), store, result: Ok::<(), ErrorModel>(()) })
                    == pour_effect(old(self).model(), action@, store),
    {
        if action.params.is_some() {
            let mut line = String::from_str("Poured ");
            line.append(action.target.as_str());
            line.append(" from ");
            line.append(get_text_or(action, "from", "?"));
            line.append(" into ");
            line.append(get_text_or(action, "into", "?"));
            line.append(" (");
            line.append(get_text_or(action, "amount", "?"));
            line.append(")");
            self.note(line);
        }
        Ok(())
    }

    /// Stirs the target of a `Stir`.
    fn stir(&mut self, action: &Action) -> (r: Result<(), ExecError>)
        ensures
            r is Ok,
            forall|store: Map<Seq<char>, JsonModel>|
                (Effect { host: final(self).model(), store, result: Ok::<(), ErrorModel>(()) })
                    == logged(old(self).model(), "Stirred "@ + action@.target, store),
    {
        let mut line = String::from_str("Stirred ");
        line.append(action.target.as_str());
        self.note(line);
        Ok(())
    }

    /// Steeps the target of a `Steep`.
    fn steep(&mut self, action: &Action) -> (r: Result<(), ExecError>)
        ensures
            r is Ok,
            forall|store: Map<Seq<char>, JsonModel>|
                (Effect { host: final(self).model(), store, result: Ok::<(), ErrorModel>(()) })
                    == logged(
                    old(self).model(),
                    "Steeping "@ + action@.target + " for "@ + text_or(
                        action@,
                        "duration"@,
                        "?"@,
                    ),
                    store,
                ),
    {
        let mut line = String::from_str("Steeping ");
        line.append(action.target.as_str());
        line.append(" for ");
        line.append(get_text_or(action, "duration", "?"));
        self.note(line);
        Ok(())
    }

    /// Serves the target of a `Serve`.
    fn serve(&mut self, action: &Action) -> (r: Result<(), ExecError>)
        ensures
            r is Ok,
            forall|store: Map<Seq<char>, JsonModel>|
                (Effect { host: final(self).model(), store, result: Ok::<(), ErrorModel>(()) })
                    == logged(old(self).model(), "Serving "@ + action@.target, store),
    {
        let mut line = String::from_str("Serving ");
        line.append(action.target.as_str());
        self.note(line);
        Ok(())
    }

    /// Waits as a `Wait` asks: see [`wait_effect`].
    fn wait(&mut self, action: &Action) -> (r: Result<(), ExecError>)
        ensures
            r is Ok,
            forall|store: Map<Seq<char>, JsonModel>|
                (Effect { host: final(self).model(), store, result: Ok::<(), ErrorModel>(()) })
                    == wait_effect(old(self).model(), action@, store),
    {
        let duration = match action.dur {
            Some(bits) => bits,
            None => ONE_SECOND,
        };
        let mut line = String::from_str("Waiting ");
        let seconds = float::rounded_text(duration);
        line.append(seconds.as_str());
        line.append("s for ");
        line.append(action.target.as_str());
        self.note(line);
        Ok(())
    }

    /// Puts out what an `Emit` emits.
    fn emit(&mut self, action: &Action) -> (r: Result<(), ExecError>)
        ensures
            r is Ok,
            forall|store: Map<Seq<char>, JsonModel>|
                (Effect { host: final(self).model(), store, result: Ok::<(), ErrorModel>(()) })
                    == logged(
                    old(self).model(),
                    "Output: "@ + text_or_target(action@, "content"@),
                    store,
                ),
    {
        let mut line = String::from_str("Output: ");
        line.append(get_text_or_target(action, "content"));
        self.note(line);
        Ok(())
    }

    /// Binds the value of a `Bind`: see [`bind_effect`].
    fn bind_variable(&mut self, action: &Action, store: &mut VariableStore) -> (r: Result<
        (),
        ExecError,
    >)
        ensures
            (Effect {
                host: final(self).model(),
                store: final(store)@,
                result: outcome_view(r),
            }) == bind_effect(old(self).model(), action@, old(store)@),
    {
        match get_param(action, "value") {
            Some(v) => {
                store.insert(action.target.clone(), v.clone());
            },
            None => {},
        }
        Ok(())
    }

    /// Meets an operation that the robot does not support: see [`unsupported_effect`].
    fn unsupported(&mut self, action: &Action) -> (r: Result<(), ExecError>)
        ensures
            forall|store: Map<Seq<char>, JsonModel>|
                (Effect { host: final(self).model(), store, result: outcome_view(r) })
                    == unsupported_effect(old(self).model(), action@, store),
    {
        let name = action.op.debug_text();
        let mut line = String::from_str("Unsupported operation: ");
        line.append(name.as_str());
        push_text(&mut self.errors, line);
        Err(ExecError::new(ErrorKind::UnsupportedOperation, name.as_str()))
    }
}

impl EffectHandler for RobotBody {
    type Model = RobotModel;

    open spec fn model(&self) -> RobotModel {
        RobotModel {
            objects: self.objects@,
            arm_position: self.arm_position,
            gripper: optional_text(self.gripper),
            temperatures: self.temperatures@,
            log: texts_view(self.log@),
            errors: texts_view(self.errors@),
        }
    }

    open spec fn effect(
        host: RobotModel,
        action: ActionModel,
        store: Map<Seq<char>, JsonModel>,
    ) -> Effect<RobotModel> {
        robot_effect(host, action, store)
    }

    fn handle(&mut self, action: &Action, store: &mut VariableStore) -> (r: Result<(), ExecError>)
    {
        match &action.op {
            Operation::Bind => self.bind_variable(action, store),
            Operation::Return => Ok(()),
            Operation::Gather => self.gather(action),
            Operation::Measure => self.measure(action),
            Operation::Heat => self.heat(action),
            Operation::Pour => self.pour(action),
            Operation::Mix => self.mix(action),
            Operation::Stir => self.stir(action),
            Operation::Place => self.place(action),
            Operation::Remove => self.remove(action),
            Operation::Steep => self.steep(action),
            Operation::Serve => self.serve(action),
            Operation::Wait => self.wait(action),
            Operation::Emit => self.emit(action),
            _ => self.unsupported(action),
        }
    }
}

/// The state of a simulated robot.
#[derive(Debug)]
pub struct RobotState {
    /// The objects that the robot knows, by name.
    pub objects: Table<ObjectState>,
    /// Where the arm is, as binary64 patterns.
    pub arm_position: (u64, u64, u64),
    /// What the gripper holds.
    pub gripper: Option<String>,
    /// Readings of temperature sensors, as binary64 patterns.
    pub temperatures: Table<u64>,
    /// What the robot did.
    pub log: Vec<String>,
    /// What the robot could not do.
    pub errors: Vec<String>,
    /// Variables: the variable store of the run.
    pub variables: VariableStore,
    /// Learned functions.
    pub functions: FunctionTable,
}

impl RobotState {
    /// The robot's part of the state.
    pub open spec fn body(&self) -> RobotModel {
        RobotModel {
            objects: self.objects@,
            arm_position: self.arm_position,
            gripper: optional_text(self.gripper),
            temperatures: self.temperatures@,
            log: texts_view(self.log@),
            errors: texts_view(self.errors@),
        }
    }

    /// The state of a run on this robot.
    pub open spec fn world(&self) -> World<RobotModel> {
        World { store: self.variables@, functions: self.functions@, host: self.body() }
    }

    /// The state in which nothing is known, done or defined.
    pub open spec fn blank() -> World<RobotModel> {
        World {
            store: Map::empty(),
            functions: Map::empty(),
            host: RobotModel {
                objects: Map::empty(),
                arm_position: (0, 0, 0),
                gripper: None,
                temperatures: Map::empty(),
                log: Seq::empty(),
                errors: Seq::empty(),
            },
        }
    }

    /// A robot that knows no object and has done nothing.
    pub fn new() -> (r: RobotState)
        ensures
            r.world() == RobotState::blank(),
    {
        let r = RobotState {
            objects: Table::new(),
            arm_position: (0, 0, 0),
            gripper: None,
            temperatures: Table::new(),
            log: Vec::new(),
            errors: Vec::new(),
            variables: Table::new(),
            functions: Table::new(),
        };
        assert(texts_view(r.log@) =~= Seq::empty());
        assert(texts_view(r.errors@) =~= Seq::empty());
        r
    }
}

impl Default for RobotState {
    fn default() -> (r: RobotState)
        ensures
            r.world() == RobotState::blank(),
    {
        RobotState::new()
    }
}

/// A simulated robot that runs programs.
pub struct RobotSimulator {
    state: RobotState,
    verbose: bool,
    recursion_depth: usize,
    max_recursion_depth: usize,
}

impl RobotSimulator {
    /// The state of a run on this simulator.
    pub closed spec fn world(&self) -> World<RobotModel> {
        self.state.world()
    }

    /// The guard under which this simulator runs an action.
    pub closed spec fn guard(&self) -> RecursionGuard {
        RecursionGuard { depth: self.recursion_depth, max_depth: self.max_recursion_depth }
    }

    /// Whether the simulator was asked to report each step.
    pub closed spec fn is_verbose(&self) -> bool {
        self.verbose
    }

    /// A simulator of a robot that has done nothing, at depth 0, with the
    /// default limit on depth.
    pub fn new() -> (r: RobotSimulator)
        ensures
            r.world() == RobotState::blank(),
            r.guard() == (RecursionGuard { depth: 0, max_depth: DEFAULT_MAX_DEPTH }),
            !r.is_verbose(),
    {
        RobotSimulator {
            state: RobotState::new(),
            verbose: false,
            recursion_depth: 0,
            max_recursion_depth: DEFAULT_MAX_DEPTH,
        }
    }

    /// The simulator with its wish for step reports set.
    pub fn with_verbose(self, verbose: bool) -> (r: RobotSimulator)
        ensures
            r.world() == self.world(),
            r.guard() == self.guard(),
            r.is_verbose() == verbose,
    {
        let mut r = self;
        r.verbose = verbose;
        r
    }

    /// Whether step reports are wished for.
    pub fn verbose(&self) -> (r: bool)
        ensures
            r == self.is_verbose(),
    {
        self.verbose
    }

    /// The state of the robot.
    pub fn state(&self) -> (r: &RobotState)
        ensures
            r.world() == self.world(),
    {
        &self.state
    }

    /// Runs a program on the robot: its actions in order, up to the first
    /// that fails.
    pub fn execute(&mut self, program: &Program) -> (r: Result<(), ExecError>)
        ensures
            (Outcome { result: outcome_view(r), world: final(self).world() }) == exec_block::<
                RobotBody,
            >(program@.actions, 0, old(self).world(), old(self).guard()),
            final(self).guard() == old(self).guard(),
            final(self).is_verbose() == old(self).is_verbose(),
    {
        let ghost av = crate::ast::actions_view(program.actions@);
        let mut i: usize = 0;
        while i < program.actions.len()
            invariant
                i <= program.actions.len(),
                av == crate::ast::actions_view(program.actions@),
                self.guard() == old(self).guard(),
                self.is_verbose() == old(self).is_verbose(),
                exec_block::<RobotBody>(av, 0, old(self).world(), old(self).guard()) == exec_block::<
                    RobotBody,
                >(av, i as nat, self.world(), self.guard()),
            decreases program.actions.len() - i,
        {
            match self.execute_action(&program.actions[i]) {
                Ok(()) => {},
                Err(e) => {
                    return Err(e);
                },
            }
            i += 1;
        }
        Ok(())
    }

    /// Runs one action on the robot.
    pub fn execute_action(&mut self, action: &Action) -> (r: Result<(), ExecError>)
        ensures
            (Outcome { result: outcome_view(r), world: final(self).world() }) == exec_action::<
                RobotBody,
            >(action@, old(self).world(), old(self).guard()),
            final(self).guard() == old(self).guard(),
            final(self).is_verbose() == old(self).is_verbose(),
    {
        let guard = RecursionGuard {
            depth: self.recursion_depth,
            max_depth: self.max_recursion_depth,
        };
        let mut state = RobotState::new();
        core::mem::swap(&mut self.state, &mut state);
        let mut store = state.variables;
        let mut functions = state.functions;
        let mut body = RobotBody {
            objects: state.objects,
            arm_position: state.arm_position,
            gripper: state.gripper,
            temperatures: state.temperatures,
            log: state.log,
            errors: state.errors,
        };
        let r = crate::interp::execute_action(
            action,
            &mut store,
            &mut functions,
            &mut body,
            guard,
        );
        self.state = RobotState {
            objects: body.objects,
            arm_position: body.arm_position,
            gripper: body.gripper,
            temperatures: body.temperatures,
            log: body.log,
            errors: body.errors,
            variables: store,
            functions,
        };
        r
    }
}

impl Default for RobotSimulator {
    fn default() -> (r: RobotSimulator)
        ensures
            r.world() == RobotState::blank(),
            r.guard() == (RecursionGuard { depth: 0, max_depth: DEFAULT_MAX_DEPTH }),
            !r.is_verbose(),
    {
        RobotSimulator::new()
    }
}

/// The text of a position: its three coordinates in parentheses, each
/// written by `write`.
pub open spec fn position_text(position: (u64, u64, u64), write: spec_fn(u64) -> Seq<char>) -> Seq<
    char,
> {
    "("@ + write(position.0) + ", "@ + write(position.1) + ", "@ + write(position.2) + ")"@
}

/// The lines of the first `n` objects: each name with its position, its
/// temperature in whole degrees and its state.
pub open spec fn object_lines(objects: Seq<(Seq<char>, ObjectModel)>, n: nat) -> Seq<char>
    decreases n,
{
    if n == 0 || n > objects.len() {
        Seq::empty()
    } else {
        let object = objects[n - 1].1;
        object_lines(objects, (n - 1) as nat) + "  "@ + objects[n - 1].0 + " - pos:"@
            + position_text(object.position, |bits: u64| float::one_digit_display(bits))
            + ", temp:"@ + float::rounded_display(object.temperature) + "°C, state:"@
            + object.state + "\n"@
    }
}

/// The lines of the first `n` sensors: each name and its reading with one
/// decimal.
pub open spec fn sensor_lines(sensors: Seq<(Seq<char>, u64)>, n: nat) -> Seq<char>
    decreases n,
{
    if n == 0 || n > sensors.len() {
        Seq::empty()
    } else {
        sensor_lines(sensors, (n - 1) as nat) + "  "@ + sensors[n - 1].0 + ": "@
            + float::one_digit_display(sensors[n - 1].1) + "°C\n"@
    }
}

/// The first `n` entries of a log as lines, numbered from 1.
pub open spec fn log_lines(log: Seq<Seq<char>>, n: nat) -> Seq<char>
    decreases n,
{
    if n == 0 || n > log.len() {
        Seq::empty()
    } else {
        log_lines(log, (n - 1) as nat) + "  "@ + crate::text::decimal(n) + ". "@ + log[n - 1]
            + "\n"@
    }
}

/// The head of a robot's report: where the arm is and what the gripper holds.
pub open spec fn robot_head(m: RobotModel) -> Seq<char> {
    "=== Robot State ===\n\n"@ + "Arm Position: "@ + position_text(
        m.arm_position,
        |bits: u64| float::two_digit_display(bits),
    ) + "\n"@ + (match m.gripper {
        Some(held) => "Gripper: Holding "@ + held + "\n"@,
        None => "Gripper: Empty\n"@,
    }) + "\n"@
}

/// The part of a report on the objects; nothing where there is none.
pub open spec fn objects_part(objects: Seq<(Seq<char>, ObjectModel)>) -> Seq<char> {
    if objects.len() > 0 {
        "Objects:\n"@ + object_lines(objects, objects.len()) + "\n"@
    } else {
        Seq::empty()
    }
}

/// The part of a report on the sensors; nothing where there is none.
pub open spec fn sensors_part(sensors: Seq<(Seq<char>, u64)>) -> Seq<char> {
    if sensors.len() > 0 {
        "Temperature Sensors:\n"@ + sensor_lines(sensors, sensors.len()) + "\n"@
    } else {
        Seq::empty()
    }
}

/// The part of a report on the log; nothing where the log is empty.
pub open spec fn log_part(log: Seq<Seq<char>>) -> Seq<char> {
    if log.len() > 0 {
        "Execution Log:\n"@ + log_lines(log, log.len()) + "\n"@
    } else {
        Seq::empty()
    }
}

/// The part of a report on the errors; nothing where there is none.
pub open spec fn errors_part(errors: Seq<Seq<char>>) -> Seq<char> {
    if errors.len() > 0 {
        "⚠️  Errors:\n"@ + crate::text::lines_of(errors, errors.len(), "  • "@, "\n"@)
    } else {
        Seq::empty()
    }
}

/// The report of a robot's state: arm and gripper, then objects, sensors,
/// log and errors, each part only where there is any of it, objects and
/// sensors in the order in which their names were first used.
pub open spec fn robot_report(
    objects: Seq<(Seq<char>, ObjectModel)>,
    sensors: Seq<(Seq<char>, u64)>,
    m: RobotModel,
) -> Seq<char> {
    robot_head(m) + objects_part(objects) + sensors_part(sensors) + log_part(m.log)
        + errors_part(m.errors)
}

/// Appends a position with two decimals.
fn push_arm_position(out: &mut String, position: (u64, u64, u64))
    ensures
        final(out)@ == old(out)@ + position_text(
            position,
            |bits: u64| float::two_digit_display(bits),
        ),
{
    let ghost head = out@;
    out.append("(");
    let x = float::two_digit_text(position.0);
    out.append(x.as_str());
    out.append(", ");
    let y = float::two_digit_text(position.1);
    out.append(y.as_str());
    out.append(", ");
    let z = float::two_digit_text(position.2);
    out.append(z.as_str());
    out.append(")");
    assert(out@ =~= head + position_text(position, |bits: u64| float::two_digit_display(bits)));
}

/// Appends a position with one decimal.
fn push_position(out: &mut String, position: (u64, u64, u64))
    ensures
        final(out)@ == old(out)@ + position_text(
            position,
            |bits: u64| float::one_digit_display(bits),
        ),
{
    let ghost head = out@;
    out.append("(");
    let x = float::one_digit_text(position.0);
    out.append(x.as_str());
    out.append(", ");
    let y = float::one_digit_text(position.1);
    out.append(y.as_str());
    out.append(", ");
    let z = float::one_digit_text(position.2);
    out.append(z.as_str());
    out.append(")");
    assert(out@ =~= head + position_text(position, |bits: u64| float::one_digit_display(bits)));
}

/// Appends the head of a report.
fn push_head(out: &mut String, state: &RobotState)
    ensures
        final(out)@ == old(out)@ + robot_head(state.body()),
{
    let ghost head = out@;
    out.append("=== Robot State ===\n\n");
    out.append("Arm Position: ");
    push_arm_position(out, state.arm_position);
    out.append("\n");
    let ghost before_gripper = out@;
    match &state.gripper {
        Some(held) => {
            out.append("Gripper: Holding ");
            out.append(held.as_str());
            out.append("\n");
            assert(out@ =~= before_gripper + ("Gripper: Holding "@ + held@ + "\n"@));
        },
        None => {
            out.append("Gripper: Empty\n");
        },
    }
    out.append("\n");
    assert(out@ =~= head + robot_head(state.body()));
}

/// Appends the part of a report on the objects.
fn push_objects(out: &mut String, objects: &Vec<(String, ObjectState)>)
    ensures
        final(out)@ == old(out)@ + objects_part(crate::table::pairs_view(objects@)),
{
    let ghost ov = crate::table::pairs_view(objects@);
    let ghost head = out@;
    if objects.len() > 0 {
        out.append("Objects:\n");
        let ghost start = out@;
        let mut i: usize = 0;
        assert(out@ =~= start + object_lines(ov, 0));
        while i < objects.len()
            invariant
                i <= objects.len(),
                ov == crate::table::pairs_view(objects@),
                out@ == start + object_lines(ov, i as nat),
            decreases objects.len() - i,
        {
            out.append("  ");
            out.append(objects[i].0.as_str());
            out.append(" - pos:");
            push_position(out, objects[i].1.position);
            out.append(", temp:");
            let temperature = float::rounded_text(objects[i].1.temperature);
            out.append(temperature.as_str());
            out.append("°C, state:");
            out.append(objects[i].1.state.as_str());
            out.append("\n");
            assert(out@ =~= start + object_lines(ov, (i + 1) as nat));
            i += 1;
        }
        out.append("\n");
        assert(out@ =~= head + objects_part(ov));
    } else {
        assert(out@ =~= head + objects_part(ov));
    }
}

/// Appends the part of a report on the sensors.
fn push_sensors(out: &mut String, sensors: &Vec<(String, u64)>)
    ensures
        final(out)@ == old(out)@ + sensors_part(crate::table::pairs_view(sensors@)),
{
    let ghost sv = crate::table::pairs_view(sensors@);
    let ghost head = out@;
    if sensors.len() > 0 {
        out.append("Temperature Sensors:\n");
        let ghost start = out@;
        let mut i: usize = 0;
        assert(out@ =~= start + sensor_lines(sv, 0));
        while i < sensors.len()
            invariant
                i <= sensors.len(),
                sv == crate::table::pairs_view(sensors@),
                out@ == start + sensor_lines(sv, i as nat),
            decreases sensors.len() - i,
        {
            out.append("  ");
            out.append(sensors[i].0.as_str());
            out.append(": ");
            let reading = float::one_digit_text(sensors[i].1);
            out.append(reading.as_str());
            out.append("°C\n");
            assert(out@ =~= start + sensor_lines(sv, (i + 1) as nat));
            i += 1;
        }
        out.append("\n");
        assert(out@ =~= head + sensors_part(sv));
    } else {
        assert(out@ =~= head + sensors_part(sv));
    }
}

/// Appends the part of a report on the log.
fn push_log(out: &mut String, log: &Vec<String>)
    ensures
        final(out)@ == old(out)@ + log_part(texts_view(log@)),
{
    let ghost lv = texts_view(log@);
    let ghost head = out@;
    if log.len() > 0 {
        out.append("Execution Log:\n");
        let ghost start = out@;
        let mut i: usize = 0;
        assert(out@ =~= start + log_lines(lv, 0));
        while i < log.len()
            invariant
                i <= log.len(),
                lv == texts_view(log@),
                out@ == start + log_lines(lv, i as nat),
            decreases log.len() - i,
        {
            out.append("  ");
            let number = crate::text::u64_text(i as u64 + 1);
            out.append(number.as_str());
            out.append(". ");
            out.append(log[i].as_str());
            out.append("\n");
            assert(out@ =~= start + log_lines(lv, (i + 1) as nat));
            i += 1;
        }
        out.append("\n");
        assert(out@ =~= head + log_part(lv));
    } else {
        assert(out@ =~= head + log_part(lv));
    }
}

/// Appends the part of a report on the errors.
fn push_errors(out: &mut String, errors: &Vec<String>)
    ensures
        final(out)@ == old(out)@ + errors_part(texts_view(errors@)),
{
    let ghost head = out@;
    if errors.len() > 0 {
        out.append("⚠️  Errors:\n");
        crate::text::push_lines(out, errors, "  • ", "\n");
        assert(out@ =~= head + errors_part(texts_view(errors@)));
    } else {
        assert(out@ =~= head + errors_part(texts_view(errors@)));
    }
}

impl RobotState {
    /// The report of the state.
    pub fn display(&self) -> (r: String)
        ensures
            r@ == robot_report(
                crate::table::pairs_view(self.objects.entries@),
                crate::table::pairs_view(self.temperatures.entries@),
                self.body(),
            ),
    {
        let mut out = String::new();
        push_head(&mut out, self);
        assert(out@ =~= robot_head(self.body()));
        push_objects(&mut out, &self.objects.entries);
        push_sensors(&mut out, &self.temperatures.entries);
        push_log(&mut out, &self.log);
        push_errors(&mut out, &self.errors);
        out
    }
}

} // verus!
