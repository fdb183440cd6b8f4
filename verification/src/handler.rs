//! The capability that a host supplies: the meaning of leaf actions.

use crate::ast::{Action, ActionModel};
use crate::error::{ErrorModel, ExecError};
use crate::table::Table;
use crate::value::{JsonModel, Value};
use vstd::prelude::*;

verus! {

/// The variable store of a run: one mapping from names to values, shared by
/// the interpreter and the host.
pub type VariableStore = Table<Value>;

/// What a leaf action does: the host's state and the store after it, and
/// whether it succeeded.
pub struct Effect<S> {
    pub host: S,
    pub store: Map<Seq<char>, JsonModel>,
    pub result: Result<(), ErrorModel>,
}

/// The model of the result of handling an action.
pub open spec fn outcome_view(r: Result<(), ExecError>) -> Result<(), ErrorModel> {
    match r {
        Ok(()) => Ok(()),
        Err(e) => Err(e@),
    }
}

/// A host of leaf actions. The interpreter hands it every action that is not
/// control flow, in program order, with the store as it stands.
///
/// A host describes itself by a model of its state and by `effect`, which says
/// what handling an action does to that state and to the store; `handle` does
/// it. What the interpreter is proved to compute is stated over that
/// description. A host that gives none has the unknown one of the defaults,
/// of which nothing follows but the order in which it is handed actions.
///
/// For an operation that it does not support a host returns an error of kind
/// `UnsupportedOperation`, after which the run goes on. Any other error ends
/// the run.
pub trait EffectHandler: Sized {
    /// The mathematical model of the host's state.
    type Model;

    /// The model of this host's state.
    open spec fn model(&self) -> Self::Model {
        arbitrary()
    }

    /// What handling `action` does in state `host` with store `store`.
    open spec fn effect(
        host: Self::Model,
        action: ActionModel,
        store: Map<Seq<char>, JsonModel>,
    ) -> Effect<Self::Model> {
        arbitrary()
    }

    /// Handles one leaf action.
    fn handle(&mut self, action: &Action, store: &mut VariableStore) -> (r: Result<(), ExecError>)
        ensures
            (Effect { host: final(self).model(), store: final(store)@, result: outcome_view(r) })
                == Self::effect(old(self).model(), action@, old(store)@),
    ;
}

} // verus!
