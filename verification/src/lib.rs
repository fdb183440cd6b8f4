//! Universal Causal Language: programs as sequences of causal actions, and
//! the machines that run them.
//!
//! The heart of the crate is one interpreter ([`interp`]) for the actions,
//! expressions and conditions of a program ([`ast`]). It is written once, for
//! every host: a host ([`handler`]) gives leaf actions their meaning, the
//! interpreter does the rest, which is evaluation, branching, bounded loops,
//! function definition and call. What the interpreter computes is defined in
//! [`semantics`]; [`laws`] and [`round_trip`] hold what follows from it.
//!
//! Around it stand the value model ([`value`], [`json`], [`float`]), the
//! document form of programs ([`document`]), three hosts ([`simulator`]), a
//! generator of Ruby text ([`compiler`]), and a coordinator of several
//! substrates ([`coordinator`]).

pub mod analysis;
pub mod ast;
pub mod compiler;
pub mod coordinator;
pub mod document;
pub mod error;
pub mod float;
pub mod guard;
pub mod handler;
pub mod interp;
pub mod json;
pub mod laws;
pub mod params;
pub mod production;
pub mod round_trip;
pub mod semantics;
pub mod simulator;
pub mod table;
pub mod text;
pub mod value;

pub use ast::{
    Action, BinaryExpr, ComparisonOp, Condition, Expression, FunctionDef, Operation, Program,
};
pub use error::{ErrorKind, ExecError};
pub use guard::RecursionGuard;
pub use handler::{EffectHandler, VariableStore};
pub use value::{Number, Value};
