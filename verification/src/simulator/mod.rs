//! Hosts of leaf actions, each with the simulator that runs programs on it.

pub mod ai;
pub mod brain;
pub mod robot;

pub use ai::{MockAISimulator, MockAIState};
pub use brain::{BrainSimulator, BrainState};
pub use robot::{RobotSimulator, RobotState};
