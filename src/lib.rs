//! The engine of a 2D particle sandbox: the ordered particle store, the
//! active force field, the boundary-bounce flag, the elapsed-step counter and
//! the schedule by which `step` advances every particle.
//!
//! The particle state and its arithmetic are the caller's: the simulator is
//! generic over the particle type and is handed the integrator's sub-step.

mod command;
mod field;
mod simulator;
mod viewport;

pub use command::{Command, GRID_HALF_WIDTH, command_named, grid_points};
pub use field::SimulateFunction;
pub use simulator::{Simulator, advanced, is_run, lemma_advanced_compose};
pub use viewport::Viewport;
