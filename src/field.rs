use vstd::prelude::*;

verus! {

/// The closed set of force fields a simulator can apply; exactly one is
/// active at a time.
///
/// `ParallelElectric` can be selected but has no law of its own: it acts as
/// `NoForce`, a zero acceleration.
#[derive(Clone, Copy, Debug, PartialEq, Eq, Structural)]
pub enum SimulateFunction {
    Gravity,
    GravityResistive,
    Butterfly,
    WindowsXP,
    Logistic,
    InverseSquare,
    Harmonic,
    ParallelElectric,
    NoForce,
}

} // verus!
