use vstd::prelude::*;
use vstd::string::StrSliceExecFns;

use crate::field::SimulateFunction;

verus! {

/// What a control of the sandbox asks for, by the name the control carries.
#[derive(Clone, Copy, Debug, PartialEq, Eq, Structural)]
pub enum Command {
    /// Let time run: the host steps the simulator every frame.
    Play,
    /// Stop time: the host no longer steps the simulator.
    Pause,
    /// Empty the particle store.
    Clear,
    /// Add a particle at rest on every point of the grid (see `grid_points`).
    CreateGrid,
    /// Add a row of particles along one period of a sine wave.
    CreateSine,
    /// Make the given force field the active one.
    SetFunction(SimulateFunction),
    /// Turn the reflection at the boundary on if it is off, off if it is on.
    ToggleBounce,
}

/// The command that a control named `name` stands for, if any.
pub open spec fn command_named(name: Seq<char>) -> Option<Command> {
    if name == "play"@ {
        Some(Command::Play)
    } else if name == "pause"@ {
        Some(Command::Pause)
    } else if name == "clear"@ {
        Some(Command::Clear)
    } else if name == "create_grid"@ {
        Some(Command::CreateGrid)
    } else if name == "create_sine"@ {
        Some(Command::CreateSine)
    } else if name == "force_Gravity"@ {
        Some(Command::SetFunction(SimulateFunction::Gravity))
    } else if name == "force_GravityResistive"@ {
        Some(Command::SetFunction(SimulateFunction::GravityResistive))
    } else if name == "force_Butterfly"@ {
        Some(Command::SetFunction(SimulateFunction::Butterfly))
    } else if name == "force_WindowsXP"@ {
        Some(Command::SetFunction(SimulateFunction::WindowsXP))
    } else if name == "force_Logistic"@ {
        Some(Command::SetFunction(SimulateFunction::Logistic))
    } else if name == "force_InverseSquare"@ {
        Some(Command::SetFunction(SimulateFunction::InverseSquare))
    } else if name == "force_ParallelElectric"@ {
        Some(Command::SetFunction(SimulateFunction::ParallelElectric))
    } else if name == "force_Harmonic"@ {
        Some(Command::SetFunction(SimulateFunction::Harmonic))
    } else if name == "force_NoForce"@ {
        Some(Command::SetFunction(SimulateFunction::NoForce))
    } else if name == "toggle_bounce"@ {
        Some(Command::ToggleBounce)
    } else {
        None
    }
}

/// Whether `a` and `b` hold the same characters.
fn same_text(a: &str, b: &str) -> (r: bool)
    ensures
        r == (a@ == b@),
{
    let n = a.unicode_len();
    if n != b.unicode_len() {
        return false;
    }
    let mut i: usize = 0;
    while i < n
        invariant
            i <= n,
            n == a@.len(),
            n == b@.len(),
            forall|j: int| 0 <= j < i ==> a@[j] == b@[j],
        decreases n - i,
    {
        if a.get_char(i) != b.get_char(i) {
            return false;
        }
        i = i + 1;
    }
    assert(a@ =~= b@);
    true
}

impl Command {
    /// The command that a control named `name` stands for; `None` for a name
    /// that no control carries.
    pub fn from_name(name: &str) -> (r: Option<Command>)
        ensures
            r == command_named(name@),
    {
        if same_text(name, "play") {
            Some(Command::Play)
        } else if same_text(name, "pause") {
            Some(Command::Pause)
        } else if same_text(name, "clear") {
            Some(Command::Clear)
        } else if same_text(name, "create_grid") {
            Some(Command::CreateGrid)
        } else if same_text(name, "create_sine") {
            Some(Command::CreateSine)
        } else if same_text(name, "force_Gravity") {
            Some(Command::SetFunction(SimulateFunction::Gravity))
        } else if same_text(name, "force_GravityResistive") {
            Some(Command::SetFunction(SimulateFunction::GravityResistive))
        } else if same_text(name, "force_Butterfly") {
            Some(Command::SetFunction(SimulateFunction::Butterfly))
        } else if same_text(name, "force_WindowsXP") {
            Some(Command::SetFunction(SimulateFunction::WindowsXP))
        } else if same_text(name, "force_Logistic") {
            Some(Command::SetFunction(SimulateFunction::Logistic))
        } else if same_text(name, "force_InverseSquare") {
            Some(Command::SetFunction(SimulateFunction::InverseSquare))
        } else if same_text(name, "force_ParallelElectric") {
            Some(Command::SetFunction(SimulateFunction::ParallelElectric))
        } else if same_text(name, "force_Harmonic") {
            Some(Command::SetFunction(SimulateFunction::Harmonic))
        } else if same_text(name, "force_NoForce") {
            Some(Command::SetFunction(SimulateFunction::NoForce))
        } else if same_text(name, "toggle_bounce") {
            Some(Command::ToggleBounce)
        } else {
            None
        }
    }
}

/// The grid runs over the integers from `-GRID_HALF_WIDTH` up to, not
/// including, `GRID_HALF_WIDTH` on each axis.
pub const GRID_HALF_WIDTH: i32 = 20;

/// The points of the grid, column by column: for each `x` from
/// `-GRID_HALF_WIDTH` upwards, every `y` from `-GRID_HALF_WIDTH` upwards.
pub fn grid_points() -> (r: Vec<(i32, i32)>)
    ensures
        r@.len() == 4 * GRID_HALF_WIDTH * GRID_HALF_WIDTH,
        forall|k: int|
            0 <= k < r@.len() ==> (#[trigger] r@[k]).0 == k / (2 * GRID_HALF_WIDTH) - GRID_HALF_WIDTH
                && r@[k].1 == k % (2 * GRID_HALF_WIDTH) - GRID_HALF_WIDTH,
{
    let w: i32 = 2 * GRID_HALF_WIDTH;
    let mut r: Vec<(i32, i32)> = Vec::new();
    let mut x: i32 = -GRID_HALF_WIDTH;
    while x < GRID_HALF_WIDTH
        invariant
            w == 2 * GRID_HALF_WIDTH,
            -GRID_HALF_WIDTH <= x <= GRID_HALF_WIDTH,
            r@.len() == (x + GRID_HALF_WIDTH) * w,
            forall|k: int|
                0 <= k < r@.len() ==> (#[trigger] r@[k]).0 == k / (w as int) - GRID_HALF_WIDTH
                    && r@[k].1 == k % (w as int) - GRID_HALF_WIDTH,
        decreases GRID_HALF_WIDTH - x,
    {
        let mut y: i32 = -GRID_HALF_WIDTH;
        while y < GRID_HALF_WIDTH
            invariant
                w == 2 * GRID_HALF_WIDTH,
                -GRID_HALF_WIDTH <= x < GRID_HALF_WIDTH,
                -GRID_HALF_WIDTH <= y <= GRID_HALF_WIDTH,
                r@.len() == (x + GRID_HALF_WIDTH) * w + (y + GRID_HALF_WIDTH),
                forall|k: int|
                    0 <= k < r@.len() ==> (#[trigger] r@[k]).0 == k / (w as int) - GRID_HALF_WIDTH
                        && r@[k].1 == k % (w as int) - GRID_HALF_WIDTH,
            decreases GRID_HALF_WIDTH - y,
        {
            proof {
                let q: int = x + GRID_HALF_WIDTH;
                let m: int = y + GRID_HALF_WIDTH;
                let k: int = q * (w as int) + m;
                assert(k / (w as int) == q && k % (w as int) == m) by {
                    vstd::arithmetic::div_mod::lemma_fundamental_div_mod_converse(k, w as int, q, m);
                }
            }
            r.push((x, y));
            y = y + 1;
        }
        assert((x + 1 + GRID_HALF_WIDTH) * w == (x + GRID_HALF_WIDTH) * w + w) by (nonlinear_arith);
        x = x + 1;
    }
    r
}

} // verus!
