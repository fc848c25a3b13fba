use vstd::prelude::*;

use crate::field::SimulateFunction;

verus! {

/// Each state of `run` after the first is a result of one call of `sub_step`
/// on the state before it, under the force field `function` and the bounce
/// flag `bounce`.
pub open spec fn is_run<P, F: Fn(&P, SimulateFunction, bool) -> P>(
    sub_step: F,
    function: SimulateFunction,
    bounce: bool,
    run: Seq<P>,
) -> bool {
    forall|j: int, k: int|
        #![trigger run[j], run[k]]
        0 <= j && k == j + 1 && k < run.len() ==> call_ensures(
            sub_step,
            (&run[j], function, bounce),
            run[k],
        )
}

/// `to` is what `from` becomes after exactly `k` sub-steps in a row: there is
/// a run of `k + 1` states that starts at `from` and ends at `to`.
pub open spec fn advanced<P, F: Fn(&P, SimulateFunction, bool) -> P>(
    sub_step: F,
    function: SimulateFunction,
    bounce: bool,
    from: P,
    k: nat,
    to: P,
) -> bool {
    exists|run: Seq<P>|
        run.len() == k + 1 && run[0] == from && run[k as int] == to && #[trigger] is_run(
            sub_step,
            function,
            bounce,
            run,
        )
}

/// Sub-steps compose: `a` sub-steps from `from` to `mid` followed by `b`
/// sub-steps from `mid` to `to` are `a + b` sub-steps from `from` to `to`.
/// So `step(a)` followed by `step(b)`, under the same field and bounce flag,
/// takes every particle where a single `step(a + b)` may take it.
pub proof fn lemma_advanced_compose<P, F: Fn(&P, SimulateFunction, bool) -> P>(
    sub_step: F,
    function: SimulateFunction,
    bounce: bool,
    from: P,
    a: nat,
    mid: P,
    b: nat,
    to: P,
)
    requires
        advanced(sub_step, function, bounce, from, a, mid),
        advanced(sub_step, function, bounce, mid, b, to),
    ensures
        advanced(sub_step, function, bounce, from, a + b, to),
{
    let first = choose|run: Seq<P>|
        run.len() == a + 1 && run[0] == from && run[a as int] == mid && #[trigger] is_run(
            sub_step,
            function,
            bounce,
            run,
        );
    let second = choose|run: Seq<P>|
        run.len() == b + 1 && run[0] == mid && run[b as int] == to && #[trigger] is_run(
            sub_step,
            function,
            bounce,
            run,
        );
    let whole = first + second.subrange(1, (b + 1) as int);
    assert(whole.len() == a + b + 1);
    assert forall|j: int, k: int|
        #![trigger whole[j], whole[k]]
        0 <= j && k == j + 1 && k < whole.len() implies call_ensures(
            sub_step,
            (&whole[j], function, bounce),
            whole[k],
        ) by {
        if k <= a {
            assert(whole[j] == first[j]);
            assert(whole[k] == first[k]);
        } else {
            assert(whole[j] == second[j - a]);
            assert(whole[k] == second[k - a]);
        }
    }
    assert(is_run(sub_step, function, bounce, whole));
    assert(whole[(a + b) as int] == to);
}

/// Takes `start` through `count` sub-steps in a row and returns the last state.
fn sub_steps<P, F: Fn(&P, SimulateFunction, bool) -> P>(
    sub_step: &F,
    function: SimulateFunction,
    bounce: bool,
    start: &P,
    count: usize,
) -> (r: P)
    requires
        count >= 1,
        forall|p: &P| call_requires(*sub_step, (p, function, bounce)),
    ensures
        advanced(*sub_step, function, bounce, *start, count as nat, r),
{
    let mut state = sub_step(start, function, bounce);
    let ghost mut run: Seq<P> = seq![*start, state];
    let mut k: usize = 1;
    while k < count
        invariant
            1 <= k <= count,
            forall|p: &P| call_requires(*sub_step, (p, function, bounce)),
            run.len() == k + 1,
            run[0] == *start,
            run[k as int] == state,
            is_run(*sub_step, function, bounce, run),
        decreases count - k,
    {
        let next = sub_step(&state, function, bounce);
        proof {
            let longer = run.push(next);
            assert forall|j: int, k: int|
                #![trigger longer[j], longer[k]]
                0 <= j && k == j + 1 && k < longer.len() implies call_ensures(
                    *sub_step,
                    (&longer[j], function, bounce),
                    longer[k],
                ) by {
                assert(longer[j] == run[j]);
                if k < run.len() {
                    assert(longer[k] == run[k]);
                }
            }
            run = longer;
        }
        state = next;
        k = k + 1;
    }
    state
}

/// A particle simulator: an ordered store of particles of type `P`, the
/// active force field, the boundary-bounce flag and the number of sub-steps
/// taken so far.
///
/// The order of the store is the order of insertion; it carries no meaning
/// for the physics, each particle evolving on its own.
pub struct Simulator<P> {
    particles: Vec<P>,
    steps: u64,
    function: SimulateFunction,
    bounce_off_walls: bool,
}

impl<P> Simulator<P> {
    /// The particles, in order of insertion.
    pub closed spec fn particle_seq(&self) -> Seq<P> {
        self.particles@
    }

    /// The number of sub-steps taken since the simulator was made.
    pub closed spec fn step_count(&self) -> nat {
        self.steps as nat
    }

    /// The active force field.
    pub closed spec fn field(&self) -> SimulateFunction {
        self.function
    }

    /// Whether a particle that passes the boundary has its velocity reflected.
    pub closed spec fn bounces(&self) -> bool {
        self.bounce_off_walls
    }

    /// An empty simulator under `Gravity`, with bouncing off and no step taken.
    pub fn new() -> (r: Simulator<P>)
        ensures
            r.particle_seq() == Seq::<P>::empty(),
            r.step_count() == 0,
            r.field() == SimulateFunction::Gravity,
            !r.bounces(),
    {
        Simulator {
            particles: Vec::new(),
            steps: 0,
            function: SimulateFunction::Gravity,
            bounce_off_walls: false,
        }
    }

    /// Appends a particle at the end of the store.
    pub fn add_particle(&mut self, particle: P)
        ensures
            final(self).particle_seq() == old(self).particle_seq().push(particle),
            final(self).step_count() == old(self).step_count(),
            final(self).field() == old(self).field(),
            final(self).bounces() == old(self).bounces(),
    {
        self.particles.push(particle);
    }

    /// Empties the store, whatever it held; the step counter, the force field
    /// and the bounce flag are kept.
    pub fn clear(&mut self)
        ensures
            final(self).particle_seq() == Seq::<P>::empty(),
            final(self).step_count() == old(self).step_count(),
            final(self).field() == old(self).field(),
            final(self).bounces() == old(self).bounces(),
    {
        self.particles = Vec::new();
    }

    /// Makes `func` the active force field, from the next `step` on.
    pub fn set_function(&mut self, func: SimulateFunction)
        ensures
            final(self).field() == func,
            final(self).particle_seq() == old(self).particle_seq(),
            final(self).step_count() == old(self).step_count(),
            final(self).bounces() == old(self).bounces(),
    {
        self.function = func;
    }

    /// Turns the reflection of particles at the boundary on or off.
    pub fn set_bounce_off_walls(&mut self, bounce: bool)
        ensures
            final(self).bounces() == bounce,
            final(self).particle_seq() == old(self).particle_seq(),
            final(self).step_count() == old(self).step_count(),
            final(self).field() == old(self).field(),
    {
        self.bounce_off_walls = bounce;
    }

    /// Whether particles are reflected at the boundary.
    pub fn bounce_off_walls(&self) -> (r: bool)
        ensures
            r == self.bounces(),
    {
        self.bounce_off_walls
    }

    /// The active force field.
    pub fn function(&self) -> (r: SimulateFunction)
        ensures
            r == self.field(),
    {
        self.function
    }

    /// The number of sub-steps taken so far.
    pub fn steps(&self) -> (r: u64)
        ensures
            r == self.step_count(),
    {
        self.steps
    }

    /// The particles, in order of insertion.
    pub fn particles(&self) -> (r: &[P])
        ensures
            r@ == self.particle_seq(),
    {
        self.particles.as_slice()
    }

    /// Advances every particle by `count` sub-steps, then adds `count` to the
    /// step counter.
    ///
    /// A sub-step is one call of `sub_step` with the particle's current state,
    /// the active force field and the bounce flag; it returns the particle's
    /// next state. The particles are taken in order, and each one goes through
    /// its `count` sub-steps in sequence, so `count` calls are made for each
    /// particle. A `count` of zero changes nothing.
    pub fn step<F: Fn(&P, SimulateFunction, bool) -> P>(&mut self, count: usize, sub_step: F)
        requires
            old(self).step_count() + count <= u64::MAX,
            forall|p: &P| call_requires(sub_step, (p, old(self).field(), old(self).bounces())),
        ensures
            final(self).particle_seq().len() == old(self).particle_seq().len(),
            forall|i: int|
                0 <= i < old(self).particle_seq().len() ==> advanced(
                    sub_step,
                    old(self).field(),
                    old(self).bounces(),
                    old(self).particle_seq()[i],
                    count as nat,
                    #[trigger] final(self).particle_seq()[i],
                ),
            count == 0 ==> final(self).particle_seq() == old(self).particle_seq(),
            final(self).step_count() == old(self).step_count() + count,
            final(self).field() == old(self).field(),
            final(self).bounces() == old(self).bounces(),
    {
        let function = self.function;
        let bounce = self.bounce_off_walls;
        let n = self.particles.len();
        let mut i: usize = 0;
        assert forall|p: &P| call_requires(sub_step, (p, function, bounce)) by {
            assert(call_requires(sub_step, (p, old(self).field(), old(self).bounces())));
        }
        while i < n
            invariant
                i <= n,
                n == old(self).particles@.len(),
                self.particles@.len() == n,
                self.steps == old(self).steps,
                self.function == function,
                self.bounce_off_walls == bounce,
                function == old(self).function,
                bounce == old(self).bounce_off_walls,
                forall|p: &P| call_requires(sub_step, (p, function, bounce)),
                forall|j: int|
                    0 <= j < i ==> advanced(
                        sub_step,
                        function,
                        bounce,
                        old(self).particles@[j],
                        count as nat,
                        #[trigger] self.particles@[j],
                    ),
                forall|j: int| i <= j < n ==> self.particles@[j] == old(self).particles@[j],
                count == 0 ==> self.particles@ == old(self).particles@,
            decreases n - i,
        {
            proof {
                if count == 0 {
                    let start = old(self).particles@[i as int];
                    assert(is_run(sub_step, function, bounce, seq![start]));
                }
            }
            if count > 0 {
                let state = sub_steps(&sub_step, function, bounce, &self.particles[i], count);
                self.particles[i] = state;
            }
            i = i + 1;
        }
        self.steps = self.steps + count as u64;
    }
}

} // verus!
