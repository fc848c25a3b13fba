use physics_sim::{SimulateFunction, Simulator};
use std::cell::Cell;

/// A particle state for the tests: an identity and the number of sub-steps it
/// has been through.
#[derive(Clone, Copy, Debug, PartialEq)]
struct Tally {
    id: u32,
    sub_steps: u32,
}

fn tally(id: u32) -> Tally {
    Tally { id, sub_steps: 0 }
}

fn tick(p: &Tally, _f: SimulateFunction, _b: bool) -> Tally {
    Tally { id: p.id, sub_steps: p.sub_steps + 1 }
}

#[test]
fn new_simulator_is_empty_under_gravity() {
    let sim: Simulator<Tally> = Simulator::new();
    assert!(sim.particles().is_empty());
    assert_eq!(sim.steps(), 0);
    assert_eq!(sim.function(), SimulateFunction::Gravity);
    assert!(!sim.bounce_off_walls());
}

#[test]
fn add_particle_keeps_insertion_order() {
    let mut sim = Simulator::new();
    sim.add_particle(tally(3));
    sim.add_particle(tally(1));
    sim.add_particle(tally(2));
    let ids: Vec<u32> = sim.particles().iter().map(|p| p.id).collect();
    assert_eq!(ids, vec![3, 1, 2]);
}

#[test]
fn clear_empties_the_store_and_keeps_the_rest() {
    let mut sim = Simulator::new();
    for i in 0..10 {
        sim.add_particle(tally(i));
    }
    sim.set_function(SimulateFunction::Harmonic);
    sim.set_bounce_off_walls(true);
    sim.step(4, tick);
    sim.clear();
    assert!(sim.particles().is_empty());
    assert_eq!(sim.steps(), 4);
    assert_eq!(sim.function(), SimulateFunction::Harmonic);
    assert!(sim.bounce_off_walls());
}

#[test]
fn clear_on_an_empty_store_leaves_it_empty() {
    let mut sim: Simulator<Tally> = Simulator::new();
    sim.clear();
    assert!(sim.particles().is_empty());
    sim.add_particle(tally(0));
    assert_eq!(sim.particles().len(), 1);
}

#[test]
fn set_function_replaces_the_active_field() {
    let mut sim: Simulator<Tally> = Simulator::new();
    sim.set_function(SimulateFunction::ParallelElectric);
    assert_eq!(sim.function(), SimulateFunction::ParallelElectric);
    sim.set_function(SimulateFunction::NoForce);
    assert_eq!(sim.function(), SimulateFunction::NoForce);
}

#[test]
fn step_makes_count_sub_steps_per_particle() {
    let n: u32 = 7;
    let count: usize = 5;
    let mut sim = Simulator::new();
    for i in 0..n {
        sim.add_particle(tally(i));
    }
    let calls = Cell::new(0usize);
    sim.step(count, |p: &Tally, f, b| {
        calls.set(calls.get() + 1);
        tick(p, f, b)
    });
    assert_eq!(calls.get(), n as usize * count);
    for (i, p) in sim.particles().iter().enumerate() {
        assert_eq!(p.id, i as u32);
        assert_eq!(p.sub_steps, count as u32);
    }
    assert_eq!(sim.steps(), count as u64);
}

#[test]
fn step_takes_each_particle_through_its_sub_steps_in_turn() {
    let mut sim = Simulator::new();
    sim.add_particle(tally(0));
    sim.add_particle(tally(1));
    let order = std::cell::RefCell::new(Vec::new());
    sim.step(3, |p: &Tally, f, b| {
        order.borrow_mut().push((p.id, p.sub_steps));
        tick(p, f, b)
    });
    assert_eq!(
        order.into_inner(),
        vec![(0, 0), (0, 1), (0, 2), (1, 0), (1, 1), (1, 2)]
    );
}

#[test]
fn step_of_zero_changes_nothing() {
    let mut sim = Simulator::new();
    sim.add_particle(tally(9));
    let calls = Cell::new(0usize);
    sim.step(0, |p: &Tally, f, b| {
        calls.set(calls.get() + 1);
        tick(p, f, b)
    });
    assert_eq!(calls.get(), 0);
    assert_eq!(sim.particles(), &[tally(9)]);
    assert_eq!(sim.steps(), 0);
}

#[test]
fn step_on_an_empty_store_still_counts() {
    let mut sim: Simulator<Tally> = Simulator::new();
    sim.step(3, tick);
    sim.step(2, tick);
    assert_eq!(sim.steps(), 5);
}

#[test]
fn step_hands_the_active_field_and_bounce_flag_to_every_sub_step() {
    let mut sim = Simulator::new();
    sim.add_particle(tally(0));
    sim.add_particle(tally(1));
    sim.set_function(SimulateFunction::WindowsXP);
    sim.set_bounce_off_walls(true);
    let seen = std::cell::RefCell::new(Vec::new());
    sim.step(2, |p: &Tally, f, b| {
        seen.borrow_mut().push((f, b));
        tick(p, f, b)
    });
    let seen = seen.into_inner();
    assert_eq!(seen.len(), 4);
    assert!(seen.iter().all(|s| *s == (SimulateFunction::WindowsXP, true)));
}

#[test]
fn the_field_change_applies_from_the_next_step() {
    let mut sim = Simulator::new();
    sim.add_particle(tally(0));
    let seen = std::cell::RefCell::new(Vec::new());
    let record = |p: &Tally, f: SimulateFunction, b: bool| {
        seen.borrow_mut().push(f);
        tick(p, f, b)
    };
    sim.step(1, &record);
    sim.set_function(SimulateFunction::Logistic);
    sim.step(1, &record);
    assert_eq!(
        seen.into_inner(),
        vec![SimulateFunction::Gravity, SimulateFunction::Logistic]
    );
}

#[test]
fn reading_the_step_counter_twice_gives_the_same_value() {
    let mut sim = Simulator::new();
    sim.add_particle(tally(0));
    sim.step(6, tick);
    let first = sim.steps();
    let second = sim.steps();
    assert_eq!(first, second);
    sim.add_particle(tally(1));
    sim.set_function(SimulateFunction::Butterfly);
    sim.set_bounce_off_walls(true);
    sim.clear();
    assert_eq!(sim.steps(), first);
}

#[test]
fn bounce_flag_toggles() {
    let mut sim: Simulator<Tally> = Simulator::new();
    sim.set_bounce_off_walls(!sim.bounce_off_walls());
    assert!(sim.bounce_off_walls());
    sim.set_bounce_off_walls(!sim.bounce_off_walls());
    assert!(!sim.bounce_off_walls());
}

#[test]
fn sub_steps_chain_on_the_state_they_return() {
    let mut sim = Simulator::new();
    sim.add_particle(1i64);
    sim.add_particle(-2i64);
    sim.step(4, |p: &i64, _f, _b| *p * 3);
    assert_eq!(sim.particles(), &[81, -162]);
}
