use vstd::prelude::*;

use crate::models::{impact_result, next_coordinate, Cosmos, Rune, Vessel};

verus! {

/// Defines the reason for the Velo program's execution halt.
#[derive(Debug, Clone, Copy, PartialEq, Eq, Structural)]
pub enum Termination {
    Stopped,                      // Vessel velocity reached zero or below.
    NoSignal,                     // Vessel traveled out of the Cosmos bounds.
    NoInitialVelocityOrDirection, // Start Rune was not a Thrust rune.
}

/// A well-formed cosmos: at least one row, and every row as long as the
/// first, so width and height describe it completely.
pub open spec fn grid_wf(cosmos: Seq<Vec<Rune>>) -> bool {
    &&& cosmos.len() > 0
    &&& forall|i: int|
        0 <= i < cosmos.len() ==> (#[trigger] cosmos[i]@.len()) == cosmos[0]@.len()
}

/// The vessel's position lies inside the cosmos.
pub open spec fn vessel_in_bounds(cosmos: Seq<Vec<Rune>>, v: Vessel) -> bool {
    &&& v.x < cosmos[0]@.len()
    &&& v.y < cosmos.len()
}

/// One step of the engine, on a machine state that is a vessel together
/// with an optional terminal outcome. A terminal state is absorbing. A
/// running vessel with velocity at or below zero halts with `Stopped`; one
/// whose candidate next cell does not exist or lies outside the cosmos
/// ends with `NoSignal`; otherwise the vessel moves onto the candidate
/// cell and takes that cell's rune impact.
pub open spec fn engine_step(
    cosmos: Seq<Vec<Rune>>,
    s: (Vessel, Option<Termination>),
) -> (Vessel, Option<Termination>) {
    if s.1 is Some {
        s
    } else {
        let v = s.0;
        if v.velocity <= 0 {
            (v, Some(Termination::Stopped))
        } else {
            match next_coordinate(v) {
                Some(c) => {
                    if c.0 >= cosmos[0]@.len() || c.1 >= cosmos.len() {
                        (v, Some(Termination::NoSignal))
                    } else {
                        let moved = Vessel { x: c.0 as usize, y: c.1 as usize, ..v };
                        (impact_result(moved, cosmos[c.1]@[c.0]), None)
                    }
                },
                None => (v, Some(Termination::NoSignal)),
            }
        }
    }
}

/// The machine state after `n` engine steps from `s`.
pub open spec fn engine_run(
    cosmos: Seq<Vec<Rune>>,
    s: (Vessel, Option<Termination>),
    n: nat,
) -> (Vessel, Option<Termination>)
    decreases n,
{
    if n == 0 {
        s
    } else {
        engine_step(cosmos, engine_run(cosmos, s, (n - 1) as nat))
    }
}

/// Every terminal state is final: once a run has reached an outcome, any
/// further engine steps leave the state unchanged. Together with the
/// engine being a function of its inputs, this pins `sail`'s outcome to
/// the one terminal state of the run, however many steps a caller allows.
pub proof fn lemma_engine_run_absorbing(
    cosmos: Seq<Vec<Rune>>,
    s: (Vessel, Option<Termination>),
    n: nat,
    m: nat,
)
    requires
        n <= m,
        engine_run(cosmos, s, n).1 is Some,
    ensures
        engine_run(cosmos, s, m) == engine_run(cosmos, s, n),
    decreases m,
{
    if m > n {
        lemma_engine_run_absorbing(cosmos, s, n, (m - 1) as nat);
    }
}

/// Runs the Velo program by moving the Vessel through the Cosmos grid, for
/// at most `max_steps` engine steps.
///
/// A Velo program may run forever, so the caller supplies a step budget and
/// drives the engine again when it is exhausted: `Some(t)` is the final
/// outcome of the (deterministic) run, while `None` means the budget ran
/// out with the vessel still under way, left exactly where `max_steps`
/// engine steps put it. A vessel that starts with velocity zero never got
/// an entry signal and takes no step at all.
pub fn sail(cosmos: Cosmos, vessel: &mut Vessel, max_steps: u64) -> (r: Option<Termination>)
    requires
        grid_wf(cosmos@),
        vessel_in_bounds(cosmos@, *old(vessel)),
    ensures
        vessel_in_bounds(cosmos@, *final(vessel)),
        r == Some(Termination::Stopped) ==> final(vessel).velocity <= 0,
        r == Some(Termination::NoSignal) ==> final(vessel).velocity > 0 && match next_coordinate(
            *final(vessel),
        ) {
            Some(c) => c.0 >= cosmos@[0]@.len() || c.1 >= cosmos@.len(),
            None => true,
        },
        r is None ==> final(vessel).velocity > 0,
        old(vessel).velocity == 0 ==> r == Some(Termination::NoInitialVelocityOrDirection)
            && *final(vessel) == *old(vessel),
        old(vessel).velocity != 0 ==> match r {
            Some(t) => t != Termination::NoInitialVelocityOrDirection && exists|n: nat|
                engine_run(cosmos@, (*old(vessel), None), n) == (*final(vessel), Some(t)),
            None => engine_run(cosmos@, (*old(vessel), None), max_steps as nat) == (
                *final(vessel),
                None::<Termination>,
            ),
        },
{
    let width = cosmos[0].len();
    let height = cosmos.len();

    // Check for initial velocity requirement (must start on a Thrust rune)
    if vessel.velocity() == 0 {
        return Some(Termination::NoInitialVelocityOrDirection);
    }

    let mut fuel: u64 = max_steps;
    let ghost start: (Vessel, Option<Termination>) = (*vessel, None);
    let ghost mut n: nat = 0;

    // The execution loop: continues as long as the velocity is positive.
    #[verifier::loop_isolation(false)]
    while vessel.velocity() > 0
        invariant
            vessel_in_bounds(cosmos@, *vessel),
            n + fuel == max_steps,
            engine_run(cosmos@, start, n) == (*vessel, None::<Termination>),
        decreases fuel,
    {
        if fuel == 0 {
            return None;
        }
        fuel = fuel - 1;

        match vessel.get_next_coordinate() {
            Ok((x, y)) => {
                // Check if the next coordinates are within the Cosmos boundaries.
                if x >= width || y >= height {
                    proof {
                        n = n + 1;
                        assert(engine_run(cosmos@, start, n) == (
                            *vessel,
                            Some(Termination::NoSignal),
                        ));
                    }
                    return Some(Termination::NoSignal);
                }

                let rune = cosmos[y][x];

                // Update the vessel's position.
                vessel.move_to(x, y);

                // Impact the Rune, folding its effect into the vessel's state.
                vessel.impact_rune(rune);

                proof {
                    n = n + 1;
                }
            },
            Err(_) => {
                // A boundary check failed in `get_next_coordinate` (the step
                // would have needed a negative coordinate).
                proof {
                    n = n + 1;
                    assert(engine_run(cosmos@, start, n) == (
                        *vessel,
                        Some(Termination::NoSignal),
                    ));
                }
                return Some(Termination::NoSignal);
            },
        }
    }

    proof {
        n = n + 1;
        assert(engine_run(cosmos@, start, n) == (*vessel, Some(Termination::Stopped)));
    }
    Some(Termination::Stopped)
}

} // verus!
