use velo::loader::{harmonize_runes, materialize_runes};
use velo::models::{Direction, Rune, Vessel};
use velo::sail::{sail, Termination};

fn cosmos_of(text: &[&str]) -> Vec<Vec<Rune>> {
    let lines: Vec<Vec<char>> = text.iter().map(|s| s.chars().collect()).collect();
    materialize_runes(lines)
}

#[test]
fn scenario_one_cell_thrust_up_leaves_the_field() {
    // 1x1 grid containing '^': entry gives speed 1 heading Up; the first
    // step would need y = -1, so the run ends out of the field.
    let cosmos = cosmos_of(&["^"]);
    let mut vessel = Vessel::new(0, 0, cosmos[0][0]);
    assert_eq!(vessel.velocity(), 1);
    assert_eq!(vessel.direction(), Direction::Up);
    let r = sail(cosmos, &mut vessel, 1000);
    assert_eq!(r, Some(Termination::NoSignal));
    assert_eq!((vessel.x(), vessel.y()), (0, 0));
}

#[test]
fn scenario_thrust_up_before_parking_leaves_the_field() {
    // Grid "^P": the entry '^' points Up, so the vessel leaves the field
    // upward without ever reaching the parking rune.
    let cosmos = cosmos_of(&["^P"]);
    let mut vessel = Vessel::new(0, 0, cosmos[0][0]);
    let r = sail(cosmos, &mut vessel, 1000);
    assert_eq!(r, Some(Termination::NoSignal));
}

#[test]
fn scenario_parking_then_out_of_bounds() {
    // Grid ">P": entry speed 1 heading Right; the step onto (1,0) resets
    // the speed to 1, and the next step would need x = 2, outside the
    // width-2 grid.
    let cosmos = cosmos_of(&[">P"]);
    let mut vessel = Vessel::new(0, 0, cosmos[0][0]);
    let r = sail(cosmos, &mut vessel, 1000);
    assert_eq!(r, Some(Termination::NoSignal));
    assert_eq!((vessel.x(), vessel.y()), (1, 0));
    assert_eq!(vessel.velocity(), 1);
}

#[test]
fn scenario_brake_halts_on_the_brake_cell() {
    // Grid ">-": entry speed 1 heading Right; the step onto (1,0) brakes
    // the speed to 0, so the run halts there.
    let cosmos = cosmos_of(&[">-"]);
    let mut vessel = Vessel::new(0, 0, cosmos[0][0]);
    let r = sail(cosmos, &mut vessel, 1000);
    assert_eq!(r, Some(Termination::Stopped));
    assert_eq!((vessel.x(), vessel.y()), (1, 0));
    assert_eq!(vessel.velocity(), 0);
}

#[test]
fn scenario_void_entry_gives_no_entry_signal() {
    // A Void entry cell leaves the vessel still: no step is taken.
    let cosmos = cosmos_of(&[" ^", "  "]);
    let mut vessel = Vessel::new(0, 0, cosmos[0][0]);
    let r = sail(cosmos, &mut vessel, 1000);
    assert_eq!(r, Some(Termination::NoInitialVelocityOrDirection));
    assert_eq!((vessel.x(), vessel.y()), (0, 0));
}

#[test]
fn halted_position_is_always_inside_the_grid() {
    // A little tour: walk down onto a star, rebound upward, and halt on
    // the entry cell when its thrust opposes the new heading.
    let cosmos = cosmos_of(&["v  ", "*-+", "   "]);
    let mut vessel = Vessel::new(0, 0, cosmos[0][0]);
    let width = cosmos[0].len();
    let height = cosmos.len();
    let r = sail(cosmos, &mut vessel, 1000);
    assert_eq!(r, Some(Termination::Stopped));
    assert!(vessel.x() < width && vessel.y() < height);
}

#[test]
fn budget_exhaustion_reports_a_running_vessel() {
    // Four thrust runes turning the vessel in an endless clockwise circle:
    // the program runs forever, so any budget runs out with the vessel
    // still under way.
    let cosmos = cosmos_of(&[">v", "^<"]);
    let mut vessel = Vessel::new(0, 0, cosmos[0][0]);
    let r = sail(cosmos, &mut vessel, 10_000);
    assert_eq!(r, None);
    assert!(vessel.velocity() > 0);
}

#[test]
fn zero_budget_still_classifies_entry() {
    let cosmos = cosmos_of(&[" "]);
    let mut vessel = Vessel::new(0, 0, Rune::Void);
    assert_eq!(
        sail(cosmos, &mut vessel, 0),
        Some(Termination::NoInitialVelocityOrDirection)
    );

    let cosmos = cosmos_of(&["^"]);
    let mut vessel = Vessel::new(0, 0, Rune::ThrustUp);
    assert_eq!(sail(cosmos, &mut vessel, 0), None);
}

#[test]
fn negative_initial_velocity_halts_without_a_step() {
    let cosmos = cosmos_of(&["+"]);
    let mut vessel = Vessel {
        x: 0,
        y: 0,
        direction: Direction::Right,
        velocity: -2,
    };
    let r = sail(cosmos, &mut vessel, 1000);
    assert_eq!(r, Some(Termination::Stopped));
    assert_eq!(vessel.velocity(), -2);
}

#[test]
fn full_pipeline_from_text_to_termination() {
    // The whole flow the program runs: harmonize raw lines, materialize
    // runes, enter at the center cell, and sail.
    let raw = ["   ", " > ", "  -"];
    let lines: Vec<Vec<char>> = raw.iter().map(|s| s.chars().collect()).collect();
    let grid = harmonize_runes(lines);
    let cosmos = materialize_runes(grid);
    let width = cosmos[0].len();
    let height = cosmos.len();
    let center_x = width / 2;
    let center_y = height / 2;
    let mut vessel = Vessel::new(center_x, center_y, cosmos[center_y][center_x]);
    // center '>' sends the vessel right onto the edge, then out.
    let r = sail(cosmos, &mut vessel, 1000);
    assert_eq!(r, Some(Termination::NoSignal));
    assert_eq!((vessel.x(), vessel.y()), (2, 1));
}
