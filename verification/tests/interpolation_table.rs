use water_container::interpolation_table::{interpolate, LimitBehaviour, LinearInterpolationTable};

/// One unit of a key or a value in these tests is a millionth.
const SCALE: f64 = 1e6;

fn fixed(x: f64) -> i64 {
    (x * SCALE).round() as i64
}

fn float(x: i64) -> f64 {
    x as f64 / SCALE
}

fn sample(limit_behaviour: LimitBehaviour) -> LinearInterpolationTable {
    LinearInterpolationTable::new(
        limit_behaviour,
        vec![
            (fixed(0.0), fixed(1.0)),
            (fixed(2.0), fixed(2.0)),
            (fixed(3.0), fixed(0.0)),
        ],
    )
}

#[test]
fn test() {
    let interpolation_table = sample(LimitBehaviour::Clamp);
    assert!((float(interpolation_table.get(fixed(0.0))) - 1.0).abs() < 1e-10);
    assert!((float(interpolation_table.get(fixed(2.0))) - 2.0).abs() < 1e-10);
    assert!((float(interpolation_table.get(fixed(3.0))) - 0.0).abs() < 1e-10);

    assert!((float(interpolation_table.get(fixed(1.0))) - 1.5).abs() < 1e-10);
    assert!((float(interpolation_table.get(fixed(2.5))) - 1.0).abs() < 1e-10);
    assert!((float(interpolation_table.get(fixed(0.5))) - 1.25).abs() < 1e-10);

    assert!((float(interpolation_table.get(fixed(-1.0))) - 1.0).abs() < 1e-10);
    assert!((float(interpolation_table.get(fixed(5.0))) - 0.0).abs() < 1e-10);
}

#[test]
fn keys_give_their_values_exactly() {
    let table = sample(LimitBehaviour::Panic);
    assert_eq!(table.get(0), 1_000_000);
    assert_eq!(table.get(2_000_000), 2_000_000);
    assert_eq!(table.get(3_000_000), 0);
}

#[test]
fn values_between_keys_lie_on_the_line() {
    let table = sample(LimitBehaviour::Panic);
    assert_eq!(table.get(1_000_000), 1_500_000);
    assert_eq!(table.get(2_500_000), 1_000_000);
    assert_eq!(table.get(500_000), 1_250_000);
}

#[test]
fn values_between_keys_are_rounded_down() {
    let entries = [(0, 0), (3, 1)];
    assert_eq!(interpolate(&entries, 1), 0);
    assert_eq!(interpolate(&entries, 2), 0);
    assert_eq!(interpolate(&entries, 3), 1);
    let falling = [(0, 0), (3, -1)];
    assert_eq!(interpolate(&falling, 1), -1);
    assert_eq!(interpolate(&falling, 2), -1);
}

#[test]
fn clamped_queries_give_the_boundary_values() {
    let table = sample(LimitBehaviour::Clamp);
    assert_eq!(table.get(-1_000_000), 1_000_000);
    assert_eq!(table.get(5_000_000), 0);
    assert_eq!(table.get(i64::MIN), 1_000_000);
    assert_eq!(table.get(i64::MAX), 0);
}

#[test]
fn a_single_entry_answers_every_query() {
    let table = LinearInterpolationTable::new(LimitBehaviour::Clamp, vec![(7, 42)]);
    assert_eq!(table.get(-3), 42);
    assert_eq!(table.get(7), 42);
    assert_eq!(table.get(1000), 42);
}

#[test]
fn extreme_entries_do_not_overflow() {
    let entries = [(i64::MIN, i64::MIN), (i64::MAX, i64::MAX)];
    assert_eq!(interpolate(&entries, 0), 0);
    assert_eq!(interpolate(&entries, -1), -1);
    let crossing = [(i64::MIN, i64::MAX), (i64::MAX, i64::MIN)];
    assert_eq!(interpolate(&crossing, i64::MIN + 1), i64::MAX - 1);
}

#[test]
fn a_table_shows_what_it_was_made_of() {
    let table = sample(LimitBehaviour::Panic);
    assert_eq!(table.limit_behaviour(), LimitBehaviour::Panic);
    assert_eq!(table.entries(), &[(0, 1_000_000), (2_000_000, 2_000_000), (3_000_000, 0)]);
    assert_eq!(sample(LimitBehaviour::Clamp).limit_behaviour(), LimitBehaviour::Clamp);
}
