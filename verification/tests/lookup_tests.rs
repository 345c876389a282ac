//! Tests for the piecewise-linear lookup primitive: interior interpolation,
//! endpoint clamping, exactness at control points, and construction
//! validation.

use world3::fixed::SCALE;
use world3::lookup::LookupTable;

fn fx(v: f64) -> i64 {
    (v * SCALE as f64).round() as i64
}

#[test]
fn test_lookup_basic_interpolation() {
    let t = LookupTable::new(
        "test",
        vec![fx(0.0), fx(1.0), fx(2.0)],
        vec![fx(0.0), fx(10.0), fx(20.0)],
    );
    assert_eq!(t.eval(fx(0.5)), fx(5.0));
    assert_eq!(t.eval(fx(1.5)), fx(15.0));
}

#[test]
fn test_lookup_clamping() {
    let t = LookupTable::new("test", vec![fx(0.0), fx(1.0)], vec![fx(5.0), fx(10.0)]);
    assert_eq!(t.eval(fx(-1.0)), fx(5.0));
    assert_eq!(t.eval(fx(2.0)), fx(10.0));
}

#[test]
fn test_lookup_exact_points() {
    let t = LookupTable::new(
        "test",
        vec![fx(0.0), fx(1.0), fx(2.0)],
        vec![fx(3.0), fx(7.0), fx(11.0)],
    );
    assert_eq!(t.eval(fx(0.0)), fx(3.0));
    assert_eq!(t.eval(fx(1.0)), fx(7.0));
    assert_eq!(t.eval(fx(2.0)), fx(11.0));
}

#[test]
fn interior_point_is_exact_truncated_blend() {
    // One asymmetric segment: x spans [0, 3], y spans [0, 1].  At x = 1 the
    // blend parameter truncates to 3333 units and so does the result.
    let t = LookupTable::new("ramp", vec![0, fx(3.0)], vec![0, fx(1.0)]);
    assert_eq!(t.eval(fx(1.0)), 3333);
    assert_eq!(t.eval(fx(2.0)), 6666);
}

#[test]
fn try_new_accepts_valid_tables() {
    let t = LookupTable::try_new("ok", vec![0, 10, 20], vec![5, 6, 7]);
    assert!(t.is_some());
    let t = t.unwrap();
    assert_eq!(t.x, vec![0, 10, 20]);
    assert_eq!(t.y, vec![5, 6, 7]);
}

#[test]
fn try_new_rejects_mismatched_lengths() {
    assert!(LookupTable::try_new("bad", vec![0, 10, 20], vec![1, 2]).is_none());
}

#[test]
fn try_new_rejects_single_point() {
    assert!(LookupTable::try_new("bad", vec![0], vec![1]).is_none());
}

#[test]
fn try_new_rejects_non_increasing_x() {
    assert!(LookupTable::try_new("bad", vec![0, 10, 10], vec![1, 2, 3]).is_none());
    assert!(LookupTable::try_new("bad", vec![0, 10, 5], vec![1, 2, 3]).is_none());
}

#[test]
fn loaded_tables_hit_their_control_points() {
    let tables = world3::WorldLookupTables::load();
    // Control points are exact: food ratio 1.0 gives a neutral multiplier,
    // full resources give the minimum cost multiplier.
    assert_eq!(tables.life_exp_multiplier_food.eval(fx(1.0)), fx(1.0));
    assert_eq!(tables.capital_output_ratio_resources.eval(fx(1.0)), fx(0.5));
    assert_eq!(tables.capital_output_ratio_resources.eval(fx(0.0)), fx(4.0));
    assert_eq!(tables.pollution_assimilation_time.eval(fx(0.0)), fx(20.0));
    assert_eq!(tables.family_planning_multiplier.eval(fx(1.0)), fx(0.4));
}
