use hyperloglog::DefaultDigest;
use hyperloglog::HyperLogLog;
use hyperloglog::SketchError;

fn estimate(sketch: &mut HyperLogLog<DefaultDigest>) -> f64 {
    let sum = sketch.evaluate();
    let count = sketch.registers().len();
    sum as f64 / count as f64
}

#[test]
fn test_insert() {
    let mut hll = HyperLogLog::default();
    hll.insert("test1".as_bytes());
    let mut hll = HyperLogLog::new(8).unwrap();
    hll.insert("test1".as_bytes());
}

#[test]
fn fresh_sketch_has_pow2_registers_and_zero_estimate() {
    for p in 4u8..=16u8 {
        let mut s = HyperLogLog::new(p).unwrap();
        assert_eq!(s.registers().len(), 1usize << p);
        assert!(s.registers().iter().all(|&r| r == 0));
        assert_eq!(s.evaluate(), 0);
        assert_eq!(estimate(&mut s), 0.0);
    }
}

#[test]
fn construction_rejects_out_of_range_precision() {
    assert_eq!(HyperLogLog::new(3).unwrap_err(), SketchError::InvalidPrecision);
    assert_eq!(HyperLogLog::new(17).unwrap_err(), SketchError::InvalidPrecision);
    assert_eq!(HyperLogLog::new(0).unwrap_err(), SketchError::InvalidPrecision);
    assert_eq!(HyperLogLog::new(255).unwrap_err(), SketchError::InvalidPrecision);
    assert!(HyperLogLog::new(4).is_ok());
    assert!(HyperLogLog::new(16).is_ok());
    assert!(HyperLogLog::with_hasher(12, DefaultDigest).is_ok());
}

fn sketch_of(precision: u8, elements: &[&str]) -> HyperLogLog<DefaultDigest> {
    let mut s = HyperLogLog::new(precision).unwrap();
    for e in elements {
        s.insert(e.as_bytes());
    }
    s
}

#[test]
fn merge_is_commutative() {
    let a = sketch_of(8, &["apple", "banana", "cherry", "date", "elder"]);
    let b = sketch_of(8, &["fig", "grape", "banana", "honeydew"]);
    let mut ab = a.clone();
    ab.merge(&b).unwrap();
    let mut ba = b.clone();
    ba.merge(&a).unwrap();
    assert_eq!(ab.registers(), ba.registers());
}

#[test]
fn merge_is_associative() {
    let a = sketch_of(6, &["one", "two", "three"]);
    let b = sketch_of(6, &["four", "five"]);
    let c = sketch_of(6, &["six", "seven", "eight", "nine"]);
    let mut left = a.clone();
    left.merge(&b).unwrap();
    left.merge(&c).unwrap();
    let mut bc = b.clone();
    bc.merge(&c).unwrap();
    let mut right = a.clone();
    right.merge(&bc).unwrap();
    assert_eq!(left.registers(), right.registers());
}

#[test]
fn merge_is_idempotent() {
    let a = sketch_of(8, &["alpha", "beta", "gamma", "delta"]);
    let mut aa = a.clone();
    aa.merge(&a).unwrap();
    assert_eq!(aa.registers(), a.registers());
}

#[test]
fn double_insert_matches_single_insert() {
    let mut once = HyperLogLog::new(8).unwrap();
    once.insert("repeated".as_bytes());
    let mut twice = HyperLogLog::new(8).unwrap();
    twice.insert("repeated".as_bytes());
    twice.insert("repeated".as_bytes());
    assert_eq!(once.registers(), twice.registers());
}

#[test]
fn evaluate_twice_returns_identical_value() {
    let mut s = sketch_of(8, &["a", "b", "c", "d", "e", "f"]);
    let first = s.evaluate();
    let second = s.evaluate();
    assert_eq!(first, second);
    let v1 = estimate(&mut s);
    let v2 = estimate(&mut s);
    assert_eq!(v1, v2);
}

#[test]
fn mutation_invalidates_cache() {
    let mut s = HyperLogLog::new(8).unwrap();
    s.insert("seed".as_bytes());
    let before = s.evaluate();
    for i in 0..64 {
        s.insert(format!("element-{}", i).as_bytes());
    }
    let after = s.evaluate();
    let recomputed: u64 = s.registers().iter().map(|&r| r as u64).sum();
    assert_eq!(after, recomputed);
    assert!(after > before);

    let other = sketch_of(8, &["x", "y", "z", "w", "v", "u", "t"]);
    let merged_expected: u64 = s
        .registers()
        .iter()
        .zip(other.registers().iter())
        .map(|(&a, &b)| a.max(b) as u64)
        .sum();
    s.merge(&other).unwrap();
    assert_eq!(s.evaluate(), merged_expected);
}

#[test]
fn reset_restores_fresh_state() {
    let mut s = sketch_of(10, &["p", "q", "r", "s", "t"]);
    assert!(s.evaluate() > 0);
    s.reset();
    assert!(s.registers().iter().all(|&r| r == 0));
    assert_eq!(s.evaluate(), 0);
    assert_eq!(estimate(&mut s), 0.0);
    let fresh = HyperLogLog::new(10).unwrap();
    assert_eq!(s.registers(), fresh.registers());
}

#[test]
fn merge_with_different_precision_fails() {
    let mut eight = sketch_of(8, &["k1", "k2", "k3"]);
    let mut ten = sketch_of(10, &["k4", "k5"]);
    let eight_before = eight.registers().clone();
    let ten_before = ten.registers().clone();
    assert_eq!(eight.merge(&ten).unwrap_err(), SketchError::IncompatibleMerge);
    assert_eq!(eight.registers(), &eight_before);
    assert_eq!(ten.registers(), &ten_before);
    assert_eq!(ten.merge(&eight).unwrap_err(), SketchError::IncompatibleMerge);
    assert_eq!(eight.registers(), &eight_before);
    assert_eq!(ten.registers(), &ten_before);
}

#[test]
fn insert_test1_scenario() {
    let mut s = HyperLogLog::new(8).unwrap();
    s.insert("test1".as_bytes());
    let first = estimate(&mut s);
    assert!(first > 0.0);
    assert!(first <= 64.0);
    let second = estimate(&mut s);
    assert_eq!(first, second);
}
