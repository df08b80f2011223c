use kadu::fixed::{Fixed, Vec2};
use kadu::frames::{check_violations, compute};
use kadu::geometry::{Rect, WorldRect};
use kadu::hash::{chain, Fnv1a};
use kadu::rng::Pcg32;
use kadu::default_ruleset;

#[test]
fn from_int_roundtrip() {
    assert_eq!(Fixed::from_int(5).to_int(), 5);
    assert_eq!(Fixed::from_int(-3).to_int(), -3);
    assert_eq!(Fixed::from_int(0).to_int(), 0);
}

#[test]
fn add_sub() {
    let a = Fixed::from_int(3);
    let b = Fixed::from_int(2);
    assert_eq!((a + b).to_int(), 5);
    assert_eq!((a - b).to_int(), 1);
}

#[test]
fn mul_basic() {
    let a = Fixed::from_int(3);
    let b = Fixed::from_int(4);
    assert_eq!((a * b).to_int(), 12);
    let half = Fixed::from_raw(1 << 15); // 0.5
    assert_eq!((Fixed::from_int(10) * half).to_int(), 5);
}

#[test]
fn div_basic() {
    let a = Fixed::from_int(10);
    let b = Fixed::from_int(4);
    let r = a / b;
    // 2.5
    assert_eq!(r.raw(), (5 << 16) / 2);
}

#[test]
fn abs_and_cmp() {
    let a = Fixed::from_int(-5);
    assert_eq!(a.abs().to_int(), 5);
    assert!(Fixed::from_int(1) < Fixed::from_int(2));
}

#[test]
fn clamp_works() {
    let v = Fixed::from_int(150);
    let clamped = v.clamp(Fixed::from_int(0), Fixed::from_int(100));
    assert_eq!(clamped.to_int(), 100);
}

#[test]
fn mul_pct_rounds_toward_zero() {
    let v = Fixed::from_int(100);
    assert_eq!(v.mul_pct(90).to_int(), 90);
    assert_eq!(v.mul_pct(50).to_int(), 50);
}

#[test]
fn deterministic_across_repeated_runs() {
    // Same operations must produce bit-identical results every time.
    let mut acc = Fixed::from_int(1);
    for i in 1..1000 {
        acc = acc + Fixed::from_int(i) * Fixed::from_raw(3) - Fixed::from_int(1);
    }
    let mut acc2 = Fixed::from_int(1);
    for i in 1..1000 {
        acc2 = acc2 + Fixed::from_int(i) * Fixed::from_raw(3) - Fixed::from_int(1);
    }
    assert_eq!(acc.raw(), acc2.raw());
}

#[test]
fn overlap_detects_intersection() {
    let a = WorldRect { x0: Fixed::from_int(0), y0: Fixed::from_int(0), x1: Fixed::from_int(10), y1: Fixed::from_int(10) };
    let b = WorldRect { x0: Fixed::from_int(5), y0: Fixed::from_int(5), x1: Fixed::from_int(15), y1: Fixed::from_int(15) };
    assert!(a.overlaps(&b));
}

#[test]
fn no_overlap_when_separated() {
    let a = WorldRect { x0: Fixed::from_int(0), y0: Fixed::from_int(0), x1: Fixed::from_int(10), y1: Fixed::from_int(10) };
    let b = WorldRect { x0: Fixed::from_int(20), y0: Fixed::from_int(20), x1: Fixed::from_int(30), y1: Fixed::from_int(30) };
    assert!(!a.overlaps(&b));
}

#[test]
fn mirrors_for_facing_left() {
    let r = Rect { x: Fixed::from_int(10), y: Fixed::from_int(0), w: Fixed::from_int(5), h: Fixed::from_int(5) };
    let origin = Vec2::new(Fixed::from_int(100), Fixed::from_int(0));
    let right = r.to_world(origin, true);
    let left = r.to_world(origin, false);
    assert_eq!(right.x0.to_int(), 110);
    assert_eq!(left.x1.to_int(), 90);
}

#[test]
fn deterministic() {
    let mut a = Fnv1a::new();
    a.write_i32(42);
    a.write_u32(7);
    let mut b = Fnv1a::new();
    b.write_i32(42);
    b.write_u32(7);
    assert_eq!(a.finish(), b.finish());
}

#[test]
fn order_matters() {
    let mut a = Fnv1a::new();
    a.write_i32(1);
    a.write_i32(2);
    let mut b = Fnv1a::new();
    b.write_i32(2);
    b.write_i32(1);
    assert_ne!(a.finish(), b.finish());
}

#[test]
fn chain_accumulates() {
    let h1 = chain(0, 111);
    let h2 = chain(h1, 222);
    let h1_again = chain(0, 111);
    let h2_again = chain(h1_again, 222);
    assert_eq!(h2, h2_again);
}

#[test]
fn deterministic_sequence() {
    let mut a = Pcg32::new(42, 1);
    let mut b = Pcg32::new(42, 1);
    for _ in 0..100 {
        assert_eq!(a.next_u32(), b.next_u32());
    }
}

#[test]
fn different_seeds_diverge() {
    let mut a = Pcg32::new(1, 1);
    let mut b = Pcg32::new(2, 1);
    let seq_a: Vec<u32> = (0..10).map(|_| a.next_u32()).collect();
    let seq_b: Vec<u32> = (0..10).map(|_| b.next_u32()).collect();
    assert_ne!(seq_a, seq_b);
}

#[test]
fn bounded_within_range() {
    let mut r = Pcg32::new(7, 3);
    for _ in 0..1000 {
        let v = r.next_bounded(17);
        assert!(v < 17);
    }
}

#[test]
fn loads_default_ruleset() {
    let rs = default_ruleset();
    assert_eq!(rs.tick_rate, 60);
    assert_eq!(rs.round_ticks, 5400);
    assert_eq!(rs.light.damage, 30);
}

#[test]
fn content_hash_stable() {
    let a = default_ruleset().content_hash();
    let b = default_ruleset().content_hash();
    assert_eq!(a, b);
}

#[test]
fn light_is_no_longer_a_violation_after_change_2() {
    let rs = default_ruleset();
    let rows = compute(&rs);
    assert_eq!(check_violations(&rows), Vec::<String>::new());
}
