use rand::rngs::Xoshiro256PlusPlus;
use rand::{Rng, SeedableRng};
use sparrow::rng::{make_rng, next_rng};
use sparrow::step::{Phase, StepSession};

#[test]
fn phases_run_in_order() {
    let mut s: StepSession<&str> = StepSession::new(make_rng(Some(1)).unwrap());
    assert_eq!(s.current_phase(), Phase::Init);
    assert!(s.start_compression().is_none());
    assert!(s.final_solution().is_none());
    assert!(s.start_exploration().is_some());
    s.finish_exploration(vec!["a", "b"]);
    assert_eq!(s.current_phase(), Phase::Exploration);
    assert!(s.start_exploration().is_none());
    assert!(s.final_solution().is_none());
    assert!(s.start_compression().is_some());
    assert_eq!(*s.compression_input(), "b");
    s.finish_compression("c");
    assert_eq!(s.current_phase(), Phase::Compression);
    assert_eq!(s.final_solution(), Some(&"c"));
    assert!(s.start_exploration().is_none());
    assert!(s.start_compression().is_none());
}

#[test]
fn compression_needs_a_layout() {
    let mut s: StepSession<u8> = StepSession::new(make_rng(Some(1)).unwrap());
    assert!(s.start_exploration().is_some());
    s.finish_exploration(vec![]);
    assert!(s.start_compression().is_none());
    assert_eq!(s.current_phase(), Phase::Exploration);
}

#[test]
fn emit_json_flag() {
    let mut s: StepSession<u8> = StepSession::new(make_rng(None).unwrap());
    assert!(!s.emit_json());
    s.set_emit_json(1);
    assert!(s.emit_json());
    s.set_emit_json(0);
    assert!(!s.emit_json());
}

#[test]
fn seeded_runs_repeat() {
    assert_eq!(make_rng(Some(42)), Some(Xoshiro256PlusPlus::seed_from_u64(42)));
    assert_ne!(make_rng(Some(42)), make_rng(Some(43)));
    let mut a = make_rng(Some(7)).unwrap();
    let mut b = make_rng(Some(7)).unwrap();
    let ca = next_rng(&mut a);
    let cb = next_rng(&mut b);
    assert_eq!(ca, cb);
    assert_eq!(a, b);
    assert_ne!(a, make_rng(Some(7)).unwrap());
    assert_ne!(ca, make_rng(Some(7)).unwrap());
    let mut c = Xoshiro256PlusPlus::seed_from_u64(7);
    let w = c.next_u64();
    assert_eq!(ca, Xoshiro256PlusPlus::seed_from_u64(w));
    assert_eq!(a, c);
}

#[test]
fn session_phases_use_fresh_generators() {
    let mut s1: StepSession<u8> = StepSession::new(make_rng(Some(3)).unwrap());
    let mut s2: StepSession<u8> = StepSession::new(make_rng(Some(3)).unwrap());
    let g1 = s1.start_exploration().unwrap();
    let g2 = s2.start_exploration().unwrap();
    assert_eq!(g1, g2);
    s1.finish_exploration(vec![1]);
    let c1 = s1.start_compression().unwrap();
    assert_ne!(c1, g1);
}

#[test]
fn unseeded_runs_get_a_generator() {
    assert!(make_rng(None).is_some());
}

#[test]
fn phase_generator_is_drawn_from_the_session() {
    let mut s: StepSession<u8> = StepSession::new(make_rng(Some(11)).unwrap());
    let mut reference = Xoshiro256PlusPlus::seed_from_u64(11);
    let expected = Xoshiro256PlusPlus::seed_from_u64(reference.next_u64());
    assert_eq!(s.start_exploration(), Some(expected));
}
