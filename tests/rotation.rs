use turret_link::rotation::{CENTER_POS, MAX_POS, MIN_POS, RotationPosition, STEP};
use turret_link::turret::Direction;

#[test]
fn starts_at_centre() {
    assert_eq!(RotationPosition::new().value(), 1875);
    assert_eq!(CENTER_POS, 1875);
}

#[test]
fn try_new_checks_range() {
    assert!(RotationPosition::try_new(624).is_none());
    assert_eq!(RotationPosition::try_new(625).map(|p| p.value()), Some(625));
    assert_eq!(RotationPosition::try_new(3125).map(|p| p.value()), Some(3125));
    assert!(RotationPosition::try_new(3126).is_none());
}

#[test]
fn moves_step_by_125() {
    let mut p = RotationPosition::new();
    assert!(p.apply(Direction::Left));
    assert_eq!(p.value(), 2000);
    assert!(p.apply(Direction::Right));
    assert!(p.apply(Direction::Right));
    assert_eq!(p.value(), 1750);
}

#[test]
fn move_past_floor_is_dropped() {
    let mut p = RotationPosition::try_new(MIN_POS).unwrap();
    assert!(!p.apply(Direction::Right));
    assert_eq!(p.value(), 625);
    let mut q = RotationPosition::try_new(700).unwrap();
    assert!(!q.apply(Direction::Right));
    assert_eq!(q.value(), 700);
}

#[test]
fn move_past_ceiling_is_dropped() {
    let mut p = RotationPosition::try_new(MAX_POS).unwrap();
    assert!(!p.apply(Direction::Left));
    assert_eq!(p.value(), 3125);
    let mut q = RotationPosition::try_new(3100).unwrap();
    assert!(!q.apply(Direction::Left));
    assert_eq!(q.value(), 3100);
}

#[test]
fn long_move_sequence_stays_in_range() {
    let mut p = RotationPosition::new();
    for i in 0..100u32 {
        let d = if (i / 30) % 2 == 0 { Direction::Left } else { Direction::Right };
        p.apply(d);
        assert!(MIN_POS <= p.value() && p.value() <= MAX_POS);
    }
    for _ in 0..40 {
        p.apply(Direction::Right);
    }
    assert_eq!(p.value(), MIN_POS);
    assert_eq!(STEP, 125);
}
