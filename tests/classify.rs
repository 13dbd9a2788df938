use turret_link::axis::{AxisReading, read_axis};
use turret_link::operator::Direction;
use turret_link::turret;

#[test]
fn horizontal_thresholds_are_strict() {
    assert_eq!(read_axis(0), AxisReading::Low);
    assert_eq!(read_axis(249), AxisReading::Low);
    assert_eq!(read_axis(250), AxisReading::Centered);
    assert_eq!(read_axis(2500), AxisReading::Centered);
    assert_eq!(read_axis(2501), AxisReading::High);
    assert_eq!(read_axis(4095), AxisReading::High);
}

#[test]
fn cardinal_directions() {
    assert_eq!(Direction::from_samples(100, 1300), Some(Direction::Left));
    assert_eq!(Direction::from_samples(3000, 1300), Some(Direction::Right));
    assert_eq!(Direction::from_samples(1300, 100), Some(Direction::Down));
    assert_eq!(Direction::from_samples(1300, 3000), Some(Direction::Up));
}

#[test]
fn dead_zone_gives_nothing() {
    assert_eq!(Direction::from_samples(1300, 1300), None);
    assert_eq!(Direction::from_samples(250, 2500), None);
    assert_eq!(Direction::from_samples(2500, 250), None);
}

#[test]
fn diagonals_need_both_axes() {
    assert_eq!(Direction::from_samples(100, 100), Some(Direction::DownLeft));
    assert_eq!(Direction::from_samples(3000, 100), Some(Direction::DownRight));
    assert_eq!(Direction::from_samples(100, 3000), Some(Direction::UpLeft));
    assert_eq!(Direction::from_samples(4095, 4095), Some(Direction::UpRight));
    assert_eq!(Direction::from_samples(249, 250), Some(Direction::Left));
    assert_eq!(Direction::from_samples(2500, 2501), Some(Direction::Up));
}

#[test]
fn turret_classifier_ignores_y() {
    assert_eq!(turret::Direction::from_samples(249, 0), Some(turret::Direction::Left));
    assert_eq!(turret::Direction::from_samples(250, 0), None);
    assert_eq!(turret::Direction::from_samples(2500, 4095), None);
    assert_eq!(turret::Direction::from_samples(2501, 1300), Some(turret::Direction::Right));
}
