use turret_link::operator::{Direction, Packet};
use turret_link::turret;

fn operator_packets() -> Vec<Packet> {
    vec![
        Packet::Shoot,
        Packet::NoOp,
        Packet::Move(Direction::Up),
        Packet::Move(Direction::Down),
        Packet::Move(Direction::Left),
        Packet::Move(Direction::Right),
        Packet::Move(Direction::UpLeft),
        Packet::Move(Direction::UpRight),
        Packet::Move(Direction::DownLeft),
        Packet::Move(Direction::DownRight),
    ]
}

#[test]
fn operator_round_trip() {
    for p in operator_packets() {
        assert_eq!(Packet::from_u8(p.to_u8()), Some(p));
    }
}

#[test]
fn operator_bytes_are_distinct() {
    let bytes: Vec<u8> = operator_packets().iter().map(|p| p.to_u8()).collect();
    for i in 0..bytes.len() {
        for j in 0..bytes.len() {
            if i != j {
                assert_ne!(bytes[i], bytes[j]);
            }
        }
    }
}

#[test]
fn turret_round_trip() {
    let all = [
        turret::Packet::Shoot,
        turret::Packet::NoOp,
        turret::Packet::Move(turret::Direction::Left),
        turret::Packet::Move(turret::Direction::Right),
    ];
    for p in all {
        assert_eq!(turret::Packet::from_u8(p.to_u8()), Some(p));
    }
}

#[test]
fn shared_table_values() {
    assert_eq!(Packet::Shoot.to_u8(), b's');
    assert_eq!(Packet::NoOp.to_u8(), b'n');
    assert_eq!(Packet::Move(Direction::Left).to_u8(), b'l');
    assert_eq!(Packet::Move(Direction::Right).to_u8(), b'r');
    assert_eq!(turret::Packet::Shoot.to_u8(), b's');
    assert_eq!(turret::Packet::Move(turret::Direction::Right).to_u8(), b'r');
}

#[test]
fn unrecognised_bytes() {
    assert_eq!(Packet::from_u8(0), None);
    assert_eq!(Packet::from_u8(255), None);
    assert_eq!(turret::Packet::from_u8(0), None);
    assert_eq!(turret::Packet::from_u8(Packet::Move(Direction::UpLeft).to_u8()), None);
}

#[test]
fn turret_reads_operator_bytes() {
    assert_eq!(turret::Packet::from_u8(Packet::Shoot.to_u8()), Some(turret::Packet::Shoot));
    assert_eq!(turret::Packet::from_u8(Packet::NoOp.to_u8()), Some(turret::Packet::NoOp));
    assert_eq!(
        turret::Packet::from_u8(Packet::Move(Direction::Left).to_u8()),
        Some(turret::Packet::Move(turret::Direction::Left))
    );
    assert_eq!(
        turret::Packet::from_u8(Packet::Move(Direction::Right).to_u8()),
        Some(turret::Packet::Move(turret::Direction::Right))
    );
}

#[test]
fn trigger_takes_priority() {
    assert_eq!(Packet::from_input(true, Some((100, 100))), Packet::Shoot);
    assert_eq!(Packet::from_input(true, None), Packet::Shoot);
}

#[test]
fn failed_sample_gives_no_op() {
    assert_eq!(Packet::from_input(false, None), Packet::NoOp);
    assert_eq!(Packet::from_input(false, Some((1300, 1300))), Packet::NoOp);
    assert_eq!(Packet::from_input(false, Some((3000, 3000))), Packet::Move(Direction::UpRight));
}
