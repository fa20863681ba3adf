use halfstep::direction::{sample_direction, Direction};

#[test]
fn up_alone_selects_up() {
    assert_eq!(sample_direction(true, false), Direction::Up);
}

#[test]
fn down_alone_selects_down() {
    assert_eq!(sample_direction(false, true), Direction::Down);
}

#[test]
fn neither_asserted_selects_no_direction() {
    assert_eq!(sample_direction(false, false), Direction::NoDirection);
}

#[test]
fn down_wins_when_both_are_asserted() {
    assert_eq!(sample_direction(true, true), Direction::Down);
}

#[test]
fn sampling_keeps_nothing_from_one_call_to_the_next() {
    assert_eq!(sample_direction(true, false), Direction::Up);
    assert_eq!(sample_direction(false, false), Direction::NoDirection);
    assert_eq!(sample_direction(false, true), Direction::Down);
    assert_eq!(sample_direction(false, false), Direction::NoDirection);
}
