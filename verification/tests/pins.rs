use halfstep::pins::{acquisition_count, resource_at, Button, Resource, Variant};
use halfstep::pins::{BUTTON_DOWN_BCM_PIN, BUTTON_UP_BCM_PIN, MOTOR_BCM_PINS};

#[test]
fn pin_numbers_are_the_fixed_mapping() {
    assert_eq!(MOTOR_BCM_PINS, [4, 17, 27, 22]);
    assert_eq!(BUTTON_UP_BCM_PIN, 23);
    assert_eq!(BUTTON_DOWN_BCM_PIN, 24);
}

#[test]
fn fixed_count_loop_acquires_the_peripheral_and_four_output_lines() {
    assert_eq!(acquisition_count(Variant::FixedCount), 5);
    assert_eq!(resource_at(Variant::FixedCount, 0), Some(Resource::Gpio));
    assert_eq!(
        resource_at(Variant::FixedCount, 1),
        Some(Resource::OutputLine { line: 0, bcm_pin: 4 })
    );
    assert_eq!(
        resource_at(Variant::FixedCount, 2),
        Some(Resource::OutputLine { line: 1, bcm_pin: 17 })
    );
    assert_eq!(
        resource_at(Variant::FixedCount, 3),
        Some(Resource::OutputLine { line: 2, bcm_pin: 27 })
    );
    assert_eq!(
        resource_at(Variant::FixedCount, 4),
        Some(Resource::OutputLine { line: 3, bcm_pin: 22 })
    );
    assert_eq!(resource_at(Variant::FixedCount, 5), None);
    assert_eq!(resource_at(Variant::FixedCount, 6), None);
    assert_eq!(resource_at(Variant::FixedCount, usize::MAX), None);
}

#[test]
fn interactive_loop_also_acquires_up_then_down() {
    assert_eq!(acquisition_count(Variant::Interactive), 7);
    for index in 0..5 {
        assert_eq!(
            resource_at(Variant::Interactive, index),
            resource_at(Variant::FixedCount, index)
        );
    }
    assert_eq!(
        resource_at(Variant::Interactive, 5),
        Some(Resource::InputLine { button: Button::Up, bcm_pin: 23 })
    );
    assert_eq!(
        resource_at(Variant::Interactive, 6),
        Some(Resource::InputLine { button: Button::Down, bcm_pin: 24 })
    );
    assert_eq!(resource_at(Variant::Interactive, 7), None);
    assert_eq!(resource_at(Variant::Interactive, usize::MAX), None);
}
