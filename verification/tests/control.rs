use space_computation::control::ButtonPress;
use space_computation::ControllableAcceleration;

fn held(right: bool, left: bool, up: bool, down: bool) -> ControllableAcceleration {
    ControllableAcceleration { right, left, up, down }
}

#[test]
fn nothing_is_held_by_default() {
    assert_eq!(ControllableAcceleration::default(), held(false, false, false, false));
    assert_eq!(ControllableAcceleration::default().direction(), (0, 0));
}

#[test]
fn each_direction_sets_its_own_flag() {
    let mut input = ControllableAcceleration::default();
    input.press("up", true);
    assert_eq!(input, held(false, false, true, false));
    input.press("down", true);
    assert_eq!(input, held(false, false, true, true));
    input.press("left", true);
    assert_eq!(input, held(false, true, true, true));
    input.press("right", true);
    assert_eq!(input, held(true, true, true, true));
}

#[test]
fn a_release_clears_the_flag() {
    let mut input = held(true, true, true, true);
    input.press("up", false);
    assert_eq!(input, held(true, true, false, true));
    input.press("right", false);
    assert_eq!(input, held(false, true, false, true));
    input.press("left", false);
    input.press("down", false);
    assert_eq!(input, held(false, false, false, false));
}

#[test]
fn an_unknown_direction_changes_nothing() {
    for name in ["", "Up", "UP", "up ", " up", "forward", "upp", "u", "rightt", "lef", "dow"] {
        let mut input = held(true, false, false, true);
        input.press(name, true);
        assert_eq!(input, held(true, false, false, true), "direction {:?}", name);
        input.press(name, false);
        assert_eq!(input, held(true, false, false, true), "direction {:?}", name);
    }
}

#[test]
fn the_net_direction_is_right_minus_left_and_up_minus_down() {
    assert_eq!(held(true, false, false, false).direction(), (1, 0));
    assert_eq!(held(false, true, false, false).direction(), (-1, 0));
    assert_eq!(held(false, false, true, false).direction(), (0, 1));
    assert_eq!(held(false, false, false, true).direction(), (0, -1));
}

#[test]
fn opposite_directions_cancel() {
    assert_eq!(held(true, true, false, false).direction(), (0, 0));
    assert_eq!(held(false, false, true, true).direction(), (0, 0));
    assert_eq!(held(true, true, true, true).direction(), (0, 0));
}

#[test]
fn a_diagonal_is_not_normalised() {
    assert_eq!(held(true, false, true, false).direction(), (1, 1));
    assert_eq!(held(false, true, false, true).direction(), (-1, -1));
    assert_eq!(held(true, false, false, true).direction(), (1, -1));
    assert_eq!(held(false, true, true, false).direction(), (-1, 1));
}

#[test]
fn the_net_direction_of_every_state() {
    for code in 0..16u8 {
        let input = held(code & 1 != 0, code & 2 != 0, code & 4 != 0, code & 8 != 0);
        let expected = (
            (input.right as i8) - (input.left as i8),
            (input.up as i8) - (input.down as i8),
        );
        assert_eq!(input.direction(), expected);
    }
}

fn read(event: Option<&str>, direction: Option<&str>, is_pressed: Option<bool>) -> Option<(String, bool)> {
    ButtonPress::read(event, direction.map(str::to_owned), is_pressed)
        .map(|press| (press.direction, press.is_pressed))
}

#[test]
fn a_button_press_is_read_from_its_message() {
    assert_eq!(
        read(Some("button_press"), Some("up"), Some(true)),
        Some(("up".to_string(), true))
    );
    assert_eq!(
        read(Some("button_press"), Some("left"), Some(false)),
        Some(("left".to_string(), false))
    );
}

#[test]
fn a_button_press_with_an_unknown_direction_is_still_read() {
    assert_eq!(
        read(Some("button_press"), Some("sideways"), Some(true)),
        Some(("sideways".to_string(), true))
    );
    assert_eq!(read(Some("button_press"), Some(""), Some(true)), Some((String::new(), true)));
}

#[test]
fn a_message_of_another_event_carries_no_button_press() {
    for event in ["update_step", "", "Button_press", "button_press ", "button"] {
        assert_eq!(read(Some(event), Some("up"), Some(true)), None);
    }
    assert_eq!(read(None, Some("up"), Some(true)), None);
}

#[test]
fn a_message_that_lacks_a_field_carries_no_button_press() {
    assert_eq!(read(Some("button_press"), None, Some(true)), None);
    assert_eq!(read(Some("button_press"), Some("up"), None), None);
    assert_eq!(read(Some("button_press"), None, None), None);
    assert_eq!(read(None, None, None), None);
}
