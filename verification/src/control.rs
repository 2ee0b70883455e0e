//! The live input that steers the controllable body.

use vstd::prelude::*;

verus! {

/// Which of the four directions are held down at the moment.
#[derive(Debug, Clone, Copy, PartialEq, Eq, Structural)]
pub struct ControllableAcceleration {
    pub right: bool,
    pub left: bool,
    pub up: bool,
    pub down: bool,
}

/// An input event: a direction by name, pressed or released.
#[derive(Debug, Clone)]
pub struct ButtonPress {
    pub direction: String,
    pub is_pressed: bool,
}

/// An input event as a mathematical value.
pub struct ButtonPressView {
    pub direction: Seq<char>,
    pub is_pressed: bool,
}

impl View for ButtonPress {
    type V = ButtonPressView;

    open spec fn view(&self) -> ButtonPressView {
        ButtonPressView { direction: self.direction@, is_pressed: self.is_pressed }
    }
}

impl ButtonPressView {
    /// The input event that a message carries: its event has to be named
    /// `button_press`, and the direction and the flag have to be there.
    pub open spec fn carried(
        event: Option<Seq<char>>,
        direction: Option<Seq<char>>,
        is_pressed: Option<bool>,
    ) -> Option<ButtonPressView> {
        if event == Some("button_press"@) && direction is Some && is_pressed is Some {
            Some(ButtonPressView { direction: direction->Some_0, is_pressed: is_pressed->Some_0 })
        } else {
            None
        }
    }
}

/// The name of a message's event, as a mathematical value.
pub open spec fn event_name(event: Option<&str>) -> Option<Seq<char>> {
    match event {
        Some(name) => Some(name@),
        None => None,
    }
}

/// The direction of a message, as a mathematical value.
pub open spec fn direction_name(direction: Option<String>) -> Option<Seq<char>> {
    match direction {
        Some(name) => Some(name@),
        None => None,
    }
}

impl ButtonPress {
    /// Reads the input event out of the fields of a message. `None` stands
    /// for a field that the message lacks or that has the wrong shape. A
    /// message of another event, or with a field missing, carries no input
    /// event.
    pub fn read(event: Option<&str>, direction: Option<String>, is_pressed: Option<bool>) -> (r:
        Option<ButtonPress>)
        ensures
            match ButtonPressView::carried(event_name(event), direction_name(direction), is_pressed) {
                Some(press) => r is Some && r->Some_0@ == press,
                None => r is None,
            },
    {
        match (event, direction, is_pressed) {
            (Some(name), Some(direction), Some(is_pressed)) => {
                if name.to_owned() == "button_press".to_owned() {
                    Some(ButtonPress { direction, is_pressed })
                } else {
                    None
                }
            },
            _ => None,
        }
    }
}

/// One if the flag is set, zero if not.
pub open spec fn weight(flag: bool) -> int {
    if flag {
        1
    } else {
        0
    }
}

impl ControllableAcceleration {
    /// The state in which no direction is held down.
    pub open spec fn released() -> ControllableAcceleration {
        ControllableAcceleration { right: false, left: false, up: false, down: false }
    }

    /// The state after an input event: the named direction is set to
    /// `is_pressed`; a name that is none of the four changes nothing.
    pub open spec fn pressed(self, direction: Seq<char>, is_pressed: bool) -> ControllableAcceleration {
        if direction == "up"@ {
            ControllableAcceleration { up: is_pressed, ..self }
        } else if direction == "down"@ {
            ControllableAcceleration { down: is_pressed, ..self }
        } else if direction == "left"@ {
            ControllableAcceleration { left: is_pressed, ..self }
        } else if direction == "right"@ {
            ControllableAcceleration { right: is_pressed, ..self }
        } else {
            self
        }
    }

    /// The net direction: right minus left, up minus down. It is not
    /// normalised, so a diagonal is longer than an axis.
    pub open spec fn net(self) -> (int, int) {
        (weight(self.right) - weight(self.left), weight(self.up) - weight(self.down))
    }

    /// Applies an input event to the state.
    pub fn press(&mut self, direction: &str, is_pressed: bool)
        ensures
            *final(self) == old(self).pressed(direction@, is_pressed),
    {
        let name = direction.to_owned();
        if name == "up".to_owned() {
            self.up = is_pressed;
        } else if name == "down".to_owned() {
            self.down = is_pressed;
        } else if name == "left".to_owned() {
            self.left = is_pressed;
        } else if name == "right".to_owned() {
            self.right = is_pressed;
        }
    }

    /// The net direction of the input, each coordinate one of -1, 0, 1.
    pub fn direction(&self) -> (d: (i8, i8))
        ensures
            (d.0 as int, d.1 as int) == self.net(),
    {
        let horizontal: i8 = if self.right == self.left {
            0
        } else if self.right {
            1
        } else {
            -1
        };
        let vertical: i8 = if self.up == self.down {
            0
        } else if self.up {
            1
        } else {
            -1
        };
        (horizontal, vertical)
    }
}

impl Default for ControllableAcceleration {
    /// No direction is held down.
    fn default() -> (r: ControllableAcceleration)
        ensures
            r == ControllableAcceleration::released(),
    {
        ControllableAcceleration { right: false, left: false, up: false, down: false }
    }
}

/// An input event whose direction is none of `up`, `down`, `left`, `right`
/// leaves the state as it was.
pub proof fn unknown_direction_changes_nothing(
    state: ControllableAcceleration,
    direction: Seq<char>,
    is_pressed: bool,
)
    requires
        direction != "up"@,
        direction != "down"@,
        direction != "left"@,
        direction != "right"@,
    ensures
        state.pressed(direction, is_pressed) == state,
{
}

} // verus!
