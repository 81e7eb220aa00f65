//! The standard controller: face buttons, d-pad, shoulders, two clickable
//! sticks and two triggers.

use vstd::prelude::*;
use crate::input::nes::Nes;
use crate::input::{InputCombine, InputConvert, InputDevice, InputDeviceType, InputDeviceView};

verus! {

/// An axis at rest.
pub const AXIS_CENTER: i16 = 0;

/// The largest axis value: a stick fully right or down, a trigger fully
/// pressed. It stands for +1.
pub const AXIS_MAX: i16 = 32767;

/// The smallest axis value: a stick fully left or up. It stands for -1.
pub const AXIS_MIN: i16 = -32768;

/// Half deflection. A stick at or beyond it to the right or down, or beyond
/// its negative to the left or up, counts as a press of the d-pad in that
/// direction.
pub const STICK_THRESHOLD: i16 = 16384;

/// The larger of two axis values.
pub open spec fn axis_max(x: i16, y: i16) -> i16 {
    if x >= y {
        x
    } else {
        y
    }
}

/// The larger of two axis values.
pub fn larger_axis(x: i16, y: i16) -> (m: i16)
    ensures
        m == axis_max(x, y),
{
    if x >= y {
        x
    } else {
        y
    }
}

/// State of a standard controller. The buttons are independent booleans. An
/// axis holds its position as a signed 16-bit number, the way game
/// controllers report it: 0 is rest, `AXIS_MIN` is -1 (a stick fully left or
/// up), `AXIS_MAX` is +1 (a stick fully right or down, a trigger fully
/// pressed). Sticks range over -1 to +1 and triggers over 0 to +1.
#[derive(Debug, Clone, Copy, PartialEq, Eq, Structural)]
pub struct Controller {
    pub a: bool,
    pub b: bool,
    pub x: bool,
    pub y: bool,
    pub up: bool,
    pub down: bool,
    pub left: bool,
    pub right: bool,
    pub start: bool,
    pub select: bool,
    pub guide: bool,
    pub left_shoulder: bool,
    pub right_shoulder: bool,
    pub left_stick: bool,
    pub right_stick: bool,
    pub left_stick_x: i16,
    pub left_stick_y: i16,
    pub right_stick_x: i16,
    pub right_stick_y: i16,
    pub left_trigger: i16,
    pub right_trigger: i16,
}

/// Structure for initializing a controller.
#[derive(Debug, Clone, Copy, PartialEq, Eq, Structural)]
pub struct ControllerInit {
    pub a: bool,
    pub b: bool,
    pub x: bool,
    pub y: bool,
    pub up: bool,
    pub down: bool,
    pub left: bool,
    pub right: bool,
    pub start: bool,
    pub select: bool,
    pub guide: bool,
    pub left_shoulder: bool,
    pub right_shoulder: bool,
    pub left_stick: bool,
    pub right_stick: bool,
    pub left_stick_x: i16,
    pub left_stick_y: i16,
    pub right_stick_x: i16,
    pub right_stick_y: i16,
    pub left_trigger: i16,
    pub right_trigger: i16,
}

impl View for Controller {
    type V = Controller;

    open spec fn view(&self) -> Controller {
        *self
    }
}

impl ControllerInit {
    /// Every button released and every axis at rest.
    pub open spec fn released() -> ControllerInit {
        ControllerInit {
            a: false,
            b: false,
            x: false,
            y: false,
            up: false,
            down: false,
            left: false,
            right: false,
            start: false,
            select: false,
            guide: false,
            left_shoulder: false,
            right_shoulder: false,
            left_stick: false,
            right_stick: false,
            left_stick_x: 0,
            left_stick_y: 0,
            right_stick_x: 0,
            right_stick_y: 0,
            left_trigger: 0,
            right_trigger: 0,
        }
    }
}

impl Default for ControllerInit {
    /// Every button released and every axis at rest.
    fn default() -> (init: ControllerInit)
        ensures
            init == ControllerInit::released(),
    {
        ControllerInit {
            a: false,
            b: false,
            x: false,
            y: false,
            up: false,
            down: false,
            left: false,
            right: false,
            start: false,
            select: false,
            guide: false,
            left_shoulder: false,
            right_shoulder: false,
            left_stick: false,
            right_stick: false,
            left_stick_x: AXIS_CENTER,
            left_stick_y: AXIS_CENTER,
            right_stick_x: AXIS_CENTER,
            right_stick_y: AXIS_CENTER,
            left_trigger: AXIS_CENTER,
            right_trigger: AXIS_CENTER,
        }
    }
}

impl Default for Controller {
    /// A controller with every button released and every axis at rest.
    fn default() -> (controller: Controller)
        ensures
            controller == Controller::of_init(ControllerInit::released()),
    {
        Controller::new(ControllerInit::default())
    }
}

impl Controller {
    /// The controller whose state is that of `init`, field by field.
    pub open spec fn of_init(init: ControllerInit) -> Controller {
        Controller {
            a: init.a,
            b: init.b,
            x: init.x,
            y: init.y,
            up: init.up,
            down: init.down,
            left: init.left,
            right: init.right,
            start: init.start,
            select: init.select,
            guide: init.guide,
            left_shoulder: init.left_shoulder,
            right_shoulder: init.right_shoulder,
            left_stick: init.left_stick,
            right_stick: init.right_stick,
            left_stick_x: init.left_stick_x,
            left_stick_y: init.left_stick_y,
            right_stick_x: init.right_stick_x,
            right_stick_y: init.right_stick_y,
            left_trigger: init.left_trigger,
            right_trigger: init.right_trigger,
        }
    }

    /// Field by field: a button is pressed when pressed on either
    /// controller, an axis takes the larger of the two positions.
    pub open spec fn merged(p: Controller, q: Controller) -> Controller {
        Controller {
            a: p.a || q.a,
            b: p.b || q.b,
            x: p.x || q.x,
            y: p.y || q.y,
            up: p.up || q.up,
            down: p.down || q.down,
            left: p.left || q.left,
            right: p.right || q.right,
            start: p.start || q.start,
            select: p.select || q.select,
            guide: p.guide || q.guide,
            left_shoulder: p.left_shoulder || q.left_shoulder,
            right_shoulder: p.right_shoulder || q.right_shoulder,
            left_stick: p.left_stick || q.left_stick,
            right_stick: p.right_stick || q.right_stick,
            left_stick_x: axis_max(p.left_stick_x, q.left_stick_x),
            left_stick_y: axis_max(p.left_stick_y, q.left_stick_y),
            right_stick_x: axis_max(p.right_stick_x, q.right_stick_x),
            right_stick_y: axis_max(p.right_stick_y, q.right_stick_y),
            left_trigger: axis_max(p.left_trigger, q.left_trigger),
            right_trigger: axis_max(p.right_trigger, q.right_trigger),
        }
    }

    /// The NES pad that the controller stands for. The primary buttons, start
    /// and select carry over. A direction is pressed when the d-pad presses it
    /// or the left stick is deflected that way: below minus one half for left
    /// and up, at one half or more for right and down.
    pub open spec fn as_nes(self) -> Nes {
        Nes {
            a: self.a,
            b: self.b,
            up: self.up || self.left_stick_y < -STICK_THRESHOLD,
            down: self.down || self.left_stick_y >= STICK_THRESHOLD,
            left: self.left || self.left_stick_x < -STICK_THRESHOLD,
            right: self.right || self.left_stick_x >= STICK_THRESHOLD,
            start: self.start,
            select: self.select,
        }
    }

    /// Create a controller in the state that `init` describes.
    pub fn new(init: ControllerInit) -> (controller: Controller)
        ensures
            controller == Controller::of_init(init),
    {
        Controller {
            a: init.a,
            b: init.b,
            x: init.x,
            y: init.y,
            up: init.up,
            down: init.down,
            left: init.left,
            right: init.right,
            start: init.start,
            select: init.select,
            guide: init.guide,
            left_shoulder: init.left_shoulder,
            right_shoulder: init.right_shoulder,
            left_stick: init.left_stick,
            right_stick: init.right_stick,
            left_stick_x: init.left_stick_x,
            left_stick_y: init.left_stick_y,
            right_stick_x: init.right_stick_x,
            right_stick_y: init.right_stick_y,
            left_trigger: init.left_trigger,
            right_trigger: init.right_trigger,
        }
    }

    /// Is the a button down
    pub fn a(&self) -> (down: bool)
        ensures
            down == self.a,
    {
        self.a
    }

    /// Is the b button down
    pub fn b(&self) -> (down: bool)
        ensures
            down == self.b,
    {
        self.b
    }

    /// Is the x button down
    pub fn x(&self) -> (down: bool)
        ensures
            down == self.x,
    {
        self.x
    }

    /// Is the y button down
    pub fn y(&self) -> (down: bool)
        ensures
            down == self.y,
    {
        self.y
    }

    /// Is the up button down
    pub fn up(&self) -> (down: bool)
        ensures
            down == self.up,
    {
        self.up
    }

    /// Is the down button down
    pub fn down(&self) -> (down: bool)
        ensures
            down == self.down,
    {
        self.down
    }

    /// Is the left button down
    pub fn left(&self) -> (down: bool)
        ensures
            down == self.left,
    {
        self.left
    }

    /// Is the right button down
    pub fn right(&self) -> (down: bool)
        ensures
            down == self.right,
    {
        self.right
    }

    /// Is the start button down
    pub fn start(&self) -> (down: bool)
        ensures
            down == self.start,
    {
        self.start
    }

    /// Is the select button down
    pub fn select(&self) -> (down: bool)
        ensures
            down == self.select,
    {
        self.select
    }

    /// Is the guide button down
    pub fn guide(&self) -> (down: bool)
        ensures
            down == self.guide,
    {
        self.guide
    }

    /// Is the left shoulder button down
    pub fn left_shoulder(&self) -> (down: bool)
        ensures
            down == self.left_shoulder,
    {
        self.left_shoulder
    }

    /// Is the right shoulder button down
    pub fn right_shoulder(&self) -> (down: bool)
        ensures
            down == self.right_shoulder,
    {
        self.right_shoulder
    }

    /// Is the left stick button down
    pub fn left_stick(&self) -> (down: bool)
        ensures
            down == self.left_stick,
    {
        self.left_stick
    }

    /// Is the right stick button down
    pub fn right_stick(&self) -> (down: bool)
        ensures
            down == self.right_stick,
    {
        self.right_stick
    }

    /// Left stick position x, from -32768 (left) to 32767 (right)
    pub fn left_stick_x(&self) -> (position: i16)
        ensures
            position == self.left_stick_x,
    {
        self.left_stick_x
    }

    /// Left stick position y, from -32768 (up) to 32767 (down)
    pub fn left_stick_y(&self) -> (position: i16)
        ensures
            position == self.left_stick_y,
    {
        self.left_stick_y
    }

    /// Right stick position x, from -32768 (left) to 32767 (right)
    pub fn right_stick_x(&self) -> (position: i16)
        ensures
            position == self.right_stick_x,
    {
        self.right_stick_x
    }

    /// Right stick position y, from -32768 (up) to 32767 (down)
    pub fn right_stick_y(&self) -> (position: i16)
        ensures
            position == self.right_stick_y,
    {
        self.right_stick_y
    }

    /// Left trigger position, from 0 (released) to 32767 (fully down)
    pub fn left_trigger(&self) -> (position: i16)
        ensures
            position == self.left_trigger,
    {
        self.left_trigger
    }

    /// Right trigger position, from 0 (released) to 32767 (fully down)
    pub fn right_trigger(&self) -> (position: i16)
        ensures
            position == self.right_trigger,
    {
        self.right_trigger
    }

    /// Sets the state of the a button
    pub fn set_a(&mut self, value: bool)
        ensures
            *final(self) == (Controller { a: value, ..*old(self) }),
    {
        self.a = value;
    }

    /// Sets the state of the b button
    pub fn set_b(&mut self, value: bool)
        ensures
            *final(self) == (Controller { b: value, ..*old(self) }),
    {
        self.b = value;
    }

    /// Sets the state of the x button
    pub fn set_x(&mut self, value: bool)
        ensures
            *final(self) == (Controller { x: value, ..*old(self) }),
    {
        self.x = value;
    }

    /// Sets the state of the y button
    pub fn set_y(&mut self, value: bool)
        ensures
            *final(self) == (Controller { y: value, ..*old(self) }),
    {
        self.y = value;
    }

    /// Sets the state of the up button
    pub fn set_up(&mut self, value: bool)
        ensures
            *final(self) == (Controller { up: value, ..*old(self) }),
    {
        self.up = value;
    }

    /// Sets the state of the down button
    pub fn set_down(&mut self, value: bool)
        ensures
            *final(self) == (Controller { down: value, ..*old(self) }),
    {
        self.down = value;
    }

    /// Sets the state of the left button
    pub fn set_left(&mut self, value: bool)
        ensures
            *final(self) == (Controller { left: value, ..*old(self) }),
    {
        self.left = value;
    }

    /// Sets the state of the right button
    pub fn set_right(&mut self, value: bool)
        ensures
            *final(self) == (Controller { right: value, ..*old(self) }),
    {
        self.right = value;
    }

    /// Sets the state of the start button
    pub fn set_start(&mut self, value: bool)
        ensures
            *final(self) == (Controller { start: value, ..*old(self) }),
    {
        self.start = value;
    }

    /// Sets the state of the select button
    pub fn set_select(&mut self, value: bool)
        ensures
            *final(self) == (Controller { select: value, ..*old(self) }),
    {
        self.select = value;
    }

    /// Sets the state of the guide button
    pub fn set_guide(&mut self, value: bool)
        ensures
            *final(self) == (Controller { guide: value, ..*old(self) }),
    {
        self.guide = value;
    }

    /// Sets the state of the left shoulder button
    pub fn set_left_shoulder(&mut self, value: bool)
        ensures
            *final(self) == (Controller { left_shoulder: value, ..*old(self) }),
    {
        self.left_shoulder = value;
    }

    /// Sets the state of the right shoulder button
    pub fn set_right_shoulder(&mut self, value: bool)
        ensures
            *final(self) == (Controller { right_shoulder: value, ..*old(self) }),
    {
        self.right_shoulder = value;
    }

    /// Sets the state of the left stick button
    pub fn set_left_stick(&mut self, value: bool)
        ensures
            *final(self) == (Controller { left_stick: value, ..*old(self) }),
    {
        self.left_stick = value;
    }

    /// Sets the state of the right stick button
    pub fn set_right_stick(&mut self, value: bool)
        ensures
            *final(self) == (Controller { right_stick: value, ..*old(self) }),
    {
        self.right_stick = value;
    }

    /// Sets the state of the left stick x axis
    pub fn set_left_stick_x(&mut self, value: i16)
        ensures
            *final(self) == (Controller { left_stick_x: value, ..*old(self) }),
    {
        self.left_stick_x = value;
    }

    /// Sets the state of the left stick y axis
    pub fn set_left_stick_y(&mut self, value: i16)
        ensures
            *final(self) == (Controller { left_stick_y: value, ..*old(self) }),
    {
        self.left_stick_y = value;
    }

    /// Sets the state of the right stick x axis
    pub fn set_right_stick_x(&mut self, value: i16)
        ensures
            *final(self) == (Controller { right_stick_x: value, ..*old(self) }),
    {
        self.right_stick_x = value;
    }

    /// Sets the state of the right stick y axis
    pub fn set_right_stick_y(&mut self, value: i16)
        ensures
            *final(self) == (Controller { right_stick_y: value, ..*old(self) }),
    {
        self.right_stick_y = value;
    }

    /// Sets the state of the left trigger
    pub fn set_left_trigger(&mut self, value: i16)
        ensures
            *final(self) == (Controller { left_trigger: value, ..*old(self) }),
    {
        self.left_trigger = value;
    }

    /// Sets the state of the right trigger
    pub fn set_right_trigger(&mut self, value: i16)
        ensures
            *final(self) == (Controller { right_trigger: value, ..*old(self) }),
    {
        self.right_trigger = value;
    }

    /// The NES pad that this controller stands for.
    pub fn to_nes(&self) -> (nes: Nes)
        ensures
            nes == self.as_nes(),
    {
        Nes {
            a: self.a,
            b: self.b,
            up: self.up || self.left_stick_y < -STICK_THRESHOLD,
            down: self.down || self.left_stick_y >= STICK_THRESHOLD,
            left: self.left || self.left_stick_x < -STICK_THRESHOLD,
            right: self.right || self.left_stick_x >= STICK_THRESHOLD,
            start: self.start,
            select: self.select,
        }
    }
}

/// The larger of axis values depends neither on their order nor on their
/// grouping, and the larger of a value and itself is the value.
pub proof fn law_axis_max(x: i16, y: i16, z: i16)
    ensures
        axis_max(x, y) == axis_max(y, x),
        axis_max(axis_max(x, y), z) == axis_max(x, axis_max(y, z)),
        axis_max(x, x) == x,
        axis_max(x, y) >= x && axis_max(x, y) >= y,
        axis_max(x, y) == x || axis_max(x, y) == y,
{
}

/// Merging two controllers does not depend on their order.
#[verifier::rlimit(40)]
pub proof fn law_controller_merge_commutes(p: Controller, q: Controller)
    ensures
        Controller::merged(p, q) == Controller::merged(q, p),
{
}

/// Merging three controllers does not depend on the grouping.
#[verifier::rlimit(40)]
pub proof fn law_controller_merge_associates(p: Controller, q: Controller, r: Controller)
    ensures
        Controller::merged(Controller::merged(p, q), r) == Controller::merged(
            p,
            Controller::merged(q, r),
        ),
{
}

/// A controller merged with itself is unchanged.
#[verifier::rlimit(40)]
pub proof fn law_controller_merge_idempotent(p: Controller)
    ensures
        Controller::merged(p, p) == p,
{
}

impl InputConvert for Controller {
    open spec fn affinity_of(state: Controller, device_type: InputDeviceType) -> Option<i32> {
        InputDeviceView::Controller(state).affinity(device_type)
    }

    open spec fn conversion_of(state: Controller, device_type: InputDeviceType) -> Option<
        InputDeviceView,
    > {
        InputDeviceView::Controller(state).convert(device_type)
    }

    fn affinity(&self, device_type: InputDeviceType) -> (score: Option<i32>) {
        match device_type {
            InputDeviceType::Nes => Some(1),
            InputDeviceType::Controller => Some(0),
            _ => None,
        }
    }

    fn convert(&self, device_type: InputDeviceType) -> (converted: Option<InputDevice>) {
        match device_type {
            InputDeviceType::Nes => Some(InputDevice::Nes(self.to_nes())),
            InputDeviceType::Controller => Some(InputDevice::Controller(*self)),
            _ => None,
        }
    }
}

impl InputCombine for Controller {
    open spec fn combination_of(state: Controller, with: Controller) -> Controller {
        Controller::merged(state, with)
    }

    fn combine(&self, with: &Controller) -> (combined: Controller) {
        Controller {
            a: self.a || with.a,
            b: self.b || with.b,
            x: self.x || with.x,
            y: self.y || with.y,
            up: self.up || with.up,
            down: self.down || with.down,
            left: self.left || with.left,
            right: self.right || with.right,
            start: self.start || with.start,
            select: self.select || with.select,
            guide: self.guide || with.guide,
            left_shoulder: self.left_shoulder || with.left_shoulder,
            right_shoulder: self.right_shoulder || with.right_shoulder,
            left_stick: self.left_stick || with.left_stick,
            right_stick: self.right_stick || with.right_stick,
            left_stick_x: larger_axis(self.left_stick_x, with.left_stick_x),
            left_stick_y: larger_axis(self.left_stick_y, with.left_stick_y),
            right_stick_x: larger_axis(self.right_stick_x, with.right_stick_x),
            right_stick_y: larger_axis(self.right_stick_y, with.right_stick_y),
            left_trigger: larger_axis(self.left_trigger, with.left_trigger),
            right_trigger: larger_axis(self.right_trigger, with.right_trigger),
        }
    }
}

} // verus!
