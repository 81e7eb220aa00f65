//! The NES-style pad: a d-pad, two primary buttons, start and select.

use vstd::prelude::*;
use crate::input::{InputCombine, InputConvert, InputDevice, InputDeviceType, InputDeviceView};

verus! {

/// State of a NES-style controller: eight independent buttons.
#[derive(Debug, Clone, Copy, PartialEq, Eq, Structural)]
pub struct Nes {
    pub a: bool,
    pub b: bool,
    pub up: bool,
    pub down: bool,
    pub left: bool,
    pub right: bool,
    pub start: bool,
    pub select: bool,
}

impl View for Nes {
    type V = Nes;

    open spec fn view(&self) -> Nes {
        *self
    }
}

impl Default for Nes {
    /// A pad with every button released.
    fn default() -> (r: Nes)
        ensures
            r == Nes::released(),
    {
        Nes {
            a: false,
            b: false,
            up: false,
            down: false,
            left: false,
            right: false,
            start: false,
            select: false,
        }
    }
}

impl Nes {
    /// Is the a button down
    pub fn a(&self) -> (down: bool)
        ensures
            down == self.a,
    {
        self.a
    }

    /// Is the b button down
    pub fn b(&self) -> (down: bool)
        ensures
            down == self.b,
    {
        self.b
    }

    /// Is the up button down
    pub fn up(&self) -> (down: bool)
        ensures
            down == self.up,
    {
        self.up
    }

    /// Is the down button down
    pub fn down(&self) -> (down: bool)
        ensures
            down == self.down,
    {
        self.down
    }

    /// Is the left button down
    pub fn left(&self) -> (down: bool)
        ensures
            down == self.left,
    {
        self.left
    }

    /// Is the right button down
    pub fn right(&self) -> (down: bool)
        ensures
            down == self.right,
    {
        self.right
    }

    /// Is the start button down
    pub fn start(&self) -> (down: bool)
        ensures
            down == self.start,
    {
        self.start
    }

    /// Is the select button down
    pub fn select(&self) -> (down: bool)
        ensures
            down == self.select,
    {
        self.select
    }

    /// Sets the state of the a button
    pub fn set_a(&mut self, value: bool)
        ensures
            *final(self) == (Nes { a: value, ..*old(self) }),
    {
        self.a = value;
    }

    /// Sets the state of the b button
    pub fn set_b(&mut self, value: bool)
        ensures
            *final(self) == (Nes { b: value, ..*old(self) }),
    {
        self.b = value;
    }

    /// Sets the state of the up button
    pub fn set_up(&mut self, value: bool)
        ensures
            *final(self) == (Nes { up: value, ..*old(self) }),
    {
        self.up = value;
    }

    /// Sets the state of the down button
    pub fn set_down(&mut self, value: bool)
        ensures
            *final(self) == (Nes { down: value, ..*old(self) }),
    {
        self.down = value;
    }

    /// Sets the state of the left button
    pub fn set_left(&mut self, value: bool)
        ensures
            *final(self) == (Nes { left: value, ..*old(self) }),
    {
        self.left = value;
    }

    /// Sets the state of the right button
    pub fn set_right(&mut self, value: bool)
        ensures
            *final(self) == (Nes { right: value, ..*old(self) }),
    {
        self.right = value;
    }

    /// Sets the state of the start button
    pub fn set_start(&mut self, value: bool)
        ensures
            *final(self) == (Nes { start: value, ..*old(self) }),
    {
        self.start = value;
    }

    /// Sets the state of the select button
    pub fn set_select(&mut self, value: bool)
        ensures
            *final(self) == (Nes { select: value, ..*old(self) }),
    {
        self.select = value;
    }

    /// The pad with every button released.
    pub open spec fn released() -> Nes {
        Nes {
            a: false,
            b: false,
            up: false,
            down: false,
            left: false,
            right: false,
            start: false,
            select: false,
        }
    }

    /// Button by button, pressed when pressed on either pad.
    pub open spec fn merged(x: Nes, y: Nes) -> Nes {
        Nes {
            a: x.a || y.a,
            b: x.b || y.b,
            up: x.up || y.up,
            down: x.down || y.down,
            left: x.left || y.left,
            right: x.right || y.right,
            start: x.start || y.start,
            select: x.select || y.select,
        }
    }
}

/// Merging two NES pads does not depend on their order.
pub proof fn law_nes_merge_commutes(x: Nes, y: Nes)
    ensures
        Nes::merged(x, y) == Nes::merged(y, x),
{
}

/// Merging three NES pads does not depend on the grouping.
pub proof fn law_nes_merge_associates(x: Nes, y: Nes, z: Nes)
    ensures
        Nes::merged(Nes::merged(x, y), z) == Nes::merged(x, Nes::merged(y, z)),
{
}

/// A NES pad merged with itself is unchanged.
pub proof fn law_nes_merge_idempotent(x: Nes)
    ensures
        Nes::merged(x, x) == x,
{
}

impl InputConvert for Nes {
    open spec fn affinity_of(state: Nes, device_type: InputDeviceType) -> Option<i32> {
        InputDeviceView::Nes(state).affinity(device_type)
    }

    open spec fn conversion_of(state: Nes, device_type: InputDeviceType) -> Option<
        InputDeviceView,
    > {
        InputDeviceView::Nes(state).convert(device_type)
    }

    fn affinity(&self, device_type: InputDeviceType) -> (score: Option<i32>) {
        match device_type {
            InputDeviceType::Nes => Some(0),
            _ => None,
        }
    }

    fn convert(&self, device_type: InputDeviceType) -> (converted: Option<InputDevice>) {
        match device_type {
            InputDeviceType::Nes => Some(InputDevice::Nes(*self)),
            _ => None,
        }
    }
}

impl InputCombine for Nes {
    open spec fn combination_of(state: Nes, with: Nes) -> Nes {
        Nes::merged(state, with)
    }

    fn combine(&self, with: &Nes) -> (combined: Nes) {
        Nes {
            a: self.a || with.a,
            b: self.b || with.b,
            up: self.up || with.up,
            down: self.down || with.down,
            left: self.left || with.left,
            right: self.right || with.right,
            start: self.start || with.start,
            select: self.select || with.select,
        }
    }
}

} // verus!
