//! Device types, devices, and the operations that match, project and merge
//! them.

use vstd::prelude::*;

pub mod assignment;
pub mod collection;
pub mod controller;
pub mod key_names;
pub mod keyboard;
pub mod laws;
pub mod nes;

pub use collection::InputCollection;
pub use controller::{Controller, ControllerInit};
pub use keyboard::{Key, KeyCode, Keyboard};
pub use nes::Nes;

use crate::input::keyboard::nes_of_keys;

verus! {

/// The kinds of input device. A value names both what a player asks for and
/// what a physical device is asked to stand in for.
#[derive(Debug, Clone, Copy, PartialEq, Eq, Structural)]
pub enum InputDeviceType {
    /// Nintendo Entertainment System style controller
    Nes,
    /// A modern controller with two sticks and two triggers
    Controller,
    /// A computer keyboard
    Keyboard,
}

/// The state of a device as a mathematical value: what an [`InputDevice`]
/// holds, with the keyboard given as the map from each scan code that is down
/// to its key code.
pub ghost enum InputDeviceView {
    Nes(Nes),
    Controller(Controller),
    Keyboard(Map<KeyCode, KeyCode>),
}

impl InputDeviceView {
    /// The type of device that this is.
    pub open spec fn device_type(self) -> InputDeviceType {
        match self {
            InputDeviceView::Nes(_) => InputDeviceType::Nes,
            InputDeviceView::Controller(_) => InputDeviceType::Controller,
            InputDeviceView::Keyboard(_) => InputDeviceType::Keyboard,
        }
    }

    /// How well the device stands in for one of type `device_type`. Lower is
    /// better: 0 for its own type, 1 for a controller as a NES pad, 2 for a
    /// keyboard as a NES pad. `None` for every other pair: the device cannot
    /// be used as that type at all.
    pub open spec fn affinity(self, device_type: InputDeviceType) -> Option<i32> {
        match (self, device_type) {
            (InputDeviceView::Nes(_), InputDeviceType::Nes) => Some(0i32),
            (InputDeviceView::Controller(_), InputDeviceType::Controller) => Some(0i32),
            (InputDeviceView::Keyboard(_), InputDeviceType::Keyboard) => Some(0i32),
            (InputDeviceView::Controller(_), InputDeviceType::Nes) => Some(1i32),
            (InputDeviceView::Keyboard(_), InputDeviceType::Nes) => Some(2i32),
            _ => None,
        }
    }

    /// The device projected onto the type `device_type`: itself for its own
    /// type, a NES pad for a controller or a keyboard asked to be one, and
    /// `None` for every other pair.
    pub open spec fn convert(self, device_type: InputDeviceType) -> Option<InputDeviceView> {
        match (self, device_type) {
            (InputDeviceView::Nes(_), InputDeviceType::Nes) => Some(self),
            (InputDeviceView::Controller(_), InputDeviceType::Controller) => Some(self),
            (InputDeviceView::Keyboard(_), InputDeviceType::Keyboard) => Some(self),
            (InputDeviceView::Controller(controller), InputDeviceType::Nes) => Some(
                InputDeviceView::Nes(controller.as_nes()),
            ),
            (InputDeviceView::Keyboard(keys), InputDeviceType::Nes) => Some(
                InputDeviceView::Nes(nes_of_keys(keys)),
            ),
            _ => None,
        }
    }

    /// The device fused with `with`: an input counts when either device
    /// asserts it. `with` is first projected onto this device's type. Two NES
    /// pads or two controllers merge field by field. Two keyboards unite
    /// their keys, and a scan code down on both keeps the key code of `with`.
    /// Where `with` cannot be projected, the device stays as it is.
    pub open spec fn combine(self, with: InputDeviceView) -> InputDeviceView {
        match (self, with.convert(self.device_type())) {
            (InputDeviceView::Nes(x), Some(InputDeviceView::Nes(y))) => InputDeviceView::Nes(
                Nes::merged(x, y),
            ),
            (
                InputDeviceView::Controller(x),
                Some(InputDeviceView::Controller(y)),
            ) => InputDeviceView::Controller(Controller::merged(x, y)),
            (
                InputDeviceView::Keyboard(x),
                Some(InputDeviceView::Keyboard(y)),
            ) => InputDeviceView::Keyboard(x.union_prefer_right(y)),
            _ => self,
        }
    }
}

/// Converting from one input type to another.
pub trait InputConvert: View {
    /// What `affinity` returns for a value whose view is `state`.
    spec fn affinity_of(state: Self::V, device_type: InputDeviceType) -> Option<i32>;

    /// The view of what `convert` returns for a value whose view is `state`.
    spec fn conversion_of(state: Self::V, device_type: InputDeviceType) -> Option<
        InputDeviceView,
    >;

    /// How closely this matches the type of another device: a standard
    /// controller is closer to a NES style controller than a keyboard is.
    /// Lower values are closer fits. `None`: it cannot be converted at all.
    fn affinity(&self, device_type: InputDeviceType) -> (score: Option<i32>)
        ensures
            score == Self::affinity_of(self@, device_type),
    ;

    /// Convert this into a device of another type. `None`: it cannot be
    /// converted.
    fn convert(&self, device_type: InputDeviceType) -> (converted: Option<InputDevice>)
        ensures
            converted.deep_view() == Self::conversion_of(self@, device_type),
    ;
}

/// Combining two inputs together.
pub trait InputCombine: View + Sized {
    /// The view of what `combine` returns for values whose views are `state`
    /// and `with`.
    spec fn combination_of(state: Self::V, with: Self::V) -> Self::V;

    /// Combine this input with another one: what is pressed on either is
    /// pressed in the result.
    fn combine(&self, with: &Self) -> (combined: Self)
        ensures
            combined@ == Self::combination_of(self@, with@),
    ;
}

/// A device of any of the supported types, with its state.
#[derive(Debug)]
pub enum InputDevice {
    Nes(Nes),
    Controller(Controller),
    Keyboard(Keyboard),
}

impl View for InputDevice {
    type V = InputDeviceView;

    open spec fn view(&self) -> InputDeviceView {
        match self {
            InputDevice::Nes(nes) => InputDeviceView::Nes(*nes),
            InputDevice::Controller(controller) => InputDeviceView::Controller(*controller),
            InputDevice::Keyboard(keyboard) => InputDeviceView::Keyboard(keyboard@),
        }
    }
}

impl DeepView for InputDevice {
    type V = InputDeviceView;

    open spec fn deep_view(&self) -> InputDeviceView {
        self@
    }
}

impl Clone for InputDevice {
    fn clone(&self) -> (copy: InputDevice)
        ensures
            copy@ == self@,
    {
        match self {
            InputDevice::Nes(nes) => InputDevice::Nes(*nes),
            InputDevice::Controller(controller) => InputDevice::Controller(*controller),
            InputDevice::Keyboard(keyboard) => InputDevice::Keyboard(keyboard.clone()),
        }
    }
}

impl InputDevice {
    /// The type of device that this is.
    pub fn device_type(&self) -> (device_type: InputDeviceType)
        ensures
            device_type == self@.device_type(),
    {
        match self {
            InputDevice::Nes(_) => InputDeviceType::Nes,
            InputDevice::Controller(_) => InputDeviceType::Controller,
            InputDevice::Keyboard(_) => InputDeviceType::Keyboard,
        }
    }
}

impl InputConvert for InputDevice {
    open spec fn affinity_of(state: InputDeviceView, device_type: InputDeviceType) -> Option<i32> {
        state.affinity(device_type)
    }

    open spec fn conversion_of(state: InputDeviceView, device_type: InputDeviceType) -> Option<
        InputDeviceView,
    > {
        state.convert(device_type)
    }

    fn affinity(&self, device_type: InputDeviceType) -> (score: Option<i32>) {
        match self {
            InputDevice::Nes(nes) => nes.affinity(device_type),
            InputDevice::Controller(controller) => controller.affinity(device_type),
            InputDevice::Keyboard(keyboard) => keyboard.affinity(device_type),
        }
    }

    fn convert(&self, device_type: InputDeviceType) -> (converted: Option<InputDevice>) {
        match self {
            InputDevice::Nes(nes) => nes.convert(device_type),
            InputDevice::Controller(controller) => controller.convert(device_type),
            InputDevice::Keyboard(keyboard) => keyboard.convert(device_type),
        }
    }
}

impl InputCombine for InputDevice {
    open spec fn combination_of(state: InputDeviceView, with: InputDeviceView) -> InputDeviceView {
        state.combine(with)
    }

    fn combine(&self, with: &InputDevice) -> (combined: InputDevice) {
        match self {
            InputDevice::Nes(nes) => {
                let conversion = with.convert(InputDeviceType::Nes);
                if let Some(conversion) = conversion {
                    if let InputDevice::Nes(with) = conversion {
                        return InputDevice::Nes(nes.combine(&with));
                    }
                }
            },
            InputDevice::Controller(controller) => {
                let conversion = with.convert(InputDeviceType::Controller);
                if let Some(conversion) = conversion {
                    if let InputDevice::Controller(with) = conversion {
                        return InputDevice::Controller(controller.combine(&with));
                    }
                }
            },
            InputDevice::Keyboard(keyboard) => {
                let conversion = with.convert(InputDeviceType::Keyboard);
                if let Some(conversion) = conversion {
                    if let InputDevice::Keyboard(with) = conversion {
                        return InputDevice::Keyboard(keyboard.combine(&with));
                    }
                }
            },
        }
        self.clone()
    }
}

} // verus!
