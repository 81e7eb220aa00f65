//! What a game receives for one step: the input of each player.

use vstd::prelude::*;
use crate::input::{Controller, InputDevice, InputDeviceView, Keyboard, Nes};

verus! {

/// The input of one player: a device of the type that the game asked for.
#[derive(Debug)]
pub struct PlayerInputArguments {
    input: InputDevice,
}

impl View for PlayerInputArguments {
    type V = InputDeviceView;

    closed spec fn view(&self) -> InputDeviceView {
        self.input@
    }
}

impl DeepView for PlayerInputArguments {
    type V = InputDeviceView;

    open spec fn deep_view(&self) -> InputDeviceView {
        self@
    }
}

impl PlayerInputArguments {
    /// The input of a player who holds `input`.
    pub fn new(input: InputDevice) -> (player: PlayerInputArguments)
        ensures
            player@ == input@,
    {
        PlayerInputArguments { input }
    }

    /// The device that the player holds.
    pub fn input(&self) -> (input: &InputDevice)
        ensures
            input@ == self@,
    {
        &self.input
    }

    /// Get the player's NES style controller, `None` if the player holds a
    /// device of another type.
    pub fn nes(&self) -> (nes: Option<&Nes>)
        ensures
            match nes {
                Some(nes) => self@ == InputDeviceView::Nes(*nes),
                None => !(self@ is Nes),
            },
    {
        if let InputDevice::Nes(ref nes) = self.input {
            return Some(nes);
        }
        None
    }

    /// Get the player's standard controller, `None` if the player holds a
    /// device of another type.
    pub fn controller(&self) -> (controller: Option<&Controller>)
        ensures
            match controller {
                Some(controller) => self@ == InputDeviceView::Controller(*controller),
                None => !(self@ is Controller),
            },
    {
        if let InputDevice::Controller(ref controller) = self.input {
            return Some(controller);
        }
        None
    }

    /// Get the player's keyboard, `None` if the player holds a device of
    /// another type.
    pub fn keyboard(&self) -> (keyboard: Option<&Keyboard>)
        ensures
            match keyboard {
                Some(keyboard) => self@ == InputDeviceView::Keyboard(keyboard@),
                None => !(self@ is Keyboard),
            },
    {
        if let InputDevice::Keyboard(ref keyboard) = self.input {
            return Some(keyboard);
        }
        None
    }
}

/// The input of every player for one step, in the order of the players. A
/// player for whom no device was found has `None`.
#[derive(Debug)]
pub struct InputArguments {
    players: Vec<Option<PlayerInputArguments>>,
}

impl View for InputArguments {
    type V = Seq<Option<InputDeviceView>>;

    closed spec fn view(&self) -> Seq<Option<InputDeviceView>> {
        self.players.deep_view()
    }
}

impl Default for InputArguments {
    /// The input of a game without players.
    fn default() -> (arguments: InputArguments)
        ensures
            arguments@ == Seq::<Option<InputDeviceView>>::empty(),
    {
        let arguments = InputArguments { players: Vec::new() };
        assert(arguments@ =~= Seq::<Option<InputDeviceView>>::empty());
        arguments
    }
}

impl InputArguments {
    /// The input of the players given, in their order.
    pub fn new(players: Vec<Option<PlayerInputArguments>>) -> (arguments: InputArguments)
        ensures
            arguments@ == players.deep_view(),
    {
        InputArguments { players }
    }

    /// The number of players.
    pub fn player_count(&self) -> (count: usize)
        ensures
            count == self@.len(),
    {
        self.players.len()
    }

    /// Get the input for a specific player, counted from 0. `None` if there
    /// is no such player or no device was found for them.
    pub fn player(&self, player: i32) -> (input: Option<&PlayerInputArguments>)
        ensures
            match input {
                Some(input) => 0 <= player < self@.len() && self@[player as int] == Some(input@),
                None => !(0 <= player < self@.len()) || self@[player as int] is None,
            },
    {
        if player < 0 {
            return None;
        }
        let index = player as usize;
        if index >= self.players.len() {
            return None;
        }
        assert(self@[player as int] == self.players[player as int].deep_view());
        self.players[index].as_ref()
    }
}

/// Arguments passed for each step of the game.
#[derive(Debug)]
pub struct StepArguments {
    input: InputArguments,
}

impl View for StepArguments {
    type V = Seq<Option<InputDeviceView>>;

    closed spec fn view(&self) -> Seq<Option<InputDeviceView>> {
        self.input@
    }
}

impl Default for StepArguments {
    /// The arguments of a step of a game without players.
    fn default() -> (arguments: StepArguments)
        ensures
            arguments@ == Seq::<Option<InputDeviceView>>::empty(),
    {
        StepArguments { input: InputArguments::default() }
    }
}

impl StepArguments {
    /// The arguments of a step in which the players have the input given.
    pub fn new(input: InputArguments) -> (arguments: StepArguments)
        ensures
            arguments@ == input@,
    {
        StepArguments { input }
    }

    /// Get the input for this step.
    pub fn input(&self) -> (input: &InputArguments)
        ensures
            input@ == self@,
    {
        &self.input
    }
}

/// Arguments passed for each audio render of the game. There are none yet.
#[derive(Debug, Clone, Copy, PartialEq, Eq, Structural)]
pub struct RenderAudioArguments {}

impl Default for RenderAudioArguments {
    fn default() -> (arguments: RenderAudioArguments)
        ensures
            arguments == (RenderAudioArguments {  }),
    {
        RenderAudioArguments {  }
    }
}

} // verus!
