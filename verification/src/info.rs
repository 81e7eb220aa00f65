//! What a game declares about itself: its name, its pace and what each
//! player plays with.

use vstd::prelude::*;
use crate::input::InputDeviceType;

verus! {

/// Nanoseconds in one second.
pub const NANOSECONDS_PER_SECOND: u32 = 1_000_000_000;

/// Information about a game, as a mathematical value.
pub ghost struct InfoView {
    /// The title of the game.
    pub name: Seq<char>,
    /// The time between two steps of the game, in nanoseconds.
    pub step_interval: u32,
    /// The device type that each player plays with, in the order of the players.
    pub players: Seq<InputDeviceType>,
}

/// Holds information about the game.
#[derive(Debug)]
pub struct Info {
    name: String,
    step_interval: u32,
    players: Vec<InputDeviceType>,
}

impl View for Info {
    type V = InfoView;

    closed spec fn view(&self) -> InfoView {
        InfoView { name: self.name@, step_interval: self.step_interval, players: self.players@ }
    }
}

impl Clone for Info {
    fn clone(&self) -> (copy: Info)
        ensures
            copy@ == self@,
    {
        let players = self.players.clone();
        assert(players@ =~= self.players@);
        Info { name: self.name.clone(), step_interval: self.step_interval, players }
    }
}

impl Info {
    /// The time between steps, in nanoseconds, at `steps` steps per second:
    /// a second divided by the number of steps, rounded down. A negative
    /// number of steps is read as the unsigned number with the same 32 bits,
    /// which is more than a second holds nanoseconds, so the interval is 0.
    pub open spec fn interval_of(steps: i32) -> u32 {
        if steps > 0 {
            (NANOSECONDS_PER_SECOND as int / steps as int) as u32
        } else {
            0
        }
    }

    /// Create a new structure of info about the game being played.
    ///
    /// * `name` - The title of the game
    /// * `steps_per_second` - The number of times the game steps per second
    /// * `number_of_players` - How many players this game has
    /// * `input` - The device type to use for each player
    pub fn new(
        name: &str,
        steps_per_second: i32,
        number_of_players: i32,
        input: InputDeviceType,
    ) -> (info: Info)
        requires
            steps_per_second != 0,
            number_of_players >= 0,
        ensures
            info@.name == name@,
            info@.step_interval == Info::interval_of(steps_per_second),
            info@.players == Seq::new(number_of_players as nat, |i: int| input),
    {
        let mut players: Vec<InputDeviceType> = Vec::new();
        let mut count: i32 = 0;
        while count < number_of_players
            invariant
                0 <= count <= number_of_players,
                players@ == Seq::new(count as nat, |i: int| input),
            decreases number_of_players - count,
        {
            players.push(input);
            count += 1;
            assert(players@ =~= Seq::new(count as nat, |i: int| input));
        }
        Info {
            name: name.to_owned(),
            step_interval: Info::steps_per_second_to_interval(steps_per_second),
            players,
        }
    }

    /// The info of a game with the given name and time between steps, in
    /// nanoseconds, whose players play with the device types given, in order.
    pub fn from_parts(name: &str, step_interval: u32, players: Vec<InputDeviceType>) -> (info: Info)
        ensures
            info@.name == name@,
            info@.step_interval == step_interval,
            info@.players == players@,
    {
        Info { name: name.to_owned(), step_interval, players }
    }

    /// Gets the name of the game.
    pub fn name(&self) -> (name: &str)
        ensures
            name@ == self@.name,
    {
        self.name.as_str()
    }

    /// Gets time between steps of the game, in nanoseconds.
    pub fn step_interval(&self) -> (interval: u32)
        ensures
            interval == self@.step_interval,
    {
        self.step_interval
    }

    /// Gets the device type that each player plays with, in the order of the
    /// players.
    pub fn players(&self) -> (players: &Vec<InputDeviceType>)
        ensures
            players@ == self@.players,
    {
        &self.players
    }

    /// Converts from steps per second to a time interval in nanoseconds.
    pub fn steps_per_second_to_interval(steps: i32) -> (interval: u32)
        requires
            steps != 0,
        ensures
            interval == Info::interval_of(steps),
    {
        if steps > 0 {
            NANOSECONDS_PER_SECOND / (steps as u32)
        } else {
            0
        }
    }
}

} // verus!
