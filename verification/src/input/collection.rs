//! The device pool, and the assignment of its devices to players.

use vstd::prelude::*;
use crate::arguments::{InputArguments, PlayerInputArguments};
use crate::info::Info;
use crate::input::assignment::{
    absorb, absorb_surplus, assignment, claimed, claiming_passes, is_pick,
    lemma_claiming_passes_bounded, lemma_pick_found, lemma_pick_none, lemma_unclaimed_len,
    lemma_unclaimed_whole, pick, split_candidates, split_remainder, unclaimed,
};
use crate::input::{InputCombine, InputConvert, InputDevice, InputDeviceType, InputDeviceView};

verus! {

/// The projection of a whole pool onto `device_type`: every member that can
/// be projected is, and the projections are combined from the first member
/// of the pool to the last. `None` when no member can be projected.
pub open spec fn pool_conversion(
    pool: Seq<InputDeviceView>,
    device_type: InputDeviceType,
) -> Option<InputDeviceView>
    decreases pool.len(),
{
    if pool.len() == 0 {
        None
    } else {
        match (pool_conversion(pool.drop_last(), device_type), pool.last().convert(device_type)) {
            (Some(merged), Some(converted)) => Some(merged.combine(converted)),
            (Some(merged), None) => Some(merged),
            (None, converted) => converted,
        }
    }
}

/// The best score with which any member of the pool stands in for
/// `device_type`: that of the member a slot would pick. `None` when no
/// member fits.
pub open spec fn pool_affinity(pool: Seq<InputDeviceView>, device_type: InputDeviceType) -> Option<
    i32,
> {
    match pick(pool, device_type) {
        Some(index) => pool[index].affinity(device_type),
        None => None,
    }
}

/// The index of the device of `devices` that a slot asking for `device_type`
/// takes: the first among those with the lowest score.
pub fn find_pick(devices: &Vec<InputDevice>, device_type: InputDeviceType) -> (found: Option<usize>)
    ensures
        match found {
            Some(index) => pick(devices.deep_view(), device_type) == Some(index as int),
            None => pick(devices.deep_view(), device_type) is None,
        },
{
    let ghost pool = devices.deep_view();
    let mut found_index: Option<usize> = None;
    let mut found_affinity: i32 = 0;
    let mut index: usize = 0;
    while index < devices.len()
        invariant
            index <= devices.len(),
            pool == devices.deep_view(),
            match found_index {
                Some(best) => {
                    &&& best < index
                    &&& pool[best as int].affinity(device_type) == Some(found_affinity)
                    &&& forall|j: int|
                        0 <= j < best ==> (#[trigger] pool[j].affinity(device_type) matches Some(
                            score,
                        ) ==> found_affinity < score)
                    &&& forall|j: int|
                        best < j < index ==> (#[trigger] pool[j].affinity(device_type) matches Some(
                            score,
                        ) ==> found_affinity <= score)
                },
                None => forall|j: int|
                    0 <= j < index ==> #[trigger] pool[j].affinity(device_type) is None,
            },
        decreases devices.len() - index,
    {
        assert(pool[index as int] == devices[index as int]@);
        match devices[index].affinity(device_type) {
            Some(affinity) => {
                if found_index.is_none() || affinity < found_affinity {
                    found_affinity = affinity;
                    found_index = Some(index);
                }
            },
            None => {},
        }
        index += 1;
    }
    proof {
        match found_index {
            Some(best) => {
                assert(is_pick(pool, device_type, best as int));
                lemma_pick_found(pool, device_type, best as int);
            },
            None => {
                lemma_pick_none(pool, device_type);
            },
        }
    }
    found_index
}

/// Collection of many inputs: the pool of devices reported in one frame, in
/// the order in which they were added.
#[derive(Debug)]
pub struct InputCollection {
    inputs: Vec<InputDevice>,
}

impl View for InputCollection {
    type V = Seq<InputDeviceView>;

    closed spec fn view(&self) -> Seq<InputDeviceView> {
        self.inputs.deep_view()
    }
}

impl Default for InputCollection {
    /// An empty pool.
    fn default() -> (pool: InputCollection)
        ensures
            pool@ == Seq::<InputDeviceView>::empty(),
    {
        InputCollection::new()
    }
}

/// A copy of `devices`, device by device.
fn copy_devices(devices: &Vec<InputDevice>) -> (copy: Vec<InputDevice>)
    ensures
        copy.deep_view() == devices.deep_view(),
{
    let mut copy: Vec<InputDevice> = Vec::new();
    let mut index: usize = 0;
    while index < devices.len()
        invariant
            index <= devices.len(),
            copy.len() == index,
            forall|j: int| 0 <= j < index ==> copy[j]@ == devices[j]@,
        decreases devices.len() - index,
    {
        copy.push(devices[index].clone());
        index += 1;
    }
    assert(copy.deep_view() =~= devices.deep_view());
    copy
}

impl Clone for InputCollection {
    fn clone(&self) -> (copy: InputCollection)
        ensures
            copy@ == self@,
    {
        InputCollection { inputs: copy_devices(&self.inputs) }
    }
}

impl InputCollection {
    /// An empty pool.
    pub fn new() -> (pool: InputCollection)
        ensures
            pool@ == Seq::<InputDeviceView>::empty(),
    {
        let pool = InputCollection { inputs: Vec::new() };
        assert(pool@ =~= Seq::<InputDeviceView>::empty());
        pool
    }

    /// Add a new input to the collection, behind those already in it.
    pub fn add_input(&mut self, device: InputDevice)
        ensures
            final(self)@ == old(self)@.push(device@),
    {
        self.inputs.push(device);
        assert(self@ =~= old(self)@.push(device@));
    }

    /// The devices of the pool, in the order in which they were added.
    pub fn inputs(&self) -> (devices: &Vec<InputDevice>)
        ensures
            devices.deep_view() == self@,
    {
        &self.inputs
    }

    /// The number of devices in the pool.
    pub fn len(&self) -> (count: usize)
        ensures
            count == self@.len(),
    {
        self.inputs.len()
    }

    /// Distribute all of the inputs in the collection amongst the players
    /// that `info` declares, and return the input arguments for one step of
    /// the game. A first pass gives each player the best fit. Further passes
    /// fold the devices that are left into the slots that are filled, until a
    /// pass places none; what is left then is dropped. A player for whom the
    /// first pass found nothing receives `None`.
    pub fn get_input_arguments(&self, info: &Info) -> (arguments: InputArguments)
        ensures
            arguments@ == assignment(self@, info@.players),
            arguments@.len() == info@.players.len(),
    {
        let devices = info.players().as_slice();
        let (dist, first_remaining) = self.split(devices);
        // Counts the passes that claim a device, the first one included.
        let ghost mut passes: nat = if first_remaining@.len() < self@.len() {
            1
        } else {
            0
        };
        proof {
            lemma_unclaimed_len(self@, devices@, devices@.len());
            if first_remaining@.len() == self@.len() {
                lemma_unclaimed_whole(self@, devices@, devices@.len());
            }
        }
        let mut remaining = first_remaining;
        let mut result = wrap_players(dist);
        loop
            invariant
                devices@ == info@.players,
                result.len() == devices@.len(),
                absorb_surplus(result.deep_view(), remaining@, devices@) == assignment(
                    self@,
                    devices@,
                ),
                passes + claiming_passes(remaining@, devices@) == claiming_passes(self@, devices@),
            ensures
                result.deep_view() == assignment(self@, devices@),
                passes == claiming_passes(self@, devices@),
            decreases remaining@.len(),
        {
            let (new_dist, new_remaining) = remaining.split(devices);
            proof {
                lemma_unclaimed_len(remaining@, devices@, devices@.len());
            }
            if new_remaining.len() == remaining.len() {
                break ;
            }
            absorb_into(&mut result, &new_dist);
            remaining = new_remaining;
            proof {
                passes = passes + 1;
            }
        }
        proof {
            // No more passes claimed a device than the pool has devices.
            lemma_claiming_passes_bounded(self@, devices@);
            assert(passes <= self@.len());
        }
        InputArguments::new(result)
    }

    /// One pass of assignment. Each player in turn takes, from the devices
    /// that the players before left, the one that fits the requested type
    /// best, the earlier one where two fit equally well, and receives it
    /// projected onto that type. Returns what each player received and the
    /// devices that nobody claimed.
    pub fn split(&self, into: &[InputDeviceType]) -> (parts: (Vec<Option<InputDevice>>, InputCollection))
        ensures
            parts.0.len() == into.len(),
            parts.0.deep_view() == split_candidates(self@, into@),
            parts.1@ == split_remainder(self@, into@),
    {
        let mut remaining = copy_devices(&self.inputs);
        let mut found: Vec<Option<InputDevice>> = Vec::new();
        let mut slot: usize = 0;
        while slot < into.len()
            invariant
                slot <= into.len(),
                found.len() == slot,
                remaining.deep_view() == unclaimed(self@, into@, slot as nat),
                forall|k: int|
                    0 <= k < slot ==> (#[trigger] found[k]).deep_view() == claimed(self@, into@, k),
            decreases into.len() - slot,
        {
            let input_type = into[slot];
            let ghost before = remaining.deep_view();
            let found_index = find_pick(&remaining, input_type);
            let found_for = match found_index {
                Some(index) => {
                    assert(before[index as int] == remaining[index as int]@);
                    let converted = remaining[index].convert(input_type);
                    remaining.remove(index);
                    assert(remaining.deep_view() =~= before.remove(index as int));
                    converted
                },
                None => None,
            };
            found.push(found_for);
            slot += 1;
        }
        assert(found.deep_view() =~= split_candidates(self@, into@));
        (found, InputCollection { inputs: remaining })
    }
}

/// Each device that a pass handed out, as the input of its player.
fn wrap_players(dist: Vec<Option<InputDevice>>) -> (result: Vec<Option<PlayerInputArguments>>)
    ensures
        result.len() == dist.len(),
        result.deep_view() == dist.deep_view(),
{
    let mut result: Vec<Option<PlayerInputArguments>> = Vec::new();
    let mut slot: usize = 0;
    while slot < dist.len()
        invariant
            slot <= dist.len(),
            result.len() == slot,
            forall|k: int| 0 <= k < slot ==> (#[trigger] result[k]).deep_view() == dist[k].deep_view(),
        decreases dist.len() - slot,
    {
        let player = match &dist[slot] {
            Some(input) => Some(PlayerInputArguments::new(input.clone())),
            None => None,
        };
        result.push(player);
        slot += 1;
    }
    assert(result.deep_view() =~= dist.deep_view());
    result
}

/// Fold what a later pass handed out into the slots that are filled.
fn absorb_into(result: &mut Vec<Option<PlayerInputArguments>>, extra: &Vec<Option<InputDevice>>)
    requires
        old(result).len() == extra.len(),
    ensures
        final(result).len() == old(result).len(),
        final(result).deep_view() == absorb(old(result).deep_view(), extra.deep_view()),
{
    let ghost before = result.deep_view();
    let mut slot: usize = 0;
    while slot < result.len()
        invariant
            slot <= result.len(),
            result.len() == extra.len(),
            before.len() == result.len(),
            forall|k: int|
                0 <= k < slot ==> (#[trigger] result[k]).deep_view() == absorb(
                    before,
                    extra.deep_view(),
                )[k],
            forall|k: int| slot <= k < result.len() ==> (#[trigger] result[k]).deep_view() == before[k],
        decreases result.len() - slot,
    {
        let combined = match (&result[slot], &extra[slot]) {
            (Some(player), Some(device)) => Some(player.input().combine(device)),
            _ => None,
        };
        if let Some(input) = combined {
            result.set(slot, Some(PlayerInputArguments::new(input)));
        }
        slot += 1;
    }
    assert(result.deep_view() =~= absorb(before, extra.deep_view()));
}

impl InputConvert for InputCollection {
    open spec fn affinity_of(state: Seq<InputDeviceView>, device_type: InputDeviceType) -> Option<
        i32,
    > {
        pool_affinity(state, device_type)
    }

    open spec fn conversion_of(
        state: Seq<InputDeviceView>,
        device_type: InputDeviceType,
    ) -> Option<InputDeviceView> {
        pool_conversion(state, device_type)
    }

    fn affinity(&self, device_type: InputDeviceType) -> (score: Option<i32>) {
        match find_pick(&self.inputs, device_type) {
            Some(index) => {
                assert(self@[index as int] == self.inputs[index as int]@);
                self.inputs[index].affinity(device_type)
            },
            None => None,
        }
    }

    fn convert(&self, device_type: InputDeviceType) -> (converted: Option<InputDevice>) {
        let mut result: Option<InputDevice> = None;
        let mut index: usize = 0;
        assert(self@.take(0) =~= Seq::<InputDeviceView>::empty());
        while index < self.inputs.len()
            invariant
                index <= self.inputs.len(),
                result.deep_view() == pool_conversion(self@.take(index as int), device_type),
            decreases self.inputs.len() - index,
        {
            proof {
                assert(self@.take(index + 1).drop_last() =~= self@.take(index as int));
                assert(self@.take(index + 1).last() == self.inputs[index as int]@);
            }
            if let Some(input) = self.inputs[index].convert(device_type) {
                result = match result {
                    Some(merged) => Some(merged.combine(&input)),
                    None => Some(input),
                };
            }
            index += 1;
        }
        assert(self@.take(index as int) =~= self@);
        result
    }
}

impl InputCombine for InputCollection {
    /// The devices of the one pool followed by those of the other.
    open spec fn combination_of(
        state: Seq<InputDeviceView>,
        with: Seq<InputDeviceView>,
    ) -> Seq<InputDeviceView> {
        state + with
    }

    fn combine(&self, with: &InputCollection) -> (combined: InputCollection) {
        let mut inputs = copy_devices(&self.inputs);
        let mut index: usize = 0;
        while index < with.inputs.len()
            invariant
                index <= with.inputs.len(),
                inputs.deep_view() == self@ + with@.take(index as int),
            decreases with.inputs.len() - index,
        {
            let ghost before = inputs.deep_view();
            inputs.push(with.inputs[index].clone());
            assert(inputs.deep_view() =~= before.push(with.inputs[index as int]@));
            assert(inputs.deep_view() =~= self@ + with@.take(index + 1));
            index += 1;
        }
        assert(with@.take(index as int) =~= with@);
        InputCollection { inputs }
    }
}

} // verus!
