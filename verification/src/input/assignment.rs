//! What it means to assign a pool of devices to a list of players, stated
//! over sequences of device states.

use vstd::prelude::*;
use crate::input::{InputDeviceType, InputDeviceView};

verus! {

/// The device at `index` is the one that a slot asking for `device_type`
/// takes from `pool`: it fits, every fitting device before it scores strictly
/// worse, and no device after it scores strictly better. So among devices
/// with the lowest score the first one wins.
pub open spec fn is_pick(pool: Seq<InputDeviceView>, device_type: InputDeviceType, index: int) -> bool {
    &&& 0 <= index < pool.len()
    &&& pool[index].affinity(device_type) is Some
    &&& forall|j: int|
        0 <= j < index ==> (#[trigger] pool[j].affinity(device_type) matches Some(score)
            ==> pool[index].affinity(device_type)->0 < score)
    &&& forall|j: int|
        index < j < pool.len() ==> (#[trigger] pool[j].affinity(device_type) matches Some(score)
            ==> pool[index].affinity(device_type)->0 <= score)
}

/// The index of the device that a slot asking for `device_type` takes from
/// `pool`, or `None` when no device of the pool fits.
pub open spec fn pick(pool: Seq<InputDeviceView>, device_type: InputDeviceType) -> Option<int> {
    if exists|i: int| is_pick(pool, device_type, i) {
        Some(choose|i: int| is_pick(pool, device_type, i))
    } else {
        None
    }
}

/// The devices still unclaimed when the first `slots` players have each
/// taken their pick, in order.
pub open spec fn unclaimed(
    pool: Seq<InputDeviceView>,
    players: Seq<InputDeviceType>,
    slots: nat,
) -> Seq<InputDeviceView>
    decreases slots,
{
    if slots == 0 {
        pool
    } else {
        let before = unclaimed(pool, players, (slots - 1) as nat);
        match pick(before, players[slots - 1]) {
            Some(index) => before.remove(index),
            None => before,
        }
    }
}

/// What the player at `slot` receives in one pass over `pool`: the pick
/// among the devices that the players before left unclaimed, projected onto
/// the type the player asks for; `None` when none of those devices fits.
pub open spec fn claimed(
    pool: Seq<InputDeviceView>,
    players: Seq<InputDeviceType>,
    slot: int,
) -> Option<InputDeviceView> {
    let before = unclaimed(pool, players, slot as nat);
    match pick(before, players[slot]) {
        Some(index) => before[index].convert(players[slot]),
        None => None,
    }
}

/// One pass: what each player receives, in the order of the players.
pub open spec fn split_candidates(
    pool: Seq<InputDeviceView>,
    players: Seq<InputDeviceType>,
) -> Seq<Option<InputDeviceView>> {
    Seq::new(players.len(), |slot: int| claimed(pool, players, slot))
}

/// One pass: the devices that no player claimed, in their order in the pool.
pub open spec fn split_remainder(
    pool: Seq<InputDeviceView>,
    players: Seq<InputDeviceType>,
) -> Seq<InputDeviceView> {
    unclaimed(pool, players, players.len())
}

/// The slots of `result` after a later pass handed out `extra`: a filled
/// slot absorbs what the pass gave it, an empty slot stays empty.
pub open spec fn absorb(
    result: Seq<Option<InputDeviceView>>,
    extra: Seq<Option<InputDeviceView>>,
) -> Seq<Option<InputDeviceView>> {
    Seq::new(
        result.len(),
        |slot: int|
            match (result[slot], extra[slot]) {
                (Some(device), Some(surplus)) => Some(device.combine(surplus)),
                _ => result[slot],
            },
    )
}

/// `result` after the surplus devices in `remaining` have been folded into
/// it: pass after pass over what is left, until a pass claims nothing.
pub open spec fn absorb_surplus(
    result: Seq<Option<InputDeviceView>>,
    remaining: Seq<InputDeviceView>,
    players: Seq<InputDeviceType>,
) -> Seq<Option<InputDeviceView>>
    decreases remaining.len(),
{
    let rest = split_remainder(remaining, players);
    if rest.len() < remaining.len() {
        absorb_surplus(absorb(result, split_candidates(remaining, players)), rest, players)
    } else {
        result
    }
}

/// The number of passes, over `pool` and then over what each pass leaves,
/// that claim at least one device. The pass after them claims nothing and
/// ends the assignment.
pub open spec fn claiming_passes(pool: Seq<InputDeviceView>, players: Seq<InputDeviceType>) -> nat
    decreases pool.len(),
{
    let rest = split_remainder(pool, players);
    if rest.len() < pool.len() {
        1 + claiming_passes(rest, players)
    } else {
        0
    }
}

/// What each player receives from `pool`: the best fit of a first pass, with
/// every surplus device that fits a filled slot folded into it.
pub open spec fn assignment(
    pool: Seq<InputDeviceView>,
    players: Seq<InputDeviceType>,
) -> Seq<Option<InputDeviceView>> {
    absorb_surplus(split_candidates(pool, players), split_remainder(pool, players), players)
}

/// At most one device is the pick.
pub proof fn lemma_pick_unique(
    pool: Seq<InputDeviceView>,
    device_type: InputDeviceType,
    i: int,
    j: int,
)
    requires
        is_pick(pool, device_type, i),
        is_pick(pool, device_type, j),
    ensures
        i == j,
{
    if i < j {
        assert(pool[i].affinity(device_type) is Some);
        assert(pool[j].affinity(device_type)->0 < pool[i].affinity(device_type)->0);
        assert(pool[j].affinity(device_type) is Some);
    } else if j < i {
        assert(pool[j].affinity(device_type) is Some);
        assert(pool[i].affinity(device_type)->0 < pool[j].affinity(device_type)->0);
        assert(pool[i].affinity(device_type) is Some);
    }
}

/// A device that meets `is_pick` is what `pick` returns.
pub proof fn lemma_pick_found(pool: Seq<InputDeviceView>, device_type: InputDeviceType, i: int)
    requires
        is_pick(pool, device_type, i),
    ensures
        pick(pool, device_type) == Some(i),
{
    let chosen = choose|k: int| is_pick(pool, device_type, k);
    lemma_pick_unique(pool, device_type, i, chosen);
}

/// Where no device fits, there is no pick.
pub proof fn lemma_pick_none(pool: Seq<InputDeviceView>, device_type: InputDeviceType)
    requires
        forall|j: int| 0 <= j < pool.len() ==> #[trigger] pool[j].affinity(device_type) is None,
    ensures
        pick(pool, device_type) is None,
{
    if exists|i: int| is_pick(pool, device_type, i) {
        let i = choose|i: int| is_pick(pool, device_type, i);
        assert(pool[i].affinity(device_type) is None);
    }
}

/// A pass never adds a device: what is left is no longer than the pool.
pub proof fn lemma_unclaimed_len(
    pool: Seq<InputDeviceView>,
    players: Seq<InputDeviceType>,
    slots: nat,
)
    ensures
        unclaimed(pool, players, slots).len() <= pool.len(),
    decreases slots,
{
    if slots > 0 {
        lemma_unclaimed_len(pool, players, (slots - 1) as nat);
    }
}

/// A pass that leaves as many devices as the pool has leaves the pool as it
/// is.
pub proof fn lemma_unclaimed_whole(
    pool: Seq<InputDeviceView>,
    players: Seq<InputDeviceType>,
    slots: nat,
)
    requires
        unclaimed(pool, players, slots).len() == pool.len(),
    ensures
        unclaimed(pool, players, slots) == pool,
    decreases slots,
{
    if slots > 0 {
        let before = unclaimed(pool, players, (slots - 1) as nat);
        lemma_unclaimed_len(pool, players, (slots - 1) as nat);
        match pick(before, players[slots - 1]) {
            Some(index) => {
                assert(is_pick(before, players[slots - 1], index));
            },
            None => {
                lemma_unclaimed_whole(pool, players, (slots - 1) as nat);
            },
        }
    }
}

/// Each pass that claims a device shortens what is left, so there are no
/// more such passes than the pool has devices.
pub proof fn lemma_claiming_passes_bounded(
    pool: Seq<InputDeviceView>,
    players: Seq<InputDeviceType>,
)
    ensures
        claiming_passes(pool, players) <= pool.len(),
    decreases pool.len(),
{
    let rest = split_remainder(pool, players);
    if rest.len() < pool.len() {
        lemma_claiming_passes_bounded(rest, players);
    }
}

} // verus!
