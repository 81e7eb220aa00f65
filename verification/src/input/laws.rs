//! Laws of matching, projecting, merging and assigning devices.

use vstd::prelude::*;
use crate::input::assignment::{
    absorb, absorb_surplus, assignment, claimed, is_pick, lemma_pick_found, lemma_pick_none, pick,
    split_candidates, split_remainder, unclaimed,
};
use crate::input::collection::pool_affinity;
use crate::input::controller::{
    law_controller_merge_associates, law_controller_merge_commutes,
    law_controller_merge_idempotent,
};
use crate::input::nes::{law_nes_merge_associates, law_nes_merge_commutes, law_nes_merge_idempotent};
use crate::input::{InputDeviceType, InputDeviceView, KeyCode};

verus! {

/// A device stands in for its own type with score 0, which no score is
/// below, and projected onto its own type it is unchanged.
pub proof fn law_own_type_is_identity(device: InputDeviceView)
    ensures
        device.affinity(device.device_type()) == Some(0i32),
        device.convert(device.device_type()) == Some(device),
        forall|device_type: InputDeviceType|
            (#[trigger] device.affinity(device_type)) matches Some(score) ==> 0 <= score,
{
}

/// The conversion table is closed. A device fits its own type and the NES
/// pad, and nothing else: a NES pad is neither a controller nor a keyboard, a
/// controller is no keyboard and a keyboard no controller. Affinity and
/// conversion agree on which pairs are supported, and a conversion yields a
/// device of the type asked for.
pub proof fn law_conversion_table(device: InputDeviceView, device_type: InputDeviceType)
    ensures
        device.affinity(device_type) is Some <==> (device_type == device.device_type()
            || device_type == InputDeviceType::Nes),
        device.convert(device_type) is Some <==> device.affinity(device_type) is Some,
        device.convert(device_type) matches Some(converted) ==> converted.device_type()
            == device_type,
{
}

/// Combining keeps the type of the device that absorbs the other.
pub proof fn law_combine_keeps_type(device: InputDeviceView, with: InputDeviceView)
    ensures
        device.combine(with).device_type() == device.device_type(),
{
}

/// Combining two NES pads, or two controllers, does not depend on their
/// order.
pub proof fn law_combine_commutes(device: InputDeviceView, with: InputDeviceView)
    requires
        device.device_type() == with.device_type(),
        !(device is Keyboard),
    ensures
        device.combine(with) == with.combine(device),
{
    match (device, with) {
        (InputDeviceView::Nes(x), InputDeviceView::Nes(y)) => {
            law_nes_merge_commutes(x, y);
        },
        (InputDeviceView::Controller(p), InputDeviceView::Controller(q)) => {
            law_controller_merge_commutes(p, q);
        },
        _ => {},
    }
}

/// Combining three devices of one type from left to right equals combining
/// the first with the combination of the other two. For keyboards this holds
/// with the operands in this order only.
pub proof fn law_combine_associates(
    first: InputDeviceView,
    second: InputDeviceView,
    third: InputDeviceView,
)
    requires
        first.device_type() == second.device_type(),
        second.device_type() == third.device_type(),
    ensures
        first.combine(second).combine(third) == first.combine(second.combine(third)),
{
    match (first, second, third) {
        (InputDeviceView::Nes(x), InputDeviceView::Nes(y), InputDeviceView::Nes(z)) => {
            law_nes_merge_associates(x, y, z);
        },
        (
            InputDeviceView::Controller(p),
            InputDeviceView::Controller(q),
            InputDeviceView::Controller(r),
        ) => {
            law_controller_merge_associates(p, q, r);
        },
        (
            InputDeviceView::Keyboard(x),
            InputDeviceView::Keyboard(y),
            InputDeviceView::Keyboard(z),
        ) => {
            assert(x.union_prefer_right(y).union_prefer_right(z) =~= x.union_prefer_right(
                y.union_prefer_right(z),
            ));
        },
        _ => {},
    }
}

/// A device combined with itself is unchanged.
pub proof fn law_combine_idempotent(device: InputDeviceView)
    ensures
        device.combine(device) == device,
{
    match device {
        InputDeviceView::Nes(x) => {
            law_nes_merge_idempotent(x);
        },
        InputDeviceView::Controller(p) => {
            law_controller_merge_idempotent(p);
        },
        InputDeviceView::Keyboard(keys) => {
            assert(keys.union_prefer_right(keys) =~= keys);
        },
    }
}

/// Two keyboards combined hold the keys of both, and a scan code that is
/// down on both keeps the key code of the second.
pub proof fn law_keyboard_combine(
    first: Map<KeyCode, KeyCode>,
    second: Map<KeyCode, KeyCode>,
    scan_code: KeyCode,
)
    ensures
        ({
            let combined = InputDeviceView::Keyboard(first).combine(
                InputDeviceView::Keyboard(second),
            );
            &&& combined is Keyboard
            &&& combined->Keyboard_0.contains_key(scan_code) <==> first.contains_key(scan_code)
                || second.contains_key(scan_code)
            &&& second.contains_key(scan_code) ==> combined->Keyboard_0[scan_code]
                == second[scan_code]
            &&& first.contains_key(scan_code) && !second.contains_key(scan_code)
                ==> combined->Keyboard_0[scan_code] == first[scan_code]
        }),
{
}

/// A pool in which some device fits has a pick.
proof fn lemma_first_best(pool: Seq<InputDeviceView>, device_type: InputDeviceType) -> (index: int)
    requires
        exists|j: int| 0 <= j < pool.len() && #[trigger] pool[j].affinity(device_type) is Some,
    ensures
        is_pick(pool, device_type, index),
    decreases pool.len(),
{
    let init = pool.drop_last();
    let last = pool.len() - 1;
    if exists|j: int| 0 <= j < init.len() && #[trigger] init[j].affinity(device_type) is Some {
        let p = lemma_first_best(init, device_type);
        assert(init[p] == pool[p]);
        if pool[last].affinity(device_type) is Some && pool[last].affinity(device_type)->0
            < pool[p].affinity(device_type)->0 {
            assert forall|j: int| 0 <= j < last implies (#[trigger] pool[j].affinity(
                device_type,
            ) matches Some(score) ==> pool[last].affinity(device_type)->0 < score) by {
                assert(init[j] == pool[j]);
                if j != p && init[j].affinity(device_type) is Some {
                    assert(init[p].affinity(device_type)->0 <= init[j].affinity(device_type)->0);
                }
            }
            last
        } else {
            assert forall|j: int| 0 <= j < p implies (#[trigger] pool[j].affinity(
                device_type,
            ) matches Some(score) ==> pool[p].affinity(device_type)->0 < score) by {
                assert(init[j] == pool[j]);
            }
            assert forall|j: int| p < j < pool.len() implies (#[trigger] pool[j].affinity(
                device_type,
            ) matches Some(score) ==> pool[p].affinity(device_type)->0 <= score) by {
                if j < last {
                    assert(init[j] == pool[j]);
                }
            }
            p
        }
    } else {
        let j = choose|j: int| 0 <= j < pool.len() && #[trigger] pool[j].affinity(device_type) is Some;
        if j < last {
            assert(init[j] == pool[j]);
            assert(init[j].affinity(device_type) is Some);
        }
        assert forall|k: int| 0 <= k < last implies (#[trigger] pool[k].affinity(
            device_type,
        ) matches Some(score) ==> pool[last].affinity(device_type)->0 < score) by {
            assert(init[k] == pool[k]);
            assert(init[k].affinity(device_type) is None);
        }
        last
    }
}

/// A slot finds a device exactly when some device of the pool fits, and then
/// it is the device that `is_pick` singles out: one with the lowest score,
/// and the first of those.
pub proof fn law_pick(pool: Seq<InputDeviceView>, device_type: InputDeviceType)
    ensures
        pick(pool, device_type) is Some <==> exists|j: int|
            0 <= j < pool.len() && #[trigger] pool[j].affinity(device_type) is Some,
        forall|index: int|
            pick(pool, device_type) == Some(index) <==> is_pick(pool, device_type, index),
{
    if exists|j: int| 0 <= j < pool.len() && #[trigger] pool[j].affinity(device_type) is Some {
        let index = lemma_first_best(pool, device_type);
        lemma_pick_found(pool, device_type, index);
    } else {
        lemma_pick_none(pool, device_type);
    }
    assert forall|index: int|
        pick(pool, device_type) == Some(index) <==> is_pick(pool, device_type, index) by {
        if is_pick(pool, device_type, index) {
            lemma_pick_found(pool, device_type, index);
        }
    }
}

/// Of two devices that fit a slot equally well, the one further back in the
/// pool is never the one chosen; and when no device scores lower and none
/// before scores the same, the one in front is.
pub proof fn law_tie_break(
    pool: Seq<InputDeviceView>,
    device_type: InputDeviceType,
    earlier: int,
    later: int,
)
    requires
        0 <= earlier < later < pool.len(),
        pool[earlier].affinity(device_type) is Some,
        pool[earlier].affinity(device_type) == pool[later].affinity(device_type),
    ensures
        pick(pool, device_type) is Some,
        pick(pool, device_type) != Some(later),
        (forall|j: int|
            0 <= j < pool.len() ==> (#[trigger] pool[j].affinity(device_type) matches Some(score)
                ==> pool[earlier].affinity(device_type)->0 <= score && (j < earlier
                ==> pool[earlier].affinity(device_type)->0 < score))) ==> pick(pool, device_type)
            == Some(earlier),
{
    law_pick(pool, device_type);
    if is_pick(pool, device_type, later) {
        assert(pool[earlier].affinity(device_type) is Some);
    }
    if forall|j: int|
        0 <= j < pool.len() ==> (#[trigger] pool[j].affinity(device_type) matches Some(score)
            ==> pool[earlier].affinity(device_type)->0 <= score && (j < earlier
            ==> pool[earlier].affinity(device_type)->0 < score)) {
        assert(is_pick(pool, device_type, earlier));
    }
}

/// The score of a pool is the lowest score of its members.
pub proof fn law_pool_affinity_is_least(pool: Seq<InputDeviceView>, device_type: InputDeviceType)
    ensures
        match pool_affinity(pool, device_type) {
            Some(least) => {
                &&& exists|j: int|
                    0 <= j < pool.len() && #[trigger] pool[j].affinity(device_type) == Some(least)
                &&& forall|j: int|
                    0 <= j < pool.len() ==> (#[trigger] pool[j].affinity(device_type) matches Some(
                        score,
                    ) ==> least <= score)
            },
            None => forall|j: int|
                0 <= j < pool.len() ==> #[trigger] pool[j].affinity(device_type) is None,
        },
{
    law_pick(pool, device_type);
    match pick(pool, device_type) {
        Some(index) => {
            assert(is_pick(pool, device_type, index));
            assert(pool[index].affinity(device_type) == pool_affinity(pool, device_type));
        },
        None => {},
    }
}

/// What remains after later passes hand out more devices: the slots keep
/// their number, a filled slot stays filled with a device of its type, and
/// an empty slot stays empty.
proof fn lemma_absorb_surplus_slots(
    result: Seq<Option<InputDeviceView>>,
    remaining: Seq<InputDeviceView>,
    players: Seq<InputDeviceType>,
    slot: int,
)
    requires
        result.len() == players.len(),
        0 <= slot < players.len(),
        result[slot] matches Some(device) ==> device.device_type() == players[slot],
    ensures
        absorb_surplus(result, remaining, players).len() == players.len(),
        absorb_surplus(result, remaining, players)[slot] is Some <==> result[slot] is Some,
        absorb_surplus(result, remaining, players)[slot] matches Some(device)
            ==> device.device_type() == players[slot],
    decreases remaining.len(),
{
    let rest = split_remainder(remaining, players);
    if rest.len() < remaining.len() {
        let next = absorb(result, split_candidates(remaining, players));
        if let Some(device) = result[slot] {
            if let Some(surplus) = split_candidates(remaining, players)[slot] {
                law_combine_keeps_type(device, surplus);
            }
        }
        lemma_absorb_surplus_slots(next, rest, players, slot);
    }
}

/// Every player has a slot in the result, in the order of the players. A
/// slot is filled exactly when the first pass finds a device for it: later
/// passes fill no slot that the first left empty. And a filled slot holds a
/// device of the type that its player asked for.
pub proof fn law_assignment_slots(
    pool: Seq<InputDeviceView>,
    players: Seq<InputDeviceType>,
    slot: int,
)
    requires
        0 <= slot < players.len(),
    ensures
        assignment(pool, players).len() == players.len(),
        assignment(pool, players)[slot] is Some <==> claimed(pool, players, slot) is Some,
        claimed(pool, players, slot) is Some <==> pick(
            unclaimed(pool, players, slot as nat),
            players[slot],
        ) is Some,
        assignment(pool, players)[slot] matches Some(device) ==> device.device_type()
            == players[slot],
{
    let first = split_candidates(pool, players);
    let before = unclaimed(pool, players, slot as nat);
    law_pick(before, players[slot]);
    match pick(before, players[slot]) {
        Some(index) => {
            assert(is_pick(before, players[slot], index));
            law_conversion_table(before[index], players[slot]);
        },
        None => {},
    }
    assert(first[slot] == claimed(pool, players, slot));
    lemma_absorb_surplus_slots(first, split_remainder(pool, players), players, slot);
}

/// Every pass hands a player a device of the type the player asked for, so
/// a filled slot only ever absorbs a device of its own type.
pub proof fn law_pass_hands_out_requested_type(
    pool: Seq<InputDeviceView>,
    players: Seq<InputDeviceType>,
    slot: int,
)
    requires
        0 <= slot < players.len(),
    ensures
        split_candidates(pool, players)[slot] matches Some(device) ==> device.device_type()
            == players[slot],
{
    let before = unclaimed(pool, players, slot as nat);
    match pick(before, players[slot]) {
        Some(index) => {
            law_conversion_table(before[index], players[slot]);
        },
        None => {},
    }
}

/// The number of slots that hold a device.
pub open spec fn filled_slots(slots: Seq<Option<InputDeviceView>>) -> nat
    decreases slots.len(),
{
    if slots.len() == 0 {
        0
    } else {
        filled_slots(slots.drop_last()) + if slots.last() is Some {
            1nat
        } else {
            0nat
        }
    }
}

/// After the first `slots` players have picked, every device of the pool is
/// either in one of their slots or still unclaimed.
proof fn lemma_picks_account_for_every_device(
    pool: Seq<InputDeviceView>,
    players: Seq<InputDeviceType>,
    slots: nat,
)
    requires
        slots <= players.len(),
    ensures
        unclaimed(pool, players, slots).len() + filled_slots(
            split_candidates(pool, players).take(slots as int),
        ) == pool.len(),
    decreases slots,
{
    let handed = split_candidates(pool, players);
    if slots > 0 {
        let before = unclaimed(pool, players, (slots - 1) as nat);
        lemma_picks_account_for_every_device(pool, players, (slots - 1) as nat);
        assert(handed.take(slots as int).drop_last() =~= handed.take(slots - 1));
        assert(handed.take(slots as int).last() == claimed(pool, players, slots - 1));
        law_pick(before, players[slots - 1]);
        match pick(before, players[slots - 1]) {
            Some(index) => {
                assert(is_pick(before, players[slots - 1], index));
                law_conversion_table(before[index], players[slots - 1]);
            },
            None => {},
        }
    } else {
        assert(handed.take(0) =~= Seq::<Option<InputDeviceView>>::empty());
    }
}

/// A pass neither loses nor invents a device: each device of the pool fills
/// exactly one slot or is left in the remainder.
pub proof fn law_pass_accounts_for_every_device(
    pool: Seq<InputDeviceView>,
    players: Seq<InputDeviceType>,
)
    ensures
        split_remainder(pool, players).len() + filled_slots(split_candidates(pool, players))
            == pool.len(),
{
    lemma_picks_account_for_every_device(pool, players, players.len());
    assert(split_candidates(pool, players).take(players.len() as int) =~= split_candidates(
        pool,
        players,
    ));
}

/// A device that the first `later` players left unclaimed was unclaimed
/// after the first `earlier` of them too.
proof fn lemma_unclaimed_shrinks(
    pool: Seq<InputDeviceView>,
    players: Seq<InputDeviceType>,
    earlier: nat,
    later: nat,
    device: InputDeviceView,
)
    requires
        earlier <= later,
        unclaimed(pool, players, later).contains(device),
    ensures
        unclaimed(pool, players, earlier).contains(device),
    decreases later,
{
    if earlier < later {
        let before = unclaimed(pool, players, (later - 1) as nat);
        let after = unclaimed(pool, players, later);
        match pick(before, players[later - 1]) {
            Some(index) => {
                assert(is_pick(before, players[later - 1], index));
                let k = choose|k: int| 0 <= k < after.len() && after[k] == device;
                if k < index {
                    assert(before[k] == device);
                } else {
                    assert(before[k + 1] == device);
                }
            },
            None => {},
        }
        lemma_unclaimed_shrinks(pool, players, earlier, (later - 1) as nat, device);
    }
}

/// What a pass leaves is part of the pool it was made over.
pub proof fn law_remainder_within_pool(
    pool: Seq<InputDeviceView>,
    players: Seq<InputDeviceType>,
    device: InputDeviceView,
)
    requires
        split_remainder(pool, players).contains(device),
    ensures
        pool.contains(device),
{
    lemma_unclaimed_shrinks(pool, players, 0, players.len(), device);
}

/// A later pass, over any part of what the first pass left, claims a device
/// only for a slot that the first pass filled. So no device is claimed and
/// then dropped because its slot is empty: every surplus device is folded
/// into a slot or stays in the remainder.
pub proof fn law_surplus_goes_to_filled_slots(
    pool: Seq<InputDeviceView>,
    players: Seq<InputDeviceType>,
    surplus: Seq<InputDeviceView>,
    slot: int,
)
    requires
        0 <= slot < players.len(),
        forall|device: InputDeviceView| #[trigger]
            surplus.contains(device) ==> split_remainder(pool, players).contains(device),
    ensures
        split_candidates(surplus, players)[slot] is Some ==> split_candidates(
            pool,
            players,
        )[slot] is Some,
{
    let device_type = players[slot];
    let left_later = unclaimed(surplus, players, slot as nat);
    let left_first = unclaimed(pool, players, slot as nat);
    if split_candidates(surplus, players)[slot] is Some {
        law_pick(left_later, device_type);
        let index = pick(left_later, device_type)->0;
        assert(is_pick(left_later, device_type, index));
        let device = left_later[index];
        assert(left_later.contains(device));
        lemma_unclaimed_shrinks(surplus, players, 0, slot as nat, device);
        assert(surplus.contains(device));
        lemma_unclaimed_shrinks(pool, players, slot as nat, players.len(), device);
        let k = choose|k: int| 0 <= k < left_first.len() && left_first[k] == device;
        assert(left_first[k].affinity(device_type) is Some);
        law_pick(left_first, device_type);
        let first_index = pick(left_first, device_type)->0;
        assert(is_pick(left_first, device_type, first_index));
        law_conversion_table(left_first[first_index], device_type);
    }
}

/// With no devices at all, every player is left without one.
pub proof fn law_empty_pool(players: Seq<InputDeviceType>, slot: int)
    requires
        0 <= slot < players.len(),
    ensures
        assignment(Seq::<InputDeviceView>::empty(), players)[slot] is None,
{
    let pool = Seq::<InputDeviceView>::empty();
    law_assignment_slots(pool, players, slot);
    crate::input::assignment::lemma_unclaimed_len(pool, players, slot as nat);
    law_pick(unclaimed(pool, players, slot as nat), players[slot]);
}

} // verus!
