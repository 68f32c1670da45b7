//! The ordered simulation pipeline: every registered stage runs exactly once
//! per pass, synchronously, in the fixed declared order below; queued
//! structural changes are committed by a single barrier at the end of the
//! pass. Most stages' internal algorithms (AI decisions, combat math,
//! line-of-sight) are outside this core: such a stage is declared here with
//! the contract that it leaves the core-visible state unchanged. The stages
//! the controller itself depends on — initiative, and the four inventory
//! stages that consume player intents — are implemented and verified.

use vstd::prelude::*;

use crate::components::{blank_rec, Entity, EntityRecord, Position, INITIATIVE_PERIOD};
use crate::state::RunState;
use crate::world::World;

verus! {

/// Whether the player's pending use-intent names a live item at slot `i`.
pub open spec fn names_use(pre: World, i: int) -> bool {
    pre.player_rec().wants_to_use matches Some(u) && u.item.0 == i
}

/// Whether the player's pending pickup-intent names slot `i`.
pub open spec fn names_pickup(pre: World, i: int) -> bool {
    pre.player_rec().wants_to_pickup matches Some(t) && t.0 == i
}

/// Whether the player's pending drop-intent names slot `i`.
pub open spec fn names_drop(pre: World, i: int) -> bool {
    pre.player_rec().wants_to_drop matches Some(t) && t.0 == i
}

/// Whether the player's pending remove-intent names slot `i`.
pub open spec fn names_remove(pre: World, i: int) -> bool {
    pre.player_rec().wants_to_remove matches Some(t) && t.0 == i
}

/// Whether any pending player intent names slot `i`.
pub open spec fn intent_names(pre: World, i: int) -> bool {
    ||| names_use(pre, i)
    ||| names_pickup(pre, i)
    ||| names_drop(pre, i)
    ||| names_remove(pre, i)
}

/// A record in the active working set that an intent can act on: a live
/// item, not frozen on another level. A stage finding anything else no-ops
/// for that intent rather than aborting the pass.
pub open spec fn live_item(e: EntityRecord) -> bool {
    &&& e.alive
    &&& e.is_item
    &&& e.other_level_position is None
}

/// A live, unfrozen item at a slot other than the player's: the condition
/// under which an intent naming it is acted on.
pub open spec fn live_item_at(pre: World, i: int) -> bool {
    &&& 0 <= i < pre.entities.len()
    &&& i != pre.player_ix()
    &&& live_item(pre.entities[i])
}

/// What picking an item up does to its record.
pub open spec fn picked_rec(e: EntityRecord, owner: Entity) -> EntityRecord {
    EntityRecord { in_backpack: Some(owner), position: None, ..e }
}

/// What dropping an item does to its record: it lands on the given cell.
pub open spec fn dropped_rec(e: EntityRecord, at: Option<Position>) -> EntityRecord {
    EntityRecord { in_backpack: None, position: at, ..e }
}

/// What unequipping an item does to its record: back into the owner's pack.
pub open spec fn removed_rec(e: EntityRecord, owner: Entity) -> EntityRecord {
    EntityRecord { equipped_by: None, in_backpack: Some(owner), ..e }
}

/// What one whole pass leaves at a non-player slot whose pre-pass record is
/// `e0`: the stages run in their declared order, each intent acting exactly
/// when its stage finds a live item in the expected place, and the barrier
/// commits the deletion of a used consumable last. Slots no intent names
/// pass through unchanged.
pub open spec fn pass_chain(pre: World, i: int, e0: EntityRecord) -> EntityRecord {
    let owner = pre.player_entity;
    let e1 = if names_pickup(pre, i) && live_item(e0) {
        picked_rec(e0, owner)
    } else {
        e0
    };
    let e3 = if names_drop(pre, i) && live_item(e1) && e1.in_backpack == Some(owner) {
        dropped_rec(e1, pre.player_rec().position)
    } else {
        e1
    };
    let e4 = if names_remove(pre, i) && live_item(e3) && e3.equipped_by == Some(owner) {
        removed_rec(e3, owner)
    } else {
        e3
    };
    if names_use(pre, i) && live_item(e1) && e1.consumable {
        blank_rec()
    } else {
        e4
    }
}

/// What one whole pass leaves at non-player slot `i`.
pub open spec fn pass_slot(pre: World, i: int) -> EntityRecord {
    pass_chain(pre, i, pre.entities[i])
}

/// Whether the pass uses a live magic-mapper item: the one case in which a
/// pipeline stage redirects the run state to the map-reveal animation.
pub open spec fn uses_magic_mapper(pre: World) -> bool {
    pre.player_rec().wants_to_use matches Some(u) && live_item_at(pre, u.item.0 as int)
        && pre.entities[u.item.0 as int].magic_mapper
}

/// The player's initiative after one pass: during `Ticking` it counts down,
/// and reaching zero resets it to a full period (the player's turn arrives);
/// outside `Ticking` the initiative stage does not run.
pub open spec fn pass_init(pre: World) -> u32 {
    if pre.run_state == RunState::Ticking {
        if pre.player_rec().initiative > 1 {
            (pre.player_rec().initiative - 1) as u32
        } else {
            INITIATIVE_PERIOD
        }
    } else {
        pre.player_rec().initiative
    }
}

/// The run state after one pass: during `Ticking` the initiative stage hands
/// control back to the player exactly when the countdown expires; using a
/// magic-mapper item redirects to the map-reveal animation in any case.
pub open spec fn pass_run_state(pre: World) -> RunState {
    if uses_magic_mapper(pre) {
        RunState::MagicMapReveal { row: 0 }
    } else if pre.run_state == RunState::Ticking {
        if pre.player_rec().initiative > 1 {
            RunState::Ticking
        } else {
            RunState::AwaitingInput
        }
    } else {
        pre.run_state
    }
}

/// What the pass leaves at a slot named only by the pickup intent.
pub open spec fn pickup_result(pre: World, i: int) -> EntityRecord {
    if live_item_at(pre, i) {
        EntityRecord {
            in_backpack: Some(pre.player_entity),
            position: None,
            ..pre.entities[i]
        }
    } else {
        pre.entities[i]
    }
}

/// What the pass leaves at a slot named only by the drop intent: an item in
/// the player's backpack lands on the player's cell.
pub open spec fn drop_result(pre: World, i: int) -> EntityRecord {
    if live_item_at(pre, i) && pre.entities[i].in_backpack == Some(pre.player_entity) {
        EntityRecord { in_backpack: None, position: pre.player_rec().position, ..pre.entities[i] }
    } else {
        pre.entities[i]
    }
}

/// What the pass leaves at a slot named only by the remove intent: an item
/// equipped by the player goes back into the player's backpack.
pub open spec fn remove_result(pre: World, i: int) -> EntityRecord {
    if live_item_at(pre, i) && pre.entities[i].equipped_by == Some(pre.player_entity) {
        EntityRecord {
            equipped_by: None,
            in_backpack: Some(pre.player_entity),
            ..pre.entities[i]
        }
    } else {
        pre.entities[i]
    }
}

/// Spatial indexing (blocking/occupancy caches); its algorithm is outside
/// this core and it leaves the core-visible state unchanged.
pub fn map_indexing_system(w: &mut World)
    ensures
        *final(w) == *old(w),
{
}

/// Visibility computation; outside this core.
pub fn visibility_system(w: &mut World)
    ensures
        *final(w) == *old(w),
{
}

/// Turn and initiative bookkeeping. During `Ticking` the player's countdown
/// advances by one pass; when it expires the stage resets it to a full
/// period and hands control back to the player (`AwaitingInput`).
pub fn initiative_system(w: &mut World)
    requires
        old(w).wf(),
    ensures
        final(w).wf(),
        final(w).entities.len() == old(w).entities.len(),
        final(w).map == old(w).map,
        final(w).dungeon == old(w).dungeon,
        final(w).log == old(w).log,
        final(w).player_entity == old(w).player_entity,
        final(w).pending_deletes == old(w).pending_deletes,
        final(w).run_state == (if old(w).run_state == RunState::Ticking && old(w).player_rec().initiative <= 1 {
            RunState::AwaitingInput
        } else {
            old(w).run_state
        }),
        final(w).player_rec() == (EntityRecord {
            initiative: pass_init(*old(w)),
            ..old(w).player_rec()
        }),
        forall|i: int|
            0 <= i < old(w).entities.len() && i != old(w).player_ix() ==> final(w).entities[i]
                == old(w).entities[i],
    {
        if !matches!(w.run_state, RunState::Ticking) {
            return ;
        }
        let p = w.player_entity.0;
        let mut r = w.entities[p].clone_rec();
        if r.initiative > 1 {
            r.initiative = r.initiative - 1;
        } else {
            r.initiative = INITIATIVE_PERIOD;
            w.run_state = RunState::AwaitingInput;
        }
        w.entities.set(p, r);
    }

/// Turn-status upkeep; outside this core.
pub fn turn_status_system(w: &mut World)
    ensures
        *final(w) == *old(w),
{
}

/// Dialogue quips; outside this core.
pub fn quip_system(w: &mut World)
    ensures
        *final(w) == *old(w),
{
}

/// Adjacent-enemy AI decisions; outside this core.
pub fn adjacent_ai_system(w: &mut World)
    ensures
        *final(w) == *old(w),
{
}

/// Approach AI decisions; outside this core.
pub fn approach_ai_system(w: &mut World)
    ensures
        *final(w) == *old(w),
{
}

/// Flee AI decisions; outside this core.
pub fn flee_ai_system(w: &mut World)
    ensures
        *final(w) == *old(w),
{
}

/// Visible-target AI decisions; outside this core.
pub fn visible_ai_system(w: &mut World)
    ensures
        *final(w) == *old(w),
{
}

/// Default-movement AI decisions; outside this core.
pub fn default_move_ai_system(w: &mut World)
    ensures
        *final(w) == *old(w),
{
}

/// Trap and trigger resolution; outside this core.
pub fn trigger_system(w: &mut World)
    ensures
        *final(w) == *old(w),
{
}

/// Melee combat resolution; outside this core.
pub fn melee_combat_system(w: &mut World)
    ensures
        *final(w) == *old(w),
{
}

/// Damage application; outside this core.
pub fn damage_system(w: &mut World)
    ensures
        *final(w) == *old(w),
{
}

/// Pickup stage: consumes the player's pickup intent; a live item it names
/// moves into the player's backpack and off the map. A missing or dead item
/// is a no-op for that entity, never an abort.
pub fn item_collection_system(w: &mut World)
    requires
        old(w).wf(),
    ensures
        final(w).wf(),
        final(w).entities.len() == old(w).entities.len(),
        final(w).map == old(w).map,
        final(w).dungeon == old(w).dungeon,
        final(w).log == old(w).log,
        final(w).player_entity == old(w).player_entity,
        final(w).pending_deletes == old(w).pending_deletes,
        final(w).run_state == old(w).run_state,
        final(w).player_rec() == (EntityRecord {
            wants_to_pickup: None,
            ..old(w).player_rec()
        }),
        forall|i: int|
            0 <= i < old(w).entities.len() && i != old(w).player_ix() && !names_pickup(
                *old(w),
                i,
            ) ==> final(w).entities[i] == old(w).entities[i],
        forall|i: int|
            0 <= i < old(w).entities.len() && i != old(w).player_ix() && names_pickup(
                *old(w),
                i,
            ) ==> final(w).entities[i] == pickup_result(*old(w), i),
    {
        let p = w.player_entity.0;
        let intent = w.entities[p].wants_to_pickup;
        match intent {
            None => {},
            Some(item) => {
                let mut r = w.entities[p].clone_rec();
                r.wants_to_pickup = None;
                w.entities.set(p, r);
                if item.0 < w.entities.len() && item.0 != p && w.entities[item.0].alive
                    && w.entities[item.0].is_item
                    && w.entities[item.0].other_level_position.is_none() {
                    let mut it = w.entities[item.0].clone_rec();
                    it.in_backpack = Some(w.player_entity);
                    it.position = None;
                    w.entities.set(item.0, it);
                }
            },
        }
    }

/// Use stage: consumes the player's use intent. Using a live magic-mapper
/// item redirects the run state to the row-by-row map reveal; a consumable
/// is queued for deletion, committed by the end-of-pass barrier. A missing
/// or dead item is a no-op, never an abort.
pub fn item_use_system(w: &mut World)
    requires
        old(w).wf(),
    ensures
        final(w).wf(),
        final(w).entities.len() == old(w).entities.len(),
        final(w).map == old(w).map,
        final(w).dungeon == old(w).dungeon,
        final(w).log == old(w).log,
        final(w).player_entity == old(w).player_entity,
        final(w).run_state == (if uses_magic_mapper(*old(w)) {
            RunState::MagicMapReveal { row: 0 }
        } else {
            old(w).run_state
        }),
        final(w).player_rec() == (EntityRecord { wants_to_use: None, ..old(w).player_rec() }),
        forall|i: int|
            0 <= i < old(w).entities.len() && i != old(w).player_ix() ==> final(w).entities[i]
                == old(w).entities[i],
        final(w).pending_deletes@ == (if (old(w).player_rec().wants_to_use matches Some(u)
            && live_item_at(*old(w), u.item.0 as int) && old(w).entities[u.item.0 as int].consumable) {
            old(w).pending_deletes@.push(old(w).player_rec().wants_to_use->Some_0.item)
        } else {
            old(w).pending_deletes@
        }),
        forall|k: int|
            0 <= k < final(w).pending_deletes.len() ==> old(w).pending_deletes@.contains(
                #[trigger] final(w).pending_deletes[k],
            ) || (final(w).pending_deletes[k].0 < final(w).entities.len() && final(w).pending_deletes[k].0 != final(w).player_entity.0),
    {
        let p = w.player_entity.0;
        let intent = w.entities[p].wants_to_use;
        match intent {
            None => {},
            Some(u) => {
                let mut r = w.entities[p].clone_rec();
                r.wants_to_use = None;
                w.entities.set(p, r);
                let item = u.item;
                if item.0 < w.entities.len() && item.0 != p && w.entities[item.0].alive
                    && w.entities[item.0].is_item
                    && w.entities[item.0].other_level_position.is_none() {
                    if w.entities[item.0].magic_mapper {
                        w.run_state = RunState::MagicMapReveal { row: 0 };
                    }
                    if w.entities[item.0].consumable {
                        w.pending_deletes.push(item);
                    }
                }
            },
        }
    }

/// Drop stage: consumes the player's drop intent; an item it names that sits
/// in the player's backpack lands on the player's cell. A missing or dead
/// item is a no-op, never an abort.
pub fn item_drop_system(w: &mut World)
    requires
        old(w).wf(),
    ensures
        final(w).wf(),
        final(w).entities.len() == old(w).entities.len(),
        final(w).map == old(w).map,
        final(w).dungeon == old(w).dungeon,
        final(w).log == old(w).log,
        final(w).player_entity == old(w).player_entity,
        final(w).pending_deletes == old(w).pending_deletes,
        final(w).run_state == old(w).run_state,
        final(w).player_rec() == (EntityRecord { wants_to_drop: None, ..old(w).player_rec() }),
        forall|i: int|
            0 <= i < old(w).entities.len() && i != old(w).player_ix() && !names_drop(
                *old(w),
                i,
            ) ==> final(w).entities[i] == old(w).entities[i],
        forall|i: int|
            0 <= i < old(w).entities.len() && i != old(w).player_ix() && names_drop(
                *old(w),
                i,
            ) ==> final(w).entities[i] == drop_result(*old(w), i),
    {
        let p = w.player_entity.0;
        let intent = w.entities[p].wants_to_drop;
        match intent {
            None => {},
            Some(item) => {
                let player_pos = w.entities[p].position;
                let mut r = w.entities[p].clone_rec();
                r.wants_to_drop = None;
                w.entities.set(p, r);
                if item.0 < w.entities.len() && item.0 != p && w.entities[item.0].alive
                    && w.entities[item.0].is_item
                    && w.entities[item.0].other_level_position.is_none() {
                    let owned = match w.entities[item.0].in_backpack {
                        Some(o) => o.0 == p,
                        None => false,
                    };
                    if owned {
                        let mut it = w.entities[item.0].clone_rec();
                        it.in_backpack = None;
                        it.position = player_pos;
                        w.entities.set(item.0, it);
                    }
                }
            },
        }
    }

/// Remove-equipment stage: consumes the player's unequip intent; an item it
/// names that the player has equipped goes back into the player's backpack.
pub fn item_remove_system(w: &mut World)
    requires
        old(w).wf(),
    ensures
        final(w).wf(),
        final(w).entities.len() == old(w).entities.len(),
        final(w).map == old(w).map,
        final(w).dungeon == old(w).dungeon,
        final(w).log == old(w).log,
        final(w).player_entity == old(w).player_entity,
        final(w).pending_deletes == old(w).pending_deletes,
        final(w).run_state == old(w).run_state,
        final(w).player_rec() == (EntityRecord {
            wants_to_remove: None,
            ..old(w).player_rec()
        }),
        forall|i: int|
            0 <= i < old(w).entities.len() && i != old(w).player_ix() && !names_remove(
                *old(w),
                i,
            ) ==> final(w).entities[i] == old(w).entities[i],
        forall|i: int|
            0 <= i < old(w).entities.len() && i != old(w).player_ix() && names_remove(
                *old(w),
                i,
            ) ==> final(w).entities[i] == remove_result(*old(w), i),
    {
        let p = w.player_entity.0;
        let intent = w.entities[p].wants_to_remove;
        match intent {
            None => {},
            Some(item) => {
                let mut r = w.entities[p].clone_rec();
                r.wants_to_remove = None;
                w.entities.set(p, r);
                if item.0 < w.entities.len() && item.0 != p && w.entities[item.0].alive
                    && w.entities[item.0].is_item
                    && w.entities[item.0].other_level_position.is_none() {
                    let equipped = match w.entities[item.0].equipped_by {
                        Some(o) => o.0 == p,
                        None => false,
                    };
                    if equipped {
                        let mut it = w.entities[item.0].clone_rec();
                        it.equipped_by = None;
                        it.in_backpack = Some(w.player_entity);
                        w.entities.set(item.0, it);
                    }
                }
            },
        }
    }

/// Hunger-clock tick; outside this core.
pub fn hunger_system(w: &mut World)
    ensures
        *final(w) == *old(w),
{
}

/// Particle-effect spawning; outside this core.
pub fn particle_spawn_system(w: &mut World)
    ensures
        *final(w) == *old(w),
{
}

/// Lighting recomputation; outside this core.
pub fn lighting_system(w: &mut World)
    ensures
        *final(w) == *old(w),
{
}

} // verus!
