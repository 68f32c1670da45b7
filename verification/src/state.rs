//! The game state machine: the `RunState` phases, the per-frame collaborator
//! answers, and the top-level controller that drives one transition per
//! rendered frame.

use vstd::prelude::*;

use crate::components::{
    reaped_rec, culled_rec, thawed_rec, frozen_rec, blank_rec, Entity, EntityRecord, GameLog,
    Position, UseIntent, INITIATIVE_PERIOD,
};
use crate::gui::{
    CheatMenuResult, GameOverResult, ItemMenuResult, MainMenuResult, MainMenuSelection,
};
use crate::map::{map_eq, GameMap, MasterDungeonMap, MAX_DEPTH};
use crate::map_builders;
use crate::pipeline::{
    adjacent_ai_system, approach_ai_system, damage_system, default_move_ai_system, flee_ai_system,
    hunger_system, initiative_system, intent_names, item_collection_system, item_drop_system,
    item_remove_system, item_use_system, lighting_system, map_indexing_system,
    dropped_rec, live_item, melee_combat_system, names_drop, names_pickup, names_remove, names_use,
    particle_spawn_system, pass_chain, pass_init, pass_slot, picked_rec, removed_rec,
    pass_run_state, quip_system, trigger_system, turn_status_system, uses_magic_mapper,
    visibility_system, visible_ai_system,
};
use crate::saveload::{dungeon_eq, load_game, save_game, SavedGame};
use crate::world::{same_but_entities, World};

verus! {

/// Milliseconds between two replay-cursor advances.
pub const MAPGEN_TIMER_MS: u32 = 40;

/// Side length of a generated level.
pub const MAP_WIDTH: usize = 64;

/// Height of a generated level.
pub const MAP_HEIGHT: usize = 64;

/// The controller's current phase. Exactly one value is live at a time, held
/// as a singleton resource in the world store.
#[derive(Clone, Copy, PartialEq, Eq, Structural, Debug)]
pub enum RunState {
    AwaitingInput,
    PreRun,
    Ticking,
    ShowInventory,
    ShowDropItem,
    ShowTargeting { range: i32, item: Entity },
    MainMenu { menu_selection: MainMenuSelection },
    SaveGame,
    NextLevel,
    PreviousLevel,
    ShowRemoveItem,
    GameOver,
    MagicMapReveal { row: usize },
    MapGeneration,
    ShowCheatMenu,
}

/// The states the input collaborator may answer with from `AwaitingInput`:
/// anything except the phases only the controller itself may enter.
pub open spec fn input_state_ok(rs: RunState) -> bool {
    match rs {
        RunState::AwaitingInput => true,
        RunState::Ticking => true,
        RunState::ShowInventory => true,
        RunState::ShowDropItem => true,
        RunState::ShowRemoveItem => true,
        RunState::SaveGame => true,
        RunState::NextLevel => true,
        RunState::PreviousLevel => true,
        RunState::ShowCheatMenu => true,
        RunState::MainMenu { .. } => true,
        RunState::GameOver => true,
        _ => false,
    }
}

/// What the collaborators (input, menus, clock) answered for one frame.
pub struct FrameInput {
    /// Time since the previous frame, in milliseconds.
    pub frame_time_ms: u32,
    /// The input collaborator's answer, consulted from `AwaitingInput`.
    pub input: RunState,
    /// The inventory/drop/remove menu's answer and selection.
    pub item_menu: ItemMenuResult,
    pub item_menu_choice: Option<Entity>,
    /// The targeting overlay's answer and chosen cell.
    pub target_menu: ItemMenuResult,
    pub target_choice: Option<Position>,
    pub main_menu: MainMenuResult,
    pub game_over: GameOverResult,
    pub cheat_menu: CheatMenuResult,
}

impl FrameInput {
    /// The collaborators' contract: sane frame time, an allowed input state,
    /// and a selection accompanying every `Selected` answer.
    pub open spec fn wf(self) -> bool {
        &&& self.frame_time_ms <= 1_000_000
        &&& input_state_ok(self.input)
        &&& (self.item_menu == ItemMenuResult::Selected ==> self.item_menu_choice is Some)
        &&& (self.target_menu == ItemMenuResult::Selected ==> self.target_choice is Some)
    }
}

/// Whether the frame asked the process to keep running or to quit.
#[derive(Clone, Copy, PartialEq, Eq, Structural, Debug)]
pub enum TickSignal {
    Continue,
    Quit,
}

/// A state the generation replay may hand control to once it finishes.
pub open spec fn next_state_ok(rs: RunState) -> bool {
    match rs {
        RunState::PreRun => true,
        RunState::AwaitingInput => true,
        RunState::MainMenu { .. } => true,
        _ => false,
    }
}

/// What one frame's cull plus end-of-frame reap leave of a record that no
/// branch action touches.
pub open spec fn frame_rec(e: EntityRecord, ms: u32) -> EntityRecord {
    reaped_rec(culled_rec(e, ms))
}

/// The game: the world store plus the state owned by the controller itself —
/// the generation-replay buffer, the game-over latch and the save slot.
pub struct State {
    pub ecs: World,
    /// The state scheduled to run once generation replay completes.
    pub mapgen_next_state: Option<RunState>,
    /// Snapshots captured by the most recent generation, earliest first.
    pub mapgen_history: Vec<GameMap>,
    /// Replay cursor into the history.
    pub mapgen_index: usize,
    /// Elapsed time against the replay threshold, in milliseconds.
    pub mapgen_timer: u32,
    /// Whether generation replay is visualized at all.
    pub show_mapgen_visualizer: bool,
    /// Whether the game-over cleanup already ran for the current game over.
    pub game_over_done: bool,
    /// The single named save slot.
    pub save_slot: Option<SavedGame>,
}

impl State {
    /// Controller consistency on top of world well-formedness: no queued
    /// structural change is pending between frames, the replay cursor and
    /// timer are in range, a map-reveal row lies on the map, and a replay in
    /// progress always has a scheduled next state.
    pub open spec fn wf(self) -> bool {
        &&& self.ecs.wf()
        &&& self.ecs.entities_consistent()
        &&& self.ecs.pending_deletes.len() == 0
        &&& self.mapgen_index <= self.mapgen_history.len()
        &&& self.mapgen_timer <= MAPGEN_TIMER_MS
        &&& (self.ecs.run_state matches RunState::MagicMapReveal { row } ==> row + 2
            <= self.ecs.map.height)
        &&& (self.ecs.run_state == RunState::MapGeneration ==> self.mapgen_next_state is Some)
        &&& (self.mapgen_next_state matches Some(s) ==> next_state_ok(s))
        &&& (self.save_slot matches Some(s) ==> s.wf())
    }

    /// Runs every registered stage exactly once, in the fixed declared order,
    /// then commits queued deletions at the single end-of-pass barrier.
    /// The pass consumes every pending player intent; during `Ticking` the
    /// player's initiative advances and control returns to the player when it
    /// expires; a used magic-mapper item redirects to the map reveal.
    pub fn run_systems(&mut self)
        requires
            old(self).ecs.wf(),
            old(self).ecs.entities_consistent(),
            old(self).ecs.pending_deletes.len() == 0,
        ensures
            final(self).ecs.wf(),
            final(self).ecs.entities_consistent(),
            final(self).ecs.pending_deletes.len() == 0,
            final(self).ecs.map == old(self).ecs.map,
            final(self).ecs.dungeon == old(self).ecs.dungeon,
            final(self).ecs.log == old(self).ecs.log,
            final(self).ecs.player_entity == old(self).ecs.player_entity,
            final(self).ecs.entities.len() == old(self).ecs.entities.len(),
            final(self).ecs.run_state == pass_run_state(old(self).ecs),
            final(self).ecs.player_rec() == (EntityRecord {
                initiative: pass_init(old(self).ecs),
                wants_to_pickup: None,
                wants_to_use: None,
                wants_to_drop: None,
                wants_to_remove: None,
                ..old(self).ecs.player_rec()
            }),
            forall|i: int|
                0 <= i < old(self).ecs.entities.len() && i != old(self).ecs.player_ix()
                    && !intent_names(old(self).ecs, i) ==> final(self).ecs.entities[i] == old(self).ecs.entities[i],
            forall|i: int|
                0 <= i < old(self).ecs.entities.len() && i != old(self).ecs.player_ix()
                    ==> final(self).ecs.entities[i] == pass_slot(old(self).ecs, i),
            final(self).mapgen_next_state == old(self).mapgen_next_state,
            final(self).mapgen_history == old(self).mapgen_history,
            final(self).mapgen_index == old(self).mapgen_index,
            final(self).mapgen_timer == old(self).mapgen_timer,
            final(self).show_mapgen_visualizer == old(self).show_mapgen_visualizer,
            final(self).game_over_done == old(self).game_over_done,
            final(self).save_slot == old(self).save_slot,
    {
        let ghost w0 = self.ecs;
        map_indexing_system(&mut self.ecs);
        visibility_system(&mut self.ecs);
        initiative_system(&mut self.ecs);
        turn_status_system(&mut self.ecs);
        quip_system(&mut self.ecs);
        adjacent_ai_system(&mut self.ecs);
        approach_ai_system(&mut self.ecs);
        flee_ai_system(&mut self.ecs);
        visible_ai_system(&mut self.ecs);
        approach_ai_system(&mut self.ecs);
        default_move_ai_system(&mut self.ecs);
        trigger_system(&mut self.ecs);
        melee_combat_system(&mut self.ecs);
        damage_system(&mut self.ecs);
        let ghost w1 = self.ecs;
        item_collection_system(&mut self.ecs);
        let ghost w2 = self.ecs;
        proof {
            assert(w1.player_rec().wants_to_use == w0.player_rec().wants_to_use);
            assert(w2.player_rec().wants_to_use == w0.player_rec().wants_to_use);
            assert(uses_magic_mapper(w2) == uses_magic_mapper(w0)) by {
                match w0.player_rec().wants_to_use {
                    Some(u) => {
                        let ii = u.item.0 as int;
                        if 0 <= ii < w0.entities.len() && ii != w0.player_ix() {
                            if names_pickup(w1, ii) {
                                assert(w2.entities[ii] == crate::pipeline::pickup_result(w1, ii));
                            } else {
                                assert(w2.entities[ii] == w1.entities[ii]);
                            }
                        }
                    },
                    None => {},
                }
            }
        }
        item_use_system(&mut self.ecs);
        let ghost w3 = self.ecs;
        item_drop_system(&mut self.ecs);
        let ghost w4 = self.ecs;
        item_remove_system(&mut self.ecs);
        hunger_system(&mut self.ecs);
        particle_spawn_system(&mut self.ecs);
        let ghost w5 = self.ecs;
        proof {
            assert(w5.run_state == pass_run_state(w0));
            assert(w1.player_rec().wants_to_pickup == w0.player_rec().wants_to_pickup);
            assert(w3.player_rec().wants_to_drop == w0.player_rec().wants_to_drop);
            assert(w4.player_rec().wants_to_remove == w0.player_rec().wants_to_remove);
            assert forall|i: int|
                0 <= i < w0.entities.len() && i != w0.player_ix() && !intent_names(w0, i) implies w5
                .entities[i] == w0.entities[i] by {
                assert(!names_pickup(w1, i));
                assert(w2.entities[i] == w1.entities[i]);
                assert(w3.entities[i] == w2.entities[i]);
                assert(!names_drop(w3, i));
                assert(w4.entities[i] == w3.entities[i]);
                assert(!names_remove(w4, i));
                assert(w5.entities[i] == w4.entities[i]);
            }
        }
        lighting_system(&mut self.ecs);
        self.ecs.maintain();
        proof {
            assert forall|i: int|
                0 <= i < w0.entities.len() && i != w0.player_ix() && !intent_names(w0, i) implies
                self.ecs.entities[i] == w0.entities[i] by {
                if crate::world::pending_hits(w5.pending_deletes@, i) {
                    let k = choose|k: int|
                        0 <= k < w5.pending_deletes@.len() && w5.pending_deletes@[k].0 == i;
                    assert(false);
                }
            }
            assert(w3.player_rec().position == w0.player_rec().position);
            assert forall|i: int|
                0 <= i < w0.entities.len() && i != w0.player_ix() implies self.ecs.entities[i]
                == pass_slot(w0, i) by {
                let owner = w0.player_entity;
                let e0 = w0.entities[i];
                assert(w1.entities[i] == e0);
                assert(names_pickup(w1, i) == names_pickup(w0, i));
                let e1 = if names_pickup(w0, i) && live_item(e0) {
                    picked_rec(e0, owner)
                } else {
                    e0
                };
                if names_pickup(w0, i) {
                    assert(w2.entities[i] == crate::pipeline::pickup_result(w1, i));
                    assert(w2.entities[i] == e1);
                } else {
                    assert(w2.entities[i] == e1);
                }
                assert(w3.entities[i] == e1);
                assert(names_drop(w3, i) == names_drop(w0, i));
                let e3 = if names_drop(w0, i) && live_item(e1) && e1.in_backpack == Some(owner) {
                    dropped_rec(e1, w0.player_rec().position)
                } else {
                    e1
                };
                if names_drop(w0, i) {
                    assert(w4.entities[i] == crate::pipeline::drop_result(w3, i));
                    assert(w4.entities[i] == e3);
                } else {
                    assert(w4.entities[i] == e3);
                }
                assert(names_remove(w4, i) == names_remove(w0, i));
                let e4 = if names_remove(w0, i) && live_item(e3) && e3.equipped_by == Some(
                    owner,
                ) {
                    removed_rec(e3, owner)
                } else {
                    e3
                };
                if names_remove(w0, i) {
                    assert(w5.entities[i] == crate::pipeline::remove_result(w4, i));
                    assert(w5.entities[i] == e4);
                } else {
                    assert(w5.entities[i] == e4);
                }
                if names_use(w0, i) && live_item(e1) && e1.consumable {
                    assert(w3.pending_deletes@ == w2.pending_deletes@.push(
                        w0.player_rec().wants_to_use->Some_0.item,
                    ));
                    assert(w5.pending_deletes@[0].0 == i);
                    assert(crate::world::pending_hits(w5.pending_deletes@, i));
                    assert(self.ecs.entities[i] == blank_rec());
                    assert(self.ecs.entities[i] == pass_slot(w0, i));
                } else {
                    if crate::world::pending_hits(w5.pending_deletes@, i) {
                        let k = choose|k: int|
                            0 <= k < w5.pending_deletes@.len() && w5.pending_deletes@[k].0 == i;
                        assert(k == 0);
                        assert(names_use(w0, i));
                        assert(false);
                    }
                    assert(self.ecs.entities[i] == e4);
                    assert(self.ecs.entities[i] == pass_slot(w0, i));
                }
            }
            assert forall|i: int|
                0 <= i < self.ecs.entities.len() implies ((#[trigger] self.ecs.entities[i]).alive
                ==> ((self.ecs.entities[i].other_level_position matches Some(m)
                ==> self.ecs.dungeon.has_depth(m.depth as int)) && !(self.ecs.entities[i].position
                is Some && self.ecs.entities[i].other_level_position is Some))) by {
                if i != w0.player_ix() {
                    assert(self.ecs.entities[i] == pass_slot(w0, i));
                    assert(w0.entities[i].alive ==> ((w0.entities[i].other_level_position
                        matches Some(m) ==> w0.dungeon.has_depth(m.depth as int)) && !(
                    w0.entities[i].position is Some && w0.entities[i].other_level_position
                        is Some)));
                }
            }
            assert forall|i: int|
                0 <= i < self.ecs.entities.len() implies !((#[trigger] self.ecs.entities[i]).alive
                && (self.ecs.entities[i].other_level_position matches Some(m) && m.depth
                == self.ecs.map.depth)) by {
                if i != w0.player_ix() {
                    assert(self.ecs.entities[i] == pass_slot(w0, i));
                    assert(!(w0.entities[i].alive && (w0.entities[i].other_level_position
                        matches Some(m) && m.depth == w0.map.depth)));
                }
            }
            assert(self.ecs.entities_consistent());
        }
    }

    /// Resets the replay buffer and installs the level of the given depth:
    /// a depth already in the registry is reactivated (its map swapped in,
    /// its entities thawed, no replay produced); a new depth is built by the
    /// map-building collaborator, stored in the registry, and its generation
    /// history retained for replay. Either way the player stands on the new
    /// level's start cell afterwards.
    pub fn generate_world_map(&mut self, new_depth: i32, offset: i32)
        requires
            old(self).ecs.wf(),
            old(self).ecs.markers_sound(),
            old(self).ecs.pending_deletes.len() == 0,
            1 <= new_depth <= MAX_DEPTH,
        ensures
            final(self).ecs.wf(),
            final(self).ecs.entities_consistent(),
            final(self).ecs.pending_deletes.len() == 0,
            final(self).mapgen_index == 0,
            final(self).mapgen_timer == 0,
            final(self).ecs.map.depth == new_depth,
            final(self).ecs.player_entity == old(self).ecs.player_entity,
            final(self).ecs.run_state == old(self).ecs.run_state,
            final(self).ecs.log == old(self).ecs.log,
            final(self).mapgen_next_state == old(self).mapgen_next_state,
            final(self).show_mapgen_visualizer == old(self).show_mapgen_visualizer,
            final(self).game_over_done == old(self).game_over_done,
            final(self).save_slot == old(self).save_slot,
            final(self).ecs.entities.len() == old(self).ecs.entities.len(),
            old(self).ecs.dungeon.has_depth(new_depth as int) ==> {
                &&& final(self).ecs.player_rec() == (EntityRecord {
                    position: Some(
                        Position {
                            x: final(self).ecs.map.start_x as i32,
                            y: final(self).ecs.map.start_y as i32,
                        },
                    ),
                    ..thawed_rec(old(self).ecs.player_rec(), new_depth)
                })
                &&& map_eq(final(self).ecs.map, old(self).ecs.dungeon.spec_get(new_depth as int))
                &&& final(self).mapgen_history.len() == 0
                &&& final(self).ecs.dungeon == old(self).ecs.dungeon
                &&& forall|i: int|
                    0 <= i < old(self).ecs.entities.len() && i != old(self).ecs.player_ix()
                        ==> final(self).ecs.entities[i] == thawed_rec(
                        old(self).ecs.entities[i],
                        new_depth,
                    )
            },
            !old(self).ecs.dungeon.has_depth(new_depth as int) ==> {
                &&& final(self).ecs.player_rec() == (EntityRecord {
                    position: Some(
                        Position {
                            x: final(self).ecs.map.start_x as i32,
                            y: final(self).ecs.map.start_y as i32,
                        },
                    ),
                    ..old(self).ecs.player_rec()
                })
                &&& final(self).mapgen_history.len() == 3
                &&& final(self).ecs.map.width == MAP_WIDTH
                &&& final(self).ecs.map.height == MAP_HEIGHT
                &&& final(self).ecs.dungeon.has_depth(new_depth as int)
                &&& map_eq(
                    final(self).ecs.dungeon.spec_get(new_depth as int),
                    final(self).ecs.map,
                )
                &&& forall|d: int|
                    d != new_depth ==> (final(self).ecs.dungeon.has_depth(d) <==> old(self).ecs.dungeon.has_depth(d))
                &&& final(self).ecs.dungeon.maps.len() == old(self).ecs.dungeon.maps.len() + 1
                &&& forall|d: int|
                    d != new_depth && old(self).ecs.dungeon.has_depth(d) ==> map_eq(
                        final(self).ecs.dungeon.spec_get(d),
                        old(self).ecs.dungeon.spec_get(d),
                    )
                &&& forall|i: int|
                    0 <= i < old(self).ecs.entities.len() && i != old(self).ecs.player_ix()
                        ==> final(self).ecs.entities[i] == old(self).ecs.entities[i]
            },
    {
        self.mapgen_index = 0;
        self.mapgen_timer = 0;
        self.mapgen_history = Vec::new();
        let existing = self.ecs.dungeon.get_map(new_depth);
        match existing {
            Some(m) => {
                self.ecs.map = m;
                self.ecs.thaw_level_entities();
            },
            None => {
                let built = map_builders::build(new_depth, MAP_WIDTH, MAP_HEIGHT);
                self.ecs.dungeon.store_map(&built.0);
                self.ecs.map = built.0;
                self.mapgen_history = built.1;
            },
        }
        proof {
            assert forall|i: int|
                0 <= i < self.ecs.entities.len() implies ((#[trigger] self.ecs.entities[i]).alive
                ==> ((self.ecs.entities[i].other_level_position matches Some(m2) ==> m2.depth
                != new_depth && self.ecs.dungeon.has_depth(m2.depth as int)) && !(
            self.ecs.entities[i].position is Some && self.ecs.entities[i].other_level_position
                is Some))) by {
                let pre = old(self).ecs.entities[i];
                if old(self).ecs.dungeon.has_depth(new_depth as int) {
                    assert(self.ecs.entities[i] == thawed_rec(pre, new_depth));
                } else {
                    assert(self.ecs.entities[i] == pre);
                }
            }
            assert(self.ecs.entities_consistent());
        }
        proof {
            let m = self.ecs.map;
            assert((m.width as int) <= (m.width as int) * (m.height as int)) by (nonlinear_arith)
                requires
                    1 <= m.height,
                    0 <= m.width,
            ;
            assert((m.height as int) <= (m.width as int) * (m.height as int)) by (nonlinear_arith)
                requires
                    1 <= m.width,
                    0 <= m.height,
            ;
            assert(m.start_x < 1_000_000);
            assert(m.start_y < 1_000_000);
        }
        let start = Position { x: self.ecs.map.start_x as i32, y: self.ecs.map.start_y as i32 };
        self.ecs.set_player_position(start);
    }

    /// Freezes the active level's entities, remembers the outgoing map in the
    /// registry, installs the level `offset` away (reactivating or building
    /// it), and notes the change in the log.
    pub fn goto_level(&mut self, offset: i32)
        requires
            old(self).ecs.wf(),
            old(self).ecs.entities_consistent(),
            old(self).ecs.pending_deletes.len() == 0,
            offset == 1 || offset == -1,
            1 <= old(self).ecs.map.depth + offset <= MAX_DEPTH,
        ensures
            final(self).ecs.wf(),
            final(self).ecs.entities_consistent(),
            final(self).ecs.pending_deletes.len() == 0,
            final(self).mapgen_index == 0,
            final(self).mapgen_timer == 0,
            final(self).ecs.map.depth == old(self).ecs.map.depth + offset,
            final(self).ecs.player_entity == old(self).ecs.player_entity,
            final(self).ecs.run_state == old(self).ecs.run_state,
            final(self).mapgen_next_state == old(self).mapgen_next_state,
            final(self).show_mapgen_visualizer == old(self).show_mapgen_visualizer,
            final(self).game_over_done == old(self).game_over_done,
            final(self).save_slot == old(self).save_slot,
            final(self).ecs.entities.len() == old(self).ecs.entities.len(),
            // the outgoing level is remembered in the registry
            final(self).ecs.dungeon.has_depth(old(self).ecs.map.depth as int),
            map_eq(
                final(self).ecs.dungeon.spec_get(old(self).ecs.map.depth as int),
                old(self).ecs.map,
            ),
            // the target level is in the registry and is the active map:
            // reactivated from the entry that was stored there, or freshly
            // built and stored under the target depth
            final(self).ecs.dungeon.has_depth((old(self).ecs.map.depth + offset) as int),
            map_eq(
                final(self).ecs.dungeon.spec_get((old(self).ecs.map.depth + offset) as int),
                final(self).ecs.map,
            ),
            old(self).ecs.dungeon.has_depth((old(self).ecs.map.depth + offset) as int) ==> map_eq(
                final(self).ecs.map,
                old(self).ecs.dungeon.spec_get((old(self).ecs.map.depth + offset) as int),
            ),
            // every other depth keeps the level it had
            forall|d2: int|
                d2 != old(self).ecs.map.depth && d2 != old(self).ecs.map.depth + offset ==> (
                final(self).ecs.dungeon.has_depth(d2) <==> old(self).ecs.dungeon.has_depth(d2)),
            forall|d2: int|
                d2 != old(self).ecs.map.depth && d2 != old(self).ecs.map.depth + offset && old(self).ecs.dungeon.has_depth(d2) ==> map_eq(
                    final(self).ecs.dungeon.spec_get(d2),
                    old(self).ecs.dungeon.spec_get(d2),
                ),
            // the log records the change, newest first
            final(self).ecs.log.entries.len() == old(self).ecs.log.entries.len() + 1,
            final(self).ecs.log.entries[0]@ == "You change level."@,
            forall|j: int|
                0 <= j < old(self).ecs.log.entries.len() ==> final(self).ecs.log.entries[j + 1]
                    == old(self).ecs.log.entries[j],
            // the player stands on the new level's start cell; non-player
            // entities are frozen at the outgoing depth, and thawed again
            // exactly when the target depth was reactivated
            old(self).ecs.dungeon.has_depth((old(self).ecs.map.depth + offset) as int) ==> {
                &&& final(self).ecs.player_rec() == (EntityRecord {
                    position: Some(
                        Position {
                            x: final(self).ecs.map.start_x as i32,
                            y: final(self).ecs.map.start_y as i32,
                        },
                    ),
                    ..thawed_rec(
                        old(self).ecs.player_rec(),
                        (old(self).ecs.map.depth + offset) as i32,
                    )
                })
                &&& final(self).mapgen_history.len() == 0
                &&& forall|i: int|
                    0 <= i < old(self).ecs.entities.len() && i != old(self).ecs.player_ix()
                        ==> final(self).ecs.entities[i] == thawed_rec(
                        frozen_rec(old(self).ecs.entities[i], old(self).ecs.map.depth),
                        (old(self).ecs.map.depth + offset) as i32,
                    )
            },
            !old(self).ecs.dungeon.has_depth((old(self).ecs.map.depth + offset) as int) ==> {
                &&& final(self).ecs.player_rec() == (EntityRecord {
                    position: Some(
                        Position {
                            x: final(self).ecs.map.start_x as i32,
                            y: final(self).ecs.map.start_y as i32,
                        },
                    ),
                    ..old(self).ecs.player_rec()
                })
                &&& final(self).mapgen_history.len() == 3
                &&& forall|i: int|
                    0 <= i < old(self).ecs.entities.len() && i != old(self).ecs.player_ix()
                        ==> final(self).ecs.entities[i] == frozen_rec(
                        old(self).ecs.entities[i],
                        old(self).ecs.map.depth,
                    )
            },
    {
        let snapshot = self.ecs.map.clone_map();
        self.ecs.dungeon.store_map(&snapshot);
        self.ecs.freeze_level_entities();
        proof {
            assert forall|i: int|
                0 <= i < self.ecs.entities.len() implies ((#[trigger] self.ecs.entities[i]).alive
                ==> ((self.ecs.entities[i].other_level_position matches Some(m2)
                ==> self.ecs.dungeon.has_depth(m2.depth as int)) && !(self.ecs.entities[i].position
                is Some && self.ecs.entities[i].other_level_position is Some))) by {
                let pre = old(self).ecs.entities[i];
                assert(self.ecs.entities[i] == frozen_rec(pre, old(self).ecs.map.depth));
            }
            assert(self.ecs.markers_sound());
        }
        let current_depth = self.ecs.map.depth;
        self.generate_world_map(current_depth + offset, offset);
        let note: String = "You change level.".to_string();
        self.ecs.log.entries.insert(0, note);
    }

    /// The full game-over reset: destroys every entity, spawns a fresh
    /// player, replaces the dungeon registry with an empty one, and
    /// regenerates depth 1 from scratch — always the generation path.
    pub fn game_over_cleanup(&mut self)
        requires
            old(self).ecs.wf(),
            old(self).ecs.pending_deletes.len() == 0,
        ensures
            final(self).ecs.wf(),
            final(self).ecs.entities_consistent(),
            final(self).ecs.pending_deletes.len() == 0,
            final(self).ecs.map.depth == 1,
            final(self).ecs.map.width == MAP_WIDTH,
            final(self).ecs.map.height == MAP_HEIGHT,
            final(self).ecs.dungeon.maps.len() == 1,
            final(self).ecs.dungeon.has_depth(1),
            final(self).mapgen_index == 0,
            final(self).mapgen_timer == 0,
            final(self).mapgen_history.len() == 3,
            final(self).ecs.run_state == old(self).ecs.run_state,
            final(self).ecs.log == old(self).ecs.log,
            final(self).mapgen_next_state == old(self).mapgen_next_state,
            final(self).show_mapgen_visualizer == old(self).show_mapgen_visualizer,
            final(self).game_over_done == old(self).game_over_done,
            final(self).save_slot == old(self).save_slot,
            // every old entity is gone; one fresh player stands at the start
            final(self).ecs.entities.len() == old(self).ecs.entities.len() + 1,
            forall|i: int|
                0 <= i < old(self).ecs.entities.len() ==> final(self).ecs.entities[i]
                    == blank_rec(),
            final(self).ecs.player_entity.0 == old(self).ecs.entities.len(),
            final(self).ecs.player_rec().position == Some(
                Position {
                    x: final(self).ecs.map.start_x as i32,
                    y: final(self).ecs.map.start_y as i32,
                },
            ),
            is_fresh_player_off_start(final(self).ecs.player_rec()),
    {
        self.ecs.delete_all_entities();
        let player_entity = self.ecs.spawn_player(0, 0);
        self.ecs.player_entity = player_entity;
        self.ecs.dungeon = MasterDungeonMap::new();
        proof {
            assert(self.ecs.markers_sound());
        }
        self.generate_world_map(1, 0);
    }

    /// A new game session: a world holding exactly the fresh player, a fresh
    /// registry, depth 1 freshly generated and scheduled for replay, and the
    /// main menu scheduled to run once the replay completes.
    pub fn new(show_mapgen_visualizer: bool) -> (s: State)
        ensures
            s.wf(),
            s.ecs.run_state == RunState::MapGeneration,
            s.mapgen_next_state == Some(
                RunState::MainMenu { menu_selection: MainMenuSelection::NewGame },
            ),
            s.ecs.map.depth == 1,
            s.ecs.map.width == MAP_WIDTH,
            s.ecs.map.height == MAP_HEIGHT,
            s.ecs.entities.len() == 1,
            s.ecs.player_entity.0 == 0,
            is_fresh_player_off_start(s.ecs.player_rec()),
            s.ecs.player_rec().position == Some(
                Position { x: s.ecs.map.start_x as i32, y: s.ecs.map.start_y as i32 },
            ),
            s.ecs.dungeon.maps.len() == 1,
            s.ecs.dungeon.has_depth(1),
            s.mapgen_history.len() == 3,
            s.mapgen_index == 0,
            s.save_slot is None,
            !s.game_over_done,
            s.show_mapgen_visualizer == show_mapgen_visualizer,
            s.ecs.log.entries.len() == 1,
    {
        let name: String = "New Map".to_string();
        let map0 = GameMap::new(1, MAP_WIDTH, MAP_HEIGHT, name);
        let welcome: String = "Welcome to Rusty Roguelike".to_string();
        let mut entries: Vec<String> = Vec::new();
        entries.push(welcome);
        let mut world = World {
            entities: Vec::new(),
            map: map0,
            dungeon: MasterDungeonMap::new(),
            log: GameLog { entries },
            player_entity: Entity(0),
            run_state: RunState::MapGeneration,
            pending_deletes: Vec::new(),
        };
        let player_entity = world.spawn_player(0, 0);
        world.player_entity = player_entity;
        proof {
            assert(world.markers_sound());
        }
        let mut s = State {
            ecs: world,
            mapgen_next_state: Some(
                RunState::MainMenu { menu_selection: MainMenuSelection::NewGame },
            ),
            mapgen_history: Vec::new(),
            mapgen_index: 0,
            mapgen_timer: 0,
            show_mapgen_visualizer,
            game_over_done: false,
            save_slot: None,
        };
        s.generate_world_map(1, 0);
        s
    }

    /// The controller's current phase.
    pub fn run_state(&self) -> (rs: RunState)
        ensures
            rs == self.ecs.run_state,
    {
        self.ecs.run_state
    }

    /// The handle of the entity holding the "player" tag.
    pub fn player_entity(&self) -> (e: Entity)
        ensures
            e == self.ecs.player_entity,
    {
        self.ecs.player_entity
    }

    /// How many arena slots the world holds, live or not.
    pub fn entity_count(&self) -> (n: usize)
        ensures
            n == self.ecs.entities.len(),
    {
        self.ecs.entities.len()
    }

    /// Whether the arena slot of `e` holds a live entity.
    pub fn is_alive(&self, e: Entity) -> (r: bool)
        requires
            e.0 < self.ecs.entities.len(),
        ensures
            r == self.ecs.entities[e.0 as int].alive,
    {
        self.ecs.entities[e.0].alive
    }

    /// The position of `e` on the active map, if it stands there.
    pub fn position_of(&self, e: Entity) -> (r: Option<Position>)
        requires
            e.0 < self.ecs.entities.len(),
        ensures
            r == self.ecs.entities[e.0 as int].position,
    {
        self.ecs.entities[e.0].position
    }

    /// Who carries `e` in a backpack, if anyone.
    pub fn backpack_owner_of(&self, e: Entity) -> (r: Option<Entity>)
        requires
            e.0 < self.ecs.entities.len(),
        ensures
            r == self.ecs.entities[e.0 as int].in_backpack,
    {
        self.ecs.entities[e.0].in_backpack
    }

    /// The display name of `e`, if it has one.
    pub fn name_of(&self, e: Entity) -> (r: Option<String>)
        requires
            e.0 < self.ecs.entities.len(),
        ensures
            (match r {
                Some(n) => self.ecs.entities[e.0 as int].name matches Some(m) && n@ == m@,
                None => self.ecs.entities[e.0 as int].name is None,
            }),
    {
        match &self.ecs.entities[e.0].name {
            Some(n) => Some(n.clone()),
            None => None,
        }
    }

    /// The depth of the active level.
    pub fn map_depth(&self) -> (d: i32)
        ensures
            d == self.ecs.map.depth,
    {
        self.ecs.map.depth
    }

    /// Whether the active map's cell (x, y) has been revealed.
    pub fn is_revealed(&self, x: usize, y: usize) -> (r: bool)
        requires
            self.ecs.map.wf(),
            x < self.ecs.map.width,
            y < self.ecs.map.height,
        ensures
            r == self.ecs.map.revealed_tiles[self.ecs.map.spec_idx(x as int, y as int)],
    {
        let idx = self.ecs.map.xy_idx(x, y);
        self.ecs.map.revealed_tiles[idx]
    }

    /// How many levels the dungeon registry retains.
    pub fn registry_len(&self) -> (n: usize)
        ensures
            n == self.ecs.dungeon.maps.len(),
    {
        self.ecs.dungeon.maps.len()
    }

    /// Whether the single save slot is occupied.
    pub fn has_saved_game(&self) -> (r: bool)
        ensures
            r == (self.save_slot is Some),
    {
        matches!(self.save_slot, Some(_))
    }

    /// The replay cursor into the generation history.
    pub fn mapgen_cursor(&self) -> (n: usize)
        ensures
            n == self.mapgen_index,
    {
        self.mapgen_index
    }

    /// How many snapshots the current generation history holds.
    pub fn mapgen_history_len(&self) -> (n: usize)
        ensures
            n == self.mapgen_history.len(),
    {
        self.mapgen_history.len()
    }

    /// Read-only access for the renderer: the snapshot the replay currently
    /// shows instead of the live map, while the cursor is in bounds.
    pub fn current_replay_snapshot(&self) -> (r: Option<&GameMap>)
        ensures
            (match r {
                Some(m) => self.mapgen_index < self.mapgen_history.len() && *m
                    == self.mapgen_history[self.mapgen_index as int],
                None => self.mapgen_index >= self.mapgen_history.len(),
            }),
    {
        if self.mapgen_index < self.mapgen_history.len() {
            Some(&self.mapgen_history[self.mapgen_index])
        } else {
            None
        }
    }

    /// How many messages the log holds.
    pub fn log_len(&self) -> (n: usize)
        ensures
            n == self.ecs.log.entries.len(),
    {
        self.ecs.log.entries.len()
    }

    /// The log message at `i`, most recent first.
    pub fn log_entry(&self, i: usize) -> (r: String)
        requires
            i < self.ecs.log.entries.len(),
        ensures
            r@ == self.ecs.log.entries[i as int]@,
    {
        self.ecs.log.entries[i].clone()
    }

    /// Marks an entity dead for the end-of-frame cull; combat and traps,
    /// which decide such deaths, are outside this core.
    pub fn mark_entity_dead(&mut self, e: Entity)
        requires
            old(self).wf(),
            e.0 < old(self).ecs.entities.len(),
        ensures
            final(self).wf(),
            final(self).ecs.entities[e.0 as int] == (EntityRecord {
                dead: true,
                ..old(self).ecs.entities[e.0 as int]
            }),
            forall|i: int|
                0 <= i < old(self).ecs.entities.len() && i != e.0 ==> final(self).ecs.entities[i]
                    == old(self).ecs.entities[i],
            final(self).ecs.entities.len() == old(self).ecs.entities.len(),
    {
        self.ecs.mark_dead(e);
    }

    /// The `Ticking` pump: runs pipeline passes back to back, re-checking the
    /// run-state resource after each, until a blocking state arrives — the
    /// player's turn (`AwaitingInput`) or the start of a map reveal. Never
    /// hands `Ticking` back to the caller.
    fn pump_ticking(&mut self) -> (rs: RunState)
        requires
            old(self).ecs.wf(),
            old(self).ecs.entities_consistent(),
            old(self).ecs.pending_deletes.len() == 0,
            old(self).ecs.run_state == RunState::Ticking,
        ensures
            final(self).ecs.wf(),
            final(self).ecs.entities_consistent(),
            final(self).ecs.pending_deletes.len() == 0,
            rs == (if uses_magic_mapper(old(self).ecs) {
                RunState::MagicMapReveal { row: 0 }
            } else {
                RunState::AwaitingInput
            }),
            final(self).ecs.map == old(self).ecs.map,
            final(self).ecs.dungeon == old(self).ecs.dungeon,
            final(self).ecs.log == old(self).ecs.log,
            final(self).ecs.player_entity == old(self).ecs.player_entity,
            final(self).ecs.entities.len() == old(self).ecs.entities.len(),
            forall|i: int|
                0 <= i < old(self).ecs.entities.len() && i != old(self).ecs.player_ix()
                    ==> final(self).ecs.entities[i] == pass_slot(old(self).ecs, i),
            final(self).ecs.player_rec() == (EntityRecord {
                initiative: (if uses_magic_mapper(old(self).ecs) {
                    if old(self).ecs.player_rec().initiative > 1 {
                        (old(self).ecs.player_rec().initiative - 1) as u32
                    } else {
                        INITIATIVE_PERIOD
                    }
                } else {
                    INITIATIVE_PERIOD
                }),
                wants_to_pickup: None,
                wants_to_use: None,
                wants_to_drop: None,
                wants_to_remove: None,
                ..old(self).ecs.player_rec()
            }),
            final(self).mapgen_next_state == old(self).mapgen_next_state,
            final(self).mapgen_history == old(self).mapgen_history,
            final(self).mapgen_index == old(self).mapgen_index,
            final(self).mapgen_timer == old(self).mapgen_timer,
            final(self).show_mapgen_visualizer == old(self).show_mapgen_visualizer,
            final(self).game_over_done == old(self).game_over_done,
            final(self).save_slot == old(self).save_slot,
    {
        self.run_systems();
        let r1 = self.ecs.run_state;
        match r1 {
            RunState::AwaitingInput => RunState::AwaitingInput,
            RunState::MagicMapReveal { .. } => RunState::MagicMapReveal { row: 0 },
            _ => {
                let ghost w1 = self.ecs;
                proof {
                    assert(self.ecs.run_state == RunState::Ticking);
                }
                while matches!(self.ecs.run_state, RunState::Ticking)
                    invariant
                        self.ecs.wf(),
                        self.ecs.entities_consistent(),
                        self.ecs.pending_deletes.len() == 0,
                        self.ecs.map == w1.map,
                        self.ecs.dungeon == w1.dungeon,
                        self.ecs.log == w1.log,
                        self.ecs.player_entity == w1.player_entity,
                        self.ecs.entities.len() == w1.entities.len(),
                        forall|i: int|
                            0 <= i < w1.entities.len() && i != w1.player_ix()
                                ==> self.ecs.entities[i] == w1.entities[i],
                        (EntityRecord {
                            initiative: w1.player_rec().initiative,
                            ..self.ecs.player_rec()
                        }) == w1.player_rec(),
                        self.ecs.player_rec().wants_to_use is None,
                        self.ecs.player_rec().wants_to_pickup is None,
                        self.ecs.player_rec().wants_to_drop is None,
                        self.ecs.player_rec().wants_to_remove is None,
                        self.ecs.run_state == RunState::Ticking || self.ecs.run_state
                            == RunState::AwaitingInput,
                        self.ecs.run_state == RunState::AwaitingInput
                            ==> self.ecs.player_rec().initiative == INITIATIVE_PERIOD,
                        self.mapgen_next_state == old(self).mapgen_next_state,
                        self.mapgen_history == old(self).mapgen_history,
                        self.mapgen_index == old(self).mapgen_index,
                        self.mapgen_timer == old(self).mapgen_timer,
                        self.show_mapgen_visualizer == old(self).show_mapgen_visualizer,
                        self.game_over_done == old(self).game_over_done,
                        self.save_slot == old(self).save_slot,
                    decreases ticking_measure(self.ecs),
                {
                    let ghost prev = self.ecs;
                    self.run_systems();
                    proof {
                        assert forall|i: int|
                            0 <= i < prev.entities.len() && i != prev.player_ix() implies
                            self.ecs.entities[i] == prev.entities[i] by {
                            assert(!intent_names(prev, i));
                        }
                    }
                }
                RunState::AwaitingInput
            },
        }
    }

    /// The inventory menu's transition, run after the frame's particle cull:
    /// cancel returns to input, no answer waits, selecting a live ranged item
    /// opens targeting, selecting a live unranged item records the use intent,
    /// and a stale selection degrades to input.
    fn menu_inventory(&mut self, frame: &FrameInput) -> (rs: RunState)
        requires
            old(self).ecs.wf(),
            frame.wf(),
        ensures
            final(self).ecs.wf(),
            old(self).ecs.entities_consistent() ==> final(self).ecs.entities_consistent(),
            same_controller(*old(self), *final(self)),
            same_but_entities(old(self).ecs, final(self).ecs),
            final(self).ecs.entities.len() == old(self).ecs.entities.len(),
            match frame.item_menu {
                ItemMenuResult::Cancel => rs == RunState::AwaitingInput && final(self).ecs.entities
                    == old(self).ecs.entities,
                ItemMenuResult::NoResponse => rs == RunState::ShowInventory && final(self).ecs.entities == old(self).ecs.entities,
                ItemMenuResult::Selected => {
                    let item = frame.item_menu_choice->Some_0;
                    if sel_live(old(self).ecs, item) {
                        match old(self).ecs.entities[item.0 as int].ranged {
                            Some(range) => rs == (RunState::ShowTargeting { range, item })
                                && final(self).ecs.entities == old(self).ecs.entities,
                            None => {
                                &&& rs == RunState::Ticking
                                &&& final(self).ecs.player_rec() == (EntityRecord {
                                    wants_to_use: Some(UseIntent { item, target: None }),
                                    ..old(self).ecs.player_rec()
                                })
                                &&& forall|i: int|
                                    0 <= i < old(self).ecs.entities.len() && i != old(self).ecs.player_ix() ==> final(self).ecs.entities[i] == old(self).ecs.entities[i]
                            },
                        }
                    } else {
                        rs == RunState::AwaitingInput && final(self).ecs.entities == old(self).ecs.entities
                    }
                },
            },
    {
        match frame.item_menu {
            ItemMenuResult::Cancel => RunState::AwaitingInput,
            ItemMenuResult::NoResponse => RunState::ShowInventory,
            ItemMenuResult::Selected => {
                let item = frame.item_menu_choice.unwrap();
                if item.0 < self.ecs.entities.len() && self.ecs.entities[item.0].alive {
                    match self.ecs.entities[item.0].ranged {
                        Some(range) => RunState::ShowTargeting { range, item },
                        None => {
                            self.ecs.insert_use_intent(item, None);
                            RunState::Ticking
                        },
                    }
                } else {
                    RunState::AwaitingInput
                }
            },
        }
    }

    /// The drop menu's transition: a live selection records the drop intent,
    /// a stale one degrades to input.
    fn menu_drop(&mut self, frame: &FrameInput) -> (rs: RunState)
        requires
            old(self).ecs.wf(),
            frame.wf(),
        ensures
            final(self).ecs.wf(),
            old(self).ecs.entities_consistent() ==> final(self).ecs.entities_consistent(),
            same_controller(*old(self), *final(self)),
            same_but_entities(old(self).ecs, final(self).ecs),
            final(self).ecs.entities.len() == old(self).ecs.entities.len(),
            match frame.item_menu {
                ItemMenuResult::Cancel => rs == RunState::AwaitingInput && final(self).ecs.entities
                    == old(self).ecs.entities,
                ItemMenuResult::NoResponse => rs == RunState::ShowDropItem && final(self).ecs.entities == old(self).ecs.entities,
                ItemMenuResult::Selected => {
                    let item = frame.item_menu_choice->Some_0;
                    if sel_live(old(self).ecs, item) {
                        &&& rs == RunState::Ticking
                        &&& final(self).ecs.player_rec() == (EntityRecord {
                            wants_to_drop: Some(item),
                            ..old(self).ecs.player_rec()
                        })
                        &&& forall|i: int|
                            0 <= i < old(self).ecs.entities.len() && i != old(self).ecs.player_ix() ==> final(self).ecs.entities[i] == old(self).ecs.entities[i]
                    } else {
                        rs == RunState::AwaitingInput && final(self).ecs.entities == old(self).ecs.entities
                    }
                },
            },
    {
        match frame.item_menu {
            ItemMenuResult::Cancel => RunState::AwaitingInput,
            ItemMenuResult::NoResponse => RunState::ShowDropItem,
            ItemMenuResult::Selected => {
                let item = frame.item_menu_choice.unwrap();
                if item.0 < self.ecs.entities.len() && self.ecs.entities[item.0].alive {
                    self.ecs.insert_drop_intent(item);
                    RunState::Ticking
                } else {
                    RunState::AwaitingInput
                }
            },
        }
    }

    /// The remove-equipment menu's transition: a live selection records the
    /// unequip intent, a stale one degrades to input.
    fn menu_remove(&mut self, frame: &FrameInput) -> (rs: RunState)
        requires
            old(self).ecs.wf(),
            frame.wf(),
        ensures
            final(self).ecs.wf(),
            old(self).ecs.entities_consistent() ==> final(self).ecs.entities_consistent(),
            same_controller(*old(self), *final(self)),
            same_but_entities(old(self).ecs, final(self).ecs),
            final(self).ecs.entities.len() == old(self).ecs.entities.len(),
            match frame.item_menu {
                ItemMenuResult::Cancel => rs == RunState::AwaitingInput && final(self).ecs.entities
                    == old(self).ecs.entities,
                ItemMenuResult::NoResponse => rs == RunState::ShowRemoveItem && final(self).ecs.entities == old(self).ecs.entities,
                ItemMenuResult::Selected => {
                    let item = frame.item_menu_choice->Some_0;
                    if sel_live(old(self).ecs, item) {
                        &&& rs == RunState::Ticking
                        &&& final(self).ecs.player_rec() == (EntityRecord {
                            wants_to_remove: Some(item),
                            ..old(self).ecs.player_rec()
                        })
                        &&& forall|i: int|
                            0 <= i < old(self).ecs.entities.len() && i != old(self).ecs.player_ix() ==> final(self).ecs.entities[i] == old(self).ecs.entities[i]
                    } else {
                        rs == RunState::AwaitingInput && final(self).ecs.entities == old(self).ecs.entities
                    }
                },
            },
    {
        match frame.item_menu {
            ItemMenuResult::Cancel => RunState::AwaitingInput,
            ItemMenuResult::NoResponse => RunState::ShowRemoveItem,
            ItemMenuResult::Selected => {
                let item = frame.item_menu_choice.unwrap();
                if item.0 < self.ecs.entities.len() && self.ecs.entities[item.0].alive {
                    self.ecs.insert_remove_intent(item);
                    RunState::Ticking
                } else {
                    RunState::AwaitingInput
                }
            },
        }
    }

    /// The targeting overlay's transition: selecting a target cell completes
    /// the pending use-item intent; a selection naming an item deleted between
    /// frames degrades to input.
    fn menu_targeting(&mut self, frame: &FrameInput, range: i32, item: Entity) -> (rs: RunState)
        requires
            old(self).ecs.wf(),
            frame.wf(),
        ensures
            final(self).ecs.wf(),
            old(self).ecs.entities_consistent() ==> final(self).ecs.entities_consistent(),
            same_controller(*old(self), *final(self)),
            same_but_entities(old(self).ecs, final(self).ecs),
            final(self).ecs.entities.len() == old(self).ecs.entities.len(),
            match frame.target_menu {
                ItemMenuResult::Cancel => rs == RunState::AwaitingInput && final(self).ecs.entities
                    == old(self).ecs.entities,
                ItemMenuResult::NoResponse => rs == (RunState::ShowTargeting { range, item })
                    && final(self).ecs.entities == old(self).ecs.entities,
                ItemMenuResult::Selected => {
                    if sel_live(old(self).ecs, item) {
                        &&& rs == RunState::Ticking
                        &&& final(self).ecs.player_rec() == (EntityRecord {
                            wants_to_use: Some(UseIntent { item, target: frame.target_choice }),
                            ..old(self).ecs.player_rec()
                        })
                        &&& forall|i: int|
                            0 <= i < old(self).ecs.entities.len() && i != old(self).ecs.player_ix() ==> final(self).ecs.entities[i] == old(self).ecs.entities[i]
                    } else {
                        rs == RunState::AwaitingInput && final(self).ecs.entities == old(self).ecs.entities
                    }
                },
            },
    {
        match frame.target_menu {
            ItemMenuResult::Cancel => RunState::AwaitingInput,
            ItemMenuResult::NoResponse => RunState::ShowTargeting { range, item },
            ItemMenuResult::Selected => {
                if item.0 < self.ecs.entities.len() && self.ecs.entities[item.0].alive {
                    self.ecs.insert_use_intent(item, frame.target_choice);
                    RunState::Ticking
                } else {
                    RunState::AwaitingInput
                }
            },
        }
    }

    /// One frame of the game state machine: counts the frame against live
    /// particles, performs the transition the current phase calls for, writes
    /// the resulting phase back to the run-state resource, and culls entities
    /// marked dead — exactly once, unconditionally, whatever branch ran.
    /// Returns whether the process should keep running.
    #[verifier::rlimit(100)]
    pub fn tick(&mut self, frame: &FrameInput) -> (sig: TickSignal)
        requires
            old(self).wf(),
            frame.wf(),
        ensures
            final(self).wf(),
            tick_post(*old(self), *frame, *final(self), sig),
    {
        let mut sig = TickSignal::Continue;
        let mut newrunstate = self.ecs.run_state;
        self.ecs.cull_dead_particles(frame.frame_time_ms);
        let ghost wc = self.ecs;
        proof {
            assert(wc.player_rec() == old(self).ecs.player_rec());
        }
        match newrunstate {
            RunState::AwaitingInput => {
                newrunstate = frame.input;
            },
            RunState::PreRun => {
                self.run_systems();
                newrunstate = RunState::AwaitingInput;
                proof {
                    assert forall|i: int|
                        0 <= i < old(self).ecs.entities.len() && i != old(self).ecs.player_ix()
                            implies self.ecs.entities[i] == pass_chain(
                        old(self).ecs,
                        i,
                        culled_rec(old(self).ecs.entities[i], frame.frame_time_ms),
                    ) by {
                        assert(wc.player_rec() == old(self).ecs.player_rec());
                        assert(self.ecs.entities[i] == pass_slot(wc, i));
                        assert(wc.entities[i] == culled_rec(
                            old(self).ecs.entities[i],
                            frame.frame_time_ms,
                        ));
                        assert(names_pickup(wc, i) == names_pickup(old(self).ecs, i));
                        assert(names_use(wc, i) == names_use(old(self).ecs, i));
                        assert(names_drop(wc, i) == names_drop(old(self).ecs, i));
                        assert(names_remove(wc, i) == names_remove(old(self).ecs, i));
                    }
                }
            },
            RunState::Ticking => {
                newrunstate = self.pump_ticking();
                proof {
                    assert forall|i: int|
                        0 <= i < old(self).ecs.entities.len() && i != old(self).ecs.player_ix()
                            implies self.ecs.entities[i] == pass_chain(
                        old(self).ecs,
                        i,
                        culled_rec(old(self).ecs.entities[i], frame.frame_time_ms),
                    ) by {
                        assert(wc.player_rec() == old(self).ecs.player_rec());
                        assert(self.ecs.entities[i] == pass_slot(wc, i));
                        assert(wc.entities[i] == culled_rec(
                            old(self).ecs.entities[i],
                            frame.frame_time_ms,
                        ));
                        assert(names_pickup(wc, i) == names_pickup(old(self).ecs, i));
                        assert(names_use(wc, i) == names_use(old(self).ecs, i));
                        assert(names_drop(wc, i) == names_drop(old(self).ecs, i));
                        assert(names_remove(wc, i) == names_remove(old(self).ecs, i));
                    }
                }
            },
            RunState::ShowInventory => {
                newrunstate = self.menu_inventory(frame);
            },
            RunState::ShowDropItem => {
                newrunstate = self.menu_drop(frame);
            },
            RunState::ShowRemoveItem => {
                newrunstate = self.menu_remove(frame);
            },
            RunState::ShowTargeting { range, item } => {
                newrunstate = self.menu_targeting(frame, range, item);
            },
            RunState::MainMenu { .. } => {
                match frame.main_menu {
                    MainMenuResult::NoSelection { selected } => {
                        newrunstate = RunState::MainMenu { menu_selection: selected };
                    },
                    MainMenuResult::Selected { selected } => {
                        match selected {
                            MainMenuSelection::NewGame => {
                                newrunstate = RunState::PreRun;
                            },
                            MainMenuSelection::LoadGame => {
                                match &self.save_slot {
                                    Some(slot) => {
                                        load_game(&mut self.ecs, slot);
                                        newrunstate = RunState::AwaitingInput;
                                    },
                                    None => {
                                        newrunstate = RunState::MainMenu {
                                            menu_selection: MainMenuSelection::LoadGame,
                                        };
                                    },
                                }
                                if matches!(self.save_slot, Some(_)) {
                                    self.save_slot = None;
                                }
                            },
                            MainMenuSelection::Quit => {
                                sig = TickSignal::Quit;
                            },
                        }
                    },
                }
            },
            RunState::SaveGame => {
                let snapshot = save_game(&self.ecs);
                self.save_slot = Some(snapshot);
                newrunstate = RunState::MainMenu {
                    menu_selection: MainMenuSelection::LoadGame,
                };
            },
            RunState::NextLevel => {
                if self.ecs.map.depth < MAX_DEPTH {
                    self.goto_level(1);
                    self.mapgen_next_state = Some(RunState::PreRun);
                    newrunstate = RunState::MapGeneration;
                } else {
                    newrunstate = RunState::AwaitingInput;
                }
            },
            RunState::PreviousLevel => {
                if self.ecs.map.depth > 1 {
                    self.goto_level(-1);
                    self.mapgen_next_state = Some(RunState::PreRun);
                    newrunstate = RunState::MapGeneration;
                } else {
                    newrunstate = RunState::AwaitingInput;
                }
            },
            RunState::ShowCheatMenu => {
                match frame.cheat_menu {
                    CheatMenuResult::Cancel => {
                        newrunstate = RunState::AwaitingInput;
                    },
                    CheatMenuResult::NoResponse => {},
                    CheatMenuResult::TeleportToExit => {
                        if self.ecs.map.depth < MAX_DEPTH {
                            self.goto_level(1);
                            self.mapgen_next_state = Some(RunState::PreRun);
                            newrunstate = RunState::MapGeneration;
                        } else {
                            newrunstate = RunState::AwaitingInput;
                        }
                    },
                }
            },
            RunState::GameOver => {
                if !self.game_over_done {
                    self.game_over_cleanup();
                    self.game_over_done = true;
                }
                match frame.game_over {
                    GameOverResult::NoSelection => {},
                    GameOverResult::QuitToMenu => {
                        newrunstate = RunState::MainMenu {
                            menu_selection: MainMenuSelection::NewGame,
                        };
                        self.game_over_done = false;
                    },
                }
            },
            RunState::MagicMapReveal { row } => {
                let height = self.ecs.map.height;
                self.ecs.map.reveal_row(row);
                if row == height - 2 {
                    newrunstate = RunState::Ticking;
                } else {
                    newrunstate = RunState::MagicMapReveal { row: row + 1 };
                }
            },
            RunState::MapGeneration => {
                if !self.show_mapgen_visualizer {
                    match self.mapgen_next_state {
                        Some(st) => {
                            newrunstate = st;
                        },
                        None => {
                            proof {
                                assert(false);
                            }
                        },
                    }
                } else {
                    if self.mapgen_index >= self.mapgen_history.len() {
                        match self.mapgen_next_state {
                            Some(st) => {
                                newrunstate = st;
                            },
                            None => {
                                proof {
                                    assert(false);
                                }
                            },
                        }
                    } else {
                        self.mapgen_timer = self.mapgen_timer + frame.frame_time_ms;
                        if self.mapgen_timer > MAPGEN_TIMER_MS {
                            self.mapgen_timer = 0;
                            self.mapgen_index = self.mapgen_index + 1;
                            if self.mapgen_index == self.mapgen_history.len() {
                                match self.mapgen_next_state {
                                    Some(st) => {
                                        newrunstate = st;
                                    },
                                    None => {
                                        proof {
                                            assert(false);
                                        }
                                    },
                                }
                            }
                        }
                    }
                }
            },
        }
        self.ecs.run_state = newrunstate;
        self.ecs.delete_the_dead();
        sig
    }
}

/// Whether `item` still names a live entity once the frame's particle cull
/// has run (a stale menu selection fails this and degrades gracefully).
pub open spec fn item_live(w: World, ms: u32, item: Entity) -> bool {
    0 <= item.0 < w.entities.len() && culled_rec(w.entities[item.0 as int], ms).alive
}

/// The targeting range of a live item, or `None` for an unranged, missing or
/// dead one, as of after the frame's particle cull.
pub open spec fn item_range(w: World, ms: u32, item: Entity) -> Option<i32> {
    if item_live(w, ms, item) {
        culled_rec(w.entities[item.0 as int], ms).ranged
    } else {
        None
    }
}

/// Whether the player's pending use-intent names an item that is still a
/// live magic-mapper once the frame's particle cull has run.
pub open spec fn magic_used(w: World, ms: u32) -> bool {
    w.player_rec().wants_to_use matches Some(u) && {
        let ii = u.item.0 as int;
        &&& 0 <= ii < w.entities.len()
        &&& ii != w.player_ix()
        &&& culled_rec(w.entities[ii], ms).alive
        &&& culled_rec(w.entities[ii], ms).is_item
        &&& culled_rec(w.entities[ii], ms).other_level_position is None
        &&& culled_rec(w.entities[ii], ms).magic_mapper
    }
}

/// The measure driving the `Ticking` pump to termination: the player's
/// remaining initiative while the run state stays `Ticking`, exhausted the
/// moment control is handed back.
pub open spec fn ticking_measure(w: World) -> int {
    if w.run_state == RunState::Ticking {
        w.player_rec().initiative as int
    } else {
        0
    }
}

/// The two states agree on everything the controller owns besides the world:
/// the replay buffer, the visualizer switch, the game-over latch and the
/// save slot.
pub open spec fn same_controller(a: State, b: State) -> bool {
    &&& b.mapgen_next_state == a.mapgen_next_state
    &&& b.mapgen_history == a.mapgen_history
    &&& b.mapgen_index == a.mapgen_index
    &&& b.mapgen_timer == a.mapgen_timer
    &&& b.show_mapgen_visualizer == a.show_mapgen_visualizer
    &&& b.game_over_done == a.game_over_done
    &&& b.save_slot == a.save_slot
}

/// Whether a menu selection still names a live entity in this world.
pub open spec fn sel_live(w: World, item: Entity) -> bool {
    item.0 < w.entities.len() && w.entities[item.0 as int].alive
}

/// The two states agree on the world's singleton resources.
pub open spec fn stable_res(pre: State, post: State) -> bool {
    &&& post.ecs.map == pre.ecs.map
    &&& post.ecs.dungeon == pre.ecs.dungeon
    &&& post.ecs.log == pre.ecs.log
    &&& post.ecs.player_entity == pre.ecs.player_entity
}

/// The two states agree on the replay buffer.
pub open spec fn stable_mapgen(pre: State, post: State) -> bool {
    &&& post.mapgen_next_state == pre.mapgen_next_state
    &&& post.mapgen_history == pre.mapgen_history
    &&& post.mapgen_index == pre.mapgen_index
    &&& post.mapgen_timer == pre.mapgen_timer
}

/// The two states agree on the game-over latch and the save slot.
pub open spec fn stable_flags(pre: State, post: State) -> bool {
    &&& post.game_over_done == pre.game_over_done
    &&& post.save_slot == pre.save_slot
}

/// Every record went through exactly the frame's particle cull and the
/// unconditional end-of-frame reap, and nothing else.
pub open spec fn all_frame_culled(pre: State, post: State, ms: u32) -> bool {
    &&& post.ecs.entities.len() == pre.ecs.entities.len()
    &&& forall|i: int|
        0 <= i < pre.ecs.entities.len() ==> post.ecs.entities[i] == frame_rec(
            pre.ecs.entities[i],
            ms,
        )
}

/// Every record but the player's went through exactly the frame's cull and
/// reap; the player's is stated separately by the branch.
pub open spec fn others_frame_culled(pre: State, post: State, ms: u32) -> bool {
    &&& post.ecs.entities.len() == pre.ecs.entities.len()
    &&& forall|i: int|
        0 <= i < pre.ecs.entities.len() && i != pre.ecs.player_ix() ==> post.ecs.entities[i]
            == frame_rec(pre.ecs.entities[i], ms)
}

/// A menu frame that changed nothing but possibly the run state.
pub open spec fn quiet_frame(pre: State, post: State, ms: u32) -> bool {
    &&& stable_res(pre, post)
    &&& stable_mapgen(pre, post)
    &&& stable_flags(pre, post)
    &&& all_frame_culled(pre, post, ms)
}

/// The effect of a level transition by `offset` on everything but the run
/// state and the scheduled next state, frame culls included: the outgoing
/// level is remembered, the target is reactivated or freshly built, the log
/// notes the change, and every non-player record is frozen at the outgoing
/// depth (and thawed again exactly on reactivation).
pub open spec fn goto_post(pre: State, post: State, ms: u32, offset: int) -> bool {
    let d = pre.ecs.map.depth as int;
    let target = d + offset;
    &&& post.ecs.map.depth == target
    &&& post.ecs.player_entity == pre.ecs.player_entity
    &&& post.ecs.dungeon.has_depth(d)
    &&& map_eq(post.ecs.dungeon.spec_get(d), pre.ecs.map)
    &&& post.ecs.log.entries.len() == pre.ecs.log.entries.len() + 1
    &&& post.ecs.log.entries[0]@ == "You change level."@
    &&& (forall|j: int|
        0 <= j < pre.ecs.log.entries.len() ==> post.ecs.log.entries[j + 1]
            == pre.ecs.log.entries[j])
    &&& post.mapgen_index == 0
    &&& post.mapgen_timer == 0
    &&& post.ecs.entities.len() == pre.ecs.entities.len()
    &&& post.ecs.player_rec().position == Some(
        Position { x: post.ecs.map.start_x as i32, y: post.ecs.map.start_y as i32 },
    )
    &&& (pre.ecs.dungeon.has_depth(target) ==> {
        &&& post.mapgen_history.len() == 0
        &&& forall|i: int|
            0 <= i < pre.ecs.entities.len() && i != pre.ecs.player_ix()
                ==> post.ecs.entities[i] == reaped_rec(
                thawed_rec(
                    frozen_rec(culled_rec(pre.ecs.entities[i], ms), pre.ecs.map.depth),
                    target as i32,
                ),
            )
    })
    &&& (!pre.ecs.dungeon.has_depth(target) ==> {
        &&& post.mapgen_history.len() == 3
        &&& forall|i: int|
            0 <= i < pre.ecs.entities.len() && i != pre.ecs.player_ix()
                ==> post.ecs.entities[i] == reaped_rec(
                frozen_rec(culled_rec(pre.ecs.entities[i], ms), pre.ecs.map.depth),
            )
    })
}

/// The per-frame contract of `tick`, by the phase the frame began in. Every
/// frame first counts time against live particles and ends by culling
/// entities marked dead, exactly once, unconditionally; what happens in
/// between is the phase's transition below.
pub open spec fn tick_post(pre: State, frame: FrameInput, post: State, sig: TickSignal) -> bool {
    let ms = frame.frame_time_ms;
    let p = pre.ecs.player_ix();
    &&& post.show_mapgen_visualizer == pre.show_mapgen_visualizer
    &&& (sig == TickSignal::Quit <==> (pre.ecs.run_state matches RunState::MainMenu { .. }
        && frame.main_menu == (MainMenuResult::Selected {
        selected: MainMenuSelection::Quit,
    })))
    &&& match pre.ecs.run_state {
        RunState::AwaitingInput => {
            &&& post.ecs.run_state == frame.input
            &&& quiet_frame(pre, post, ms)
        },
        RunState::PreRun => {
            &&& post.ecs.run_state == RunState::AwaitingInput
            &&& stable_res(pre, post)
            &&& stable_mapgen(pre, post)
            &&& stable_flags(pre, post)
            &&& pass_frame_culled(pre, post, ms)
            &&& post.ecs.player_rec() == (EntityRecord {
                wants_to_pickup: None,
                wants_to_use: None,
                wants_to_drop: None,
                wants_to_remove: None,
                ..pre.ecs.player_rec()
            })
        },
        RunState::Ticking => {
            let magic = magic_used(pre.ecs, ms);
            &&& post.ecs.run_state == (if magic {
                RunState::MagicMapReveal { row: 0 }
            } else {
                RunState::AwaitingInput
            })
            &&& stable_res(pre, post)
            &&& stable_mapgen(pre, post)
            &&& stable_flags(pre, post)
            &&& pass_frame_culled(pre, post, ms)
            &&& post.ecs.player_rec() == (EntityRecord {
                initiative: (if magic {
                    if pre.ecs.player_rec().initiative > 1 {
                        (pre.ecs.player_rec().initiative - 1) as u32
                    } else {
                        INITIATIVE_PERIOD
                    }
                } else {
                    INITIATIVE_PERIOD
                }),
                wants_to_pickup: None,
                wants_to_use: None,
                wants_to_drop: None,
                wants_to_remove: None,
                ..pre.ecs.player_rec()
            })
        },
        RunState::ShowInventory => {
            &&& stable_res(pre, post)
            &&& stable_mapgen(pre, post)
            &&& stable_flags(pre, post)
            &&& match frame.item_menu {
                ItemMenuResult::Cancel => post.ecs.run_state == RunState::AwaitingInput
                    && all_frame_culled(pre, post, ms),
                ItemMenuResult::NoResponse => post.ecs.run_state == RunState::ShowInventory
                    && all_frame_culled(pre, post, ms),
                ItemMenuResult::Selected => {
                    let item = frame.item_menu_choice->Some_0;
                    if item_live(pre.ecs, ms, item) {
                        match item_range(pre.ecs, ms, item) {
                            Some(range) => post.ecs.run_state == (RunState::ShowTargeting {
                                range,
                                item,
                            }) && all_frame_culled(pre, post, ms),
                            None => {
                                &&& post.ecs.run_state == RunState::Ticking
                                &&& others_frame_culled(pre, post, ms)
                                &&& post.ecs.player_rec() == (EntityRecord {
                                    wants_to_use: Some(UseIntent { item, target: None }),
                                    ..pre.ecs.player_rec()
                                })
                            },
                        }
                    } else {
                        &&& post.ecs.run_state == RunState::AwaitingInput
                        &&& all_frame_culled(pre, post, ms)
                    }
                },
            }
        },
        RunState::ShowDropItem => {
            &&& stable_res(pre, post)
            &&& stable_mapgen(pre, post)
            &&& stable_flags(pre, post)
            &&& match frame.item_menu {
                ItemMenuResult::Cancel => post.ecs.run_state == RunState::AwaitingInput
                    && all_frame_culled(pre, post, ms),
                ItemMenuResult::NoResponse => post.ecs.run_state == RunState::ShowDropItem
                    && all_frame_culled(pre, post, ms),
                ItemMenuResult::Selected => {
                    if item_live(pre.ecs, ms, frame.item_menu_choice->Some_0) {
                        &&& post.ecs.run_state == RunState::Ticking
                        &&& others_frame_culled(pre, post, ms)
                        &&& post.ecs.player_rec() == (EntityRecord {
                            wants_to_drop: Some(frame.item_menu_choice->Some_0),
                            ..pre.ecs.player_rec()
                        })
                    } else {
                        &&& post.ecs.run_state == RunState::AwaitingInput
                        &&& all_frame_culled(pre, post, ms)
                    }
                },
            }
        },
        RunState::ShowRemoveItem => {
            &&& stable_res(pre, post)
            &&& stable_mapgen(pre, post)
            &&& stable_flags(pre, post)
            &&& match frame.item_menu {
                ItemMenuResult::Cancel => post.ecs.run_state == RunState::AwaitingInput
                    && all_frame_culled(pre, post, ms),
                ItemMenuResult::NoResponse => post.ecs.run_state == RunState::ShowRemoveItem
                    && all_frame_culled(pre, post, ms),
                ItemMenuResult::Selected => {
                    if item_live(pre.ecs, ms, frame.item_menu_choice->Some_0) {
                        &&& post.ecs.run_state == RunState::Ticking
                        &&& others_frame_culled(pre, post, ms)
                        &&& post.ecs.player_rec() == (EntityRecord {
                            wants_to_remove: Some(frame.item_menu_choice->Some_0),
                            ..pre.ecs.player_rec()
                        })
                    } else {
                        &&& post.ecs.run_state == RunState::AwaitingInput
                        &&& all_frame_culled(pre, post, ms)
                    }
                },
            }
        },
        RunState::ShowTargeting { range, item } => {
            &&& stable_res(pre, post)
            &&& stable_mapgen(pre, post)
            &&& stable_flags(pre, post)
            &&& match frame.target_menu {
                ItemMenuResult::Cancel => post.ecs.run_state == RunState::AwaitingInput
                    && all_frame_culled(pre, post, ms),
                ItemMenuResult::NoResponse => post.ecs.run_state == (RunState::ShowTargeting {
                    range,
                    item,
                }) && all_frame_culled(pre, post, ms),
                ItemMenuResult::Selected => {
                    if item_live(pre.ecs, ms, item) {
                        &&& post.ecs.run_state == RunState::Ticking
                        &&& others_frame_culled(pre, post, ms)
                        &&& post.ecs.player_rec() == (EntityRecord {
                            wants_to_use: Some(UseIntent { item, target: frame.target_choice }),
                            ..pre.ecs.player_rec()
                        })
                    } else {
                        &&& post.ecs.run_state == RunState::AwaitingInput
                        &&& all_frame_culled(pre, post, ms)
                    }
                },
            }
        },
        RunState::MainMenu { .. } => {
            match frame.main_menu {
                MainMenuResult::NoSelection { selected } => post.ecs.run_state == (
                RunState::MainMenu { menu_selection: selected }) && quiet_frame(pre, post, ms),
                MainMenuResult::Selected { selected } => match selected {
                    MainMenuSelection::NewGame => post.ecs.run_state == RunState::PreRun
                        && quiet_frame(pre, post, ms),
                    MainMenuSelection::Quit => post.ecs.run_state == pre.ecs.run_state
                        && quiet_frame(pre, post, ms),
                    MainMenuSelection::LoadGame => match pre.save_slot {
                        Some(slot) => {
                            &&& post.ecs.run_state == RunState::AwaitingInput
                            &&& post.save_slot is None
                            &&& post.game_over_done == pre.game_over_done
                            &&& stable_mapgen(pre, post)
                            &&& post.ecs.player_entity == slot.player_entity
                            &&& map_eq(post.ecs.map, slot.map)
                            &&& dungeon_eq(post.ecs.dungeon, slot.dungeon)
                            &&& post.ecs.log.entries@ == slot.log.entries@
                            &&& post.ecs.entities.len() == slot.entities.len()
                            &&& forall|i: int|
                                0 <= i < slot.entities.len() ==> post.ecs.entities[i]
                                    == reaped_rec(slot.entities[i])
                        },
                        None => post.ecs.run_state == (RunState::MainMenu {
                            menu_selection: MainMenuSelection::LoadGame,
                        }) && quiet_frame(pre, post, ms),
                    },
                },
            }
        },
        RunState::SaveGame => {
            &&& post.ecs.run_state == (RunState::MainMenu {
                menu_selection: MainMenuSelection::LoadGame,
            })
            &&& stable_res(pre, post)
            &&& stable_mapgen(pre, post)
            &&& post.game_over_done == pre.game_over_done
            &&& all_frame_culled(pre, post, ms)
            &&& post.save_slot matches Some(s2) && {
                &&& s2.entities.len() == pre.ecs.entities.len()
                &&& (forall|i: int|
                    0 <= i < pre.ecs.entities.len() ==> s2.entities[i] == culled_rec(
                        pre.ecs.entities[i],
                        ms,
                    ))
                &&& map_eq(s2.map, pre.ecs.map)
                &&& dungeon_eq(s2.dungeon, pre.ecs.dungeon)
                &&& s2.log.entries@ == pre.ecs.log.entries@
                &&& s2.player_entity == pre.ecs.player_entity
            }
        },
        RunState::NextLevel => {
            if pre.ecs.map.depth < MAX_DEPTH {
                &&& post.ecs.run_state == RunState::MapGeneration
                &&& post.mapgen_next_state == Some(RunState::PreRun)
                &&& stable_flags(pre, post)
                &&& goto_post(pre, post, ms, 1)
            } else {
                &&& post.ecs.run_state == RunState::AwaitingInput
                &&& quiet_frame(pre, post, ms)
            }
        },
        RunState::PreviousLevel => {
            if pre.ecs.map.depth > 1 {
                &&& post.ecs.run_state == RunState::MapGeneration
                &&& post.mapgen_next_state == Some(RunState::PreRun)
                &&& stable_flags(pre, post)
                &&& goto_post(pre, post, ms, -1)
            } else {
                &&& post.ecs.run_state == RunState::AwaitingInput
                &&& quiet_frame(pre, post, ms)
            }
        },
        RunState::ShowCheatMenu => {
            match frame.cheat_menu {
                CheatMenuResult::Cancel => post.ecs.run_state == RunState::AwaitingInput
                    && quiet_frame(pre, post, ms),
                CheatMenuResult::NoResponse => post.ecs.run_state == RunState::ShowCheatMenu
                    && quiet_frame(pre, post, ms),
                CheatMenuResult::TeleportToExit => {
                    if pre.ecs.map.depth < MAX_DEPTH {
                        &&& post.ecs.run_state == RunState::MapGeneration
                        &&& post.mapgen_next_state == Some(RunState::PreRun)
                        &&& stable_flags(pre, post)
                        &&& goto_post(pre, post, ms, 1)
                    } else {
                        &&& post.ecs.run_state == RunState::AwaitingInput
                        &&& quiet_frame(pre, post, ms)
                    }
                },
            }
        },
        RunState::GameOver => {
            &&& post.ecs.run_state == (if frame.game_over == GameOverResult::QuitToMenu {
                RunState::MainMenu { menu_selection: MainMenuSelection::NewGame }
            } else {
                RunState::GameOver
            })
            &&& post.game_over_done == (frame.game_over != GameOverResult::QuitToMenu)
            &&& post.save_slot == pre.save_slot
            &&& post.mapgen_next_state == pre.mapgen_next_state
            &&& (!pre.game_over_done ==> {
                &&& post.ecs.map.depth == 1
                &&& post.ecs.dungeon.maps.len() == 1
                &&& post.ecs.dungeon.has_depth(1)
                &&& post.ecs.entities.len() == pre.ecs.entities.len() + 1
                &&& (forall|i: int|
                    0 <= i < pre.ecs.entities.len() ==> post.ecs.entities[i] == blank_rec())
                &&& post.ecs.player_entity.0 == pre.ecs.entities.len()
                &&& is_fresh_player_off_start(post.ecs.player_rec())
                &&& post.ecs.player_rec().position == Some(
                    Position { x: post.ecs.map.start_x as i32, y: post.ecs.map.start_y as i32 },
                )
                &&& post.mapgen_index == 0
                &&& post.mapgen_history.len() == 3
                &&& post.ecs.log == pre.ecs.log
            })
            &&& (pre.game_over_done ==> stable_res(pre, post) && stable_mapgen(pre, post)
                && all_frame_culled(pre, post, ms))
        },
        RunState::MagicMapReveal { row } => {
            let w = pre.ecs.map.width as int;
            &&& post.ecs.run_state == (if row == pre.ecs.map.height - 2 {
                RunState::Ticking
            } else {
                RunState::MagicMapReveal { row: (row + 1) as usize }
            })
            &&& stable_mapgen(pre, post)
            &&& stable_flags(pre, post)
            &&& post.ecs.dungeon == pre.ecs.dungeon
            &&& post.ecs.log == pre.ecs.log
            &&& post.ecs.player_entity == pre.ecs.player_entity
            &&& all_frame_culled(pre, post, ms)
            &&& post.ecs.map.width == pre.ecs.map.width
            &&& post.ecs.map.height == pre.ecs.map.height
            &&& post.ecs.map.depth == pre.ecs.map.depth
            &&& post.ecs.map.tiles@ == pre.ecs.map.tiles@
            &&& post.ecs.map.visible_tiles@ == pre.ecs.map.visible_tiles@
            &&& post.ecs.map.name@ == pre.ecs.map.name@
            &&& post.ecs.map.start_x == pre.ecs.map.start_x
            &&& post.ecs.map.start_y == pre.ecs.map.start_y
            &&& post.ecs.map.revealed_tiles.len() == pre.ecs.map.revealed_tiles.len()
            &&& forall|i: int|
                0 <= i < pre.ecs.map.revealed_tiles.len() ==> post.ecs.map.revealed_tiles[i] == (
                pre.ecs.map.revealed_tiles[i] || (row as int) * w <= i < (row as int) * w + w)
        },
        RunState::MapGeneration => {
            let nxt = pre.mapgen_next_state->Some_0;
            &&& stable_res(pre, post)
            &&& stable_flags(pre, post)
            &&& all_frame_culled(pre, post, ms)
            &&& post.mapgen_next_state == pre.mapgen_next_state
            &&& post.mapgen_history == pre.mapgen_history
            &&& (!pre.show_mapgen_visualizer ==> {
                &&& post.ecs.run_state == nxt
                &&& post.mapgen_index == pre.mapgen_index
                &&& post.mapgen_timer == pre.mapgen_timer
            })
            &&& (pre.show_mapgen_visualizer ==> {
                if pre.mapgen_index >= pre.mapgen_history.len() {
                    &&& post.ecs.run_state == nxt
                    &&& post.mapgen_index == pre.mapgen_index
                    &&& post.mapgen_timer == pre.mapgen_timer
                } else if pre.mapgen_timer + ms > MAPGEN_TIMER_MS {
                    &&& post.mapgen_timer == 0
                    &&& post.mapgen_index == pre.mapgen_index + 1
                    &&& post.ecs.run_state == (if pre.mapgen_index + 1
                        == pre.mapgen_history.len() {
                        nxt
                    } else {
                        RunState::MapGeneration
                    })
                } else {
                    &&& post.mapgen_timer == pre.mapgen_timer + ms
                    &&& post.mapgen_index == pre.mapgen_index
                    &&& post.ecs.run_state == RunState::MapGeneration
                }
            })
        },
    }
}

/// Every record but the player's went through exactly the frame's particle
/// cull, then the pipeline pass (intents acting on the slots they name,
/// every other slot untouched), then the unconditional end-of-frame reap.
pub open spec fn pass_frame_culled(pre: State, post: State, ms: u32) -> bool {
    &&& post.ecs.entities.len() == pre.ecs.entities.len()
    &&& forall|i: int|
        0 <= i < pre.ecs.entities.len() && i != pre.ecs.player_ix() ==> post.ecs.entities[i]
            == reaped_rec(pass_chain(pre.ecs, i, culled_rec(pre.ecs.entities[i], ms)))
}

/// A fresh player record, wherever it stands: alive, uniquely tagged, first
/// turn pending, nothing else attached.
pub open spec fn is_fresh_player_off_start(r: EntityRecord) -> bool {
    &&& r == (EntityRecord {
        alive: true,
        player: true,
        name: r.name,
        position: r.position,
        initiative: INITIATIVE_PERIOD,
        ..blank_rec()
    })
    &&& r.position is Some
    &&& r.name matches Some(n) && n@ == "Player"@
}

} // verus!
