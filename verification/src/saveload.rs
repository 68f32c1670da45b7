//! The persistence manager: a single-slot snapshot of everything needed to
//! reconstruct the world. Serializing the snapshot to durable storage and
//! back is the caller's concern; the core guarantees the snapshot itself
//! round-trips the entity and resource state exactly.

use vstd::prelude::*;

use crate::components::{Entity, EntityRecord, GameLog};
use crate::map::{map_eq, GameMap, MasterDungeonMap};
use crate::world::World;

verus! {

/// One saved game: every entity record and every singleton resource needed
/// to reconstruct the world. Transient visualization state (replay history,
/// cursor, timer) is deliberately not part of it.
pub struct SavedGame {
    pub entities: Vec<EntityRecord>,
    pub map: GameMap,
    pub dungeon: MasterDungeonMap,
    pub log: GameLog,
    pub player_entity: Entity,
}

/// The two registries hold the same levels in the same order.
pub open spec fn dungeon_eq(a: MasterDungeonMap, b: MasterDungeonMap) -> bool {
    &&& a.maps.len() == b.maps.len()
    &&& forall|i: int| 0 <= i < a.maps.len() ==> map_eq(a.maps[i], b.maps[i])
}

/// The snapshot holds exactly the world's entities and resources.
pub open spec fn saved_matches(s: SavedGame, w: World) -> bool {
    &&& s.entities@ == w.entities@
    &&& map_eq(s.map, w.map)
    &&& dungeon_eq(s.dungeon, w.dungeon)
    &&& s.log.entries@ == w.log.entries@
    &&& s.player_entity == w.player_entity
}

impl SavedGame {
    /// The saved world was well formed: the player record is live and unique,
    /// and the map and registry are consistent.
    pub open spec fn wf(self) -> bool {
        &&& self.player_entity.0 < self.entities.len()
        &&& self.entities[self.player_entity.0 as int].alive
        &&& self.entities[self.player_entity.0 as int].player
        &&& self.entities[self.player_entity.0 as int].initiative >= 1
        &&& self.entities[self.player_entity.0 as int].other_level_position is None
        &&& forall|i: int|
            0 <= i < self.entities.len() && i != self.player_entity.0 ==> !(
            #[trigger] self.entities[i]).player
        &&& self.map.wf()
        &&& self.dungeon.wf()
        &&& forall|i: int|
            0 <= i < self.entities.len() ==> ((#[trigger] self.entities[i]).alive ==> {
                &&& (self.entities[i].other_level_position matches Some(m) ==> m.depth
                    != self.map.depth && self.dungeon.has_depth(m.depth as int))
                &&& !(self.entities[i].position is Some
                    && self.entities[i].other_level_position is Some)
            })
    }
}

/// An element-for-element copy of a record vector.
fn copy_records(v: &Vec<EntityRecord>) -> (r: Vec<EntityRecord>)
    ensures
        r@ == v@,
{
    let mut r: Vec<EntityRecord> = Vec::new();
    let mut k: usize = 0;
    while k < v.len()
        invariant
            k <= v.len(),
            r@ =~= v@.subrange(0, k as int),
        decreases v.len() - k,
    {
        r.push(v[k].clone_rec());
        k = k + 1;
    }
    proof {
        assert(r@ =~= v@);
    }
    r
}

/// An element-for-element copy of a string vector.
fn copy_strings(v: &Vec<String>) -> (r: Vec<String>)
    ensures
        r@ == v@,
{
    let mut r: Vec<String> = Vec::new();
    let mut k: usize = 0;
    while k < v.len()
        invariant
            k <= v.len(),
            r@ =~= v@.subrange(0, k as int),
        decreases v.len() - k,
    {
        r.push(v[k].clone());
        k = k + 1;
    }
    proof {
        assert(r@ =~= v@);
    }
    r
}

/// A level-for-level copy of the dungeon registry.
fn copy_dungeon(d: &MasterDungeonMap) -> (r: MasterDungeonMap)
    requires
        d.wf(),
    ensures
        r.wf(),
        dungeon_eq(r, *d),
{
    let mut maps: Vec<GameMap> = Vec::new();
    let mut k: usize = 0;
    while k < d.maps.len()
        invariant
            d.wf(),
            k <= d.maps.len(),
            maps.len() == k,
            forall|i: int| 0 <= i < k ==> map_eq(#[trigger] maps[i], d.maps[i]),
        decreases d.maps.len() - k,
    {
        maps.push(d.maps[k].clone_map());
        k = k + 1;
    }
    let r = MasterDungeonMap { maps };
    proof {
        assert forall|i: int| 0 <= i < r.maps.len() implies (#[trigger] r.maps[i]).wf() by {
            assert(map_eq(r.maps[i], d.maps[i]));
            assert(r.maps[i].tiles@.len() == d.maps[i].tiles@.len());
            assert(r.maps[i].revealed_tiles@.len() == d.maps[i].revealed_tiles@.len());
            assert(r.maps[i].visible_tiles@.len() == d.maps[i].visible_tiles@.len());
        }
        assert forall|i: int, j: int| 0 <= i < j < r.maps.len() implies r.maps[i].depth
            != r.maps[j].depth by {
            assert(map_eq(r.maps[i], d.maps[i]));
            assert(map_eq(r.maps[j], d.maps[j]));
        }
    }
    r
}

/// Serializes the world into the single save slot: a snapshot of all
/// entities and resources, overwriting any prior save.
pub fn save_game(w: &World) -> (s: SavedGame)
    requires
        w.wf(),
        w.entities_consistent(),
    ensures
        saved_matches(s, *w),
        s.wf(),
{
    let s = SavedGame {
        entities: copy_records(&w.entities),
        map: w.map.clone_map(),
        dungeon: copy_dungeon(&w.dungeon),
        log: GameLog { entries: copy_strings(&w.log.entries) },
        player_entity: w.player_entity,
    };
    proof {
        assert forall|d: int| w.dungeon.has_depth(d) implies s.dungeon.has_depth(d) by {
            let k = w.dungeon.index_of(d);
            assert(map_eq(s.dungeon.maps[k], w.dungeon.maps[k]));
        }
    }
    s
}

/// Fully replaces the current world state with the snapshot: entities,
/// active map, dungeon registry, log and player handle; queued deletions are
/// discarded with the replaced world. The run state is left for the caller.
pub fn load_game(w: &mut World, s: &SavedGame)
    requires
        s.wf(),
    ensures
        final(w).wf(),
        final(w).entities_consistent(),
        saved_matches(*s, *final(w)),
        final(w).run_state == old(w).run_state,
        final(w).pending_deletes.len() == 0,
{
    w.entities = copy_records(&s.entities);
    w.map = s.map.clone_map();
    w.dungeon = copy_dungeon(&s.dungeon);
    w.log = GameLog { entries: copy_strings(&s.log.entries) };
    w.player_entity = s.player_entity;
    w.pending_deletes = Vec::new();
    proof {
        assert(w.map.tiles@.len() == s.map.tiles@.len());
        assert(w.map.revealed_tiles@.len() == s.map.revealed_tiles@.len());
        assert(w.map.visible_tiles@.len() == s.map.visible_tiles@.len());
        assert(w.map.wf());
        assert forall|d: int| s.dungeon.has_depth(d) implies w.dungeon.has_depth(d) by {
            let k = s.dungeon.index_of(d);
            assert(map_eq(w.dungeon.maps[k], s.dungeon.maps[k]));
        }
        assert(w.entities_consistent());
    }
}

/// Saving and then loading reproduces the entity and component set exactly:
/// the same records (names, positions, backpack contents) at the same
/// handles, the same map, registry and log — the snapshot neither keeps nor
/// needs any transient visualization state.
pub proof fn lemma_save_load_round_trip(w1: World, s: SavedGame, w2: World)
    requires
        saved_matches(s, w1),
        saved_matches(s, w2),
    ensures
        w2.entities@ == w1.entities@,
        map_eq(w2.map, w1.map),
        dungeon_eq(w2.dungeon, w1.dungeon),
        w2.log.entries@ == w1.log.entries@,
        w2.player_entity == w1.player_entity,
{
    assert forall|i: int| 0 <= i < w2.dungeon.maps.len() implies map_eq(
        #[trigger] w2.dungeon.maps[i],
        w1.dungeon.maps[i],
    ) by {
        assert(map_eq(s.dungeon.maps[i], w1.dungeon.maps[i]));
        assert(map_eq(s.dungeon.maps[i], w2.dungeon.maps[i]));
    }
}

} // verus!
