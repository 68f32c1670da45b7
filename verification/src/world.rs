//! The world store: one arena of entity records plus the singleton resources
//! (active map, dungeon registry, log, player handle, run state). Level
//! freeze/thaw, the per-frame culls, and intent insertion live here.

use vstd::prelude::*;

use crate::components::{
    blank_rec, culled_rec, frozen_rec, reaped_rec, thawed_rec, Entity, EntityRecord, GameLog,
    OtherLevelPosition, Position, UseIntent, INITIATIVE_PERIOD,
};
use crate::map::{GameMap, MasterDungeonMap};
use crate::state::RunState;

verus! {

/// Owns all entities and the global singleton resources.
pub struct World {
    pub entities: Vec<EntityRecord>,
    pub map: GameMap,
    pub dungeon: MasterDungeonMap,
    pub log: GameLog,
    pub player_entity: Entity,
    pub run_state: RunState,
    /// Deletions queued during a pipeline pass, committed by the single
    /// barrier at the end of the pass.
    pub pending_deletes: Vec<Entity>,
}

/// Whether a queued deletion list names slot `i`.
pub open spec fn pending_hits(p: Seq<Entity>, i: int) -> bool {
    exists|k: int| 0 <= k < p.len() && p[k].0 == i
}

/// The two worlds agree on everything but the entity arena.
pub open spec fn same_but_entities(a: World, b: World) -> bool {
    &&& a.map == b.map
    &&& a.dungeon == b.dungeon
    &&& a.log == b.log
    &&& a.player_entity == b.player_entity
    &&& a.run_state == b.run_state
    &&& a.pending_deletes == b.pending_deletes
}

impl World {
    /// The record of the entity holding the "player" tag.
    pub open spec fn player_rec(self) -> EntityRecord {
        self.entities[self.player_entity.0 as int]
    }

    pub open spec fn player_ix(self) -> int {
        self.player_entity.0 as int
    }

    /// Well-formedness: the player handle names a live record that holds the
    /// "player" tag, no other record holds it, the player always has a turn
    /// coming (positive initiative), and the map and registry are well formed.
    pub open spec fn wf(self) -> bool {
        &&& self.player_ix() < self.entities.len()
        &&& self.player_rec().alive
        &&& self.player_rec().player
        &&& self.player_rec().initiative >= 1
        &&& self.player_rec().other_level_position is None
        &&& forall|i: int|
            0 <= i < self.entities.len() && i != self.player_ix() ==> !(
            #[trigger] self.entities[i]).player
        &&& self.map.wf()
        &&& self.dungeon.wf()
    }

    /// Soundness of the frozen markers, independent of which level is
    /// active: a live entity's marker names a depth the registry retains,
    /// and a marked entity never also stands on a map.
    pub open spec fn markers_sound(self) -> bool {
        forall|i: int|
            0 <= i < self.entities.len() ==> ((#[trigger] self.entities[i]).alive ==> {
                &&& (self.entities[i].other_level_position matches Some(m)
                    ==> self.dungeon.has_depth(m.depth as int))
                &&& !(self.entities[i].position is Some
                    && self.entities[i].other_level_position is Some)
            })
    }

    /// Consistency of the active/inactive partition between frames: markers
    /// are sound and no live entity is frozen at the active depth.
    pub open spec fn entities_consistent(self) -> bool {
        &&& self.markers_sound()
        &&& forall|i: int|
            0 <= i < self.entities.len() ==> !((#[trigger] self.entities[i]).alive
                && (self.entities[i].other_level_position matches Some(m) && m.depth
                    == self.map.depth))
    }

    /// Destroys live non-player particles whose lifetime the frame exhausts
    /// and counts the frame against the survivors.
    pub fn cull_dead_particles(&mut self, frame_ms: u32)
        requires
            old(self).wf(),
        ensures
            final(self).wf(),
            same_but_entities(*old(self), *final(self)),
            final(self).entities.len() == old(self).entities.len(),
            forall|i: int|
                0 <= i < old(self).entities.len() ==> final(self).entities[i] == culled_rec(
                    old(self).entities[i],
                    frame_ms,
                ),
            old(self).entities_consistent() ==> final(self).entities_consistent(),
    {
        let n = self.entities.len();
        let mut k: usize = 0;
        while k < n
            invariant
                n == self.entities.len(),
                n == old(self).entities.len(),
                k <= n,
                same_but_entities(*old(self), *self),
                forall|i: int|
                    0 <= i < k ==> self.entities[i] == culled_rec(old(self).entities[i], frame_ms),
                forall|i: int| k <= i < n ==> self.entities[i] == old(self).entities[i],
            decreases n - k,
        {
            if self.entities[k].alive && !self.entities[k].player {
                match self.entities[k].particle_ms {
                    Some(t) => {
                        if t <= frame_ms {
                            self.entities.set(k, EntityRecord::blank());
                        } else {
                            let mut r = self.entities[k].clone_rec();
                            r.particle_ms = Some(t - frame_ms);
                            self.entities.set(k, r);
                        }
                    },
                    None => {},
                }
            }
            k = k + 1;
        }
    }

    /// The fixed post-step cleanup: destroys every live non-player entity
    /// marked dead, exactly once, unconditionally.
    pub fn delete_the_dead(&mut self)
        requires
            old(self).wf(),
        ensures
            final(self).wf(),
            same_but_entities(*old(self), *final(self)),
            final(self).entities.len() == old(self).entities.len(),
            forall|i: int|
                0 <= i < old(self).entities.len() ==> final(self).entities[i] == reaped_rec(
                    old(self).entities[i],
                ),
            old(self).entities_consistent() ==> final(self).entities_consistent(),
    {
        let n = self.entities.len();
        let mut k: usize = 0;
        while k < n
            invariant
                n == self.entities.len(),
                n == old(self).entities.len(),
                k <= n,
                same_but_entities(*old(self), *self),
                forall|i: int|
                    0 <= i < k ==> self.entities[i] == reaped_rec(old(self).entities[i]),
                forall|i: int| k <= i < n ==> self.entities[i] == old(self).entities[i],
            decreases n - k,
        {
            if self.entities[k].alive && !self.entities[k].player && self.entities[k].dead {
                self.entities.set(k, EntityRecord::blank());
            }
            k = k + 1;
        }
    }

    /// The barrier at the end of a pipeline pass: commits every queued
    /// deletion at once and empties the queue. No stage of the same pass
    /// observes a partially applied deletion.
    pub fn maintain(&mut self)
        requires
            old(self).wf(),
            forall|k: int|
                0 <= k < old(self).pending_deletes.len() ==> (
                #[trigger] old(self).pending_deletes[k]).0 < old(self).entities.len()
                    && old(self).pending_deletes[k].0 != old(self).player_entity.0,
        ensures
            final(self).wf(),
            final(self).pending_deletes.len() == 0,
            final(self).map == old(self).map,
            final(self).dungeon == old(self).dungeon,
            final(self).log == old(self).log,
            final(self).player_entity == old(self).player_entity,
            final(self).run_state == old(self).run_state,
            final(self).entities.len() == old(self).entities.len(),
            forall|i: int|
                0 <= i < old(self).entities.len() ==> final(self).entities[i] == (if pending_hits(
                    old(self).pending_deletes@,
                    i,
                ) {
                    blank_rec()
                } else {
                    old(self).entities[i]
                }),
            old(self).entities_consistent() ==> final(self).entities_consistent(),
    {
        let m = self.pending_deletes.len();
        let mut j: usize = 0;
        while j < m
            invariant
                m == self.pending_deletes.len(),
                self.pending_deletes == old(self).pending_deletes,
                j <= m,
                self.entities.len() == old(self).entities.len(),
                self.map == old(self).map,
                self.dungeon == old(self).dungeon,
                self.log == old(self).log,
                self.player_entity == old(self).player_entity,
                self.run_state == old(self).run_state,
                forall|k: int|
                    0 <= k < m ==> (#[trigger] old(self).pending_deletes[k]).0 < old(self).entities.len() && old(self).pending_deletes[k].0 != old(self).player_entity.0,
                forall|i: int|
                    0 <= i < self.entities.len() ==> self.entities[i] == (if pending_hits(
                        old(self).pending_deletes@.subrange(0, j as int),
                        i,
                    ) {
                        blank_rec()
                    } else {
                        old(self).entities[i]
                    }),
            decreases m - j,
        {
            let d = self.pending_deletes[j];
            self.entities.set(d.0, EntityRecord::blank());
            proof {
                let pre = old(self).pending_deletes@.subrange(0, j as int);
                let post = old(self).pending_deletes@.subrange(0, j as int + 1);
                assert(post.last() == old(self).pending_deletes@[j as int]);
                assert forall|i: int| 0 <= i < self.entities.len() implies self.entities[i] == (
                if pending_hits(post, i) {
                    blank_rec()
                } else {
                    old(self).entities[i]
                }) by {
                    if i == d.0 {
                        assert(post[j as int].0 == i);
                        assert(pending_hits(post, i));
                    } else {
                        if pending_hits(post, i) {
                            let k = choose|k: int| 0 <= k < post.len() && post[k].0 == i;
                            assert(pre[k] == post[k]);
                            assert(pending_hits(pre, i));
                        }
                        if pending_hits(pre, i) {
                            let k = choose|k: int| 0 <= k < pre.len() && pre[k].0 == i;
                            assert(post[k] == pre[k]);
                            assert(pending_hits(post, i));
                        }
                    }
                }
            }
            j = j + 1;
        }
        proof {
            assert(old(self).pending_deletes@.subrange(0, m as int) =~= old(self).pending_deletes@);
        }
        self.pending_deletes.clear();
    }

    /// Freezes the active level: every live non-player entity standing on the
    /// map trades its position for a marker recording the active depth.
    pub fn freeze_level_entities(&mut self)
        requires
            old(self).wf(),
        ensures
            final(self).wf(),
            same_but_entities(*old(self), *final(self)),
            final(self).entities.len() == old(self).entities.len(),
            forall|i: int|
                0 <= i < old(self).entities.len() ==> final(self).entities[i] == frozen_rec(
                    old(self).entities[i],
                    old(self).map.depth,
                ),
    {
        let depth = self.map.depth;
        let n = self.entities.len();
        let mut k: usize = 0;
        while k < n
            invariant
                n == self.entities.len(),
                n == old(self).entities.len(),
                k <= n,
                depth == old(self).map.depth,
                same_but_entities(*old(self), *self),
                forall|i: int|
                    0 <= i < k ==> self.entities[i] == frozen_rec(old(self).entities[i], depth),
                forall|i: int| k <= i < n ==> self.entities[i] == old(self).entities[i],
            decreases n - k,
        {
            if self.entities[k].alive && !self.entities[k].player {
                match self.entities[k].position {
                    Some(p) => {
                        let mut r = self.entities[k].clone_rec();
                        r.position = None;
                        r.other_level_position = Some(
                            OtherLevelPosition { x: p.x, y: p.y, depth },
                        );
                        self.entities.set(k, r);
                    },
                    None => {},
                }
            }
            k = k + 1;
        }
    }

    /// Thaws entities belonging to the active depth: every live entity whose
    /// marker matches gets its position back and loses the marker.
    pub fn thaw_level_entities(&mut self)
        requires
            old(self).wf(),
        ensures
            final(self).wf(),
            same_but_entities(*old(self), *final(self)),
            final(self).entities.len() == old(self).entities.len(),
            forall|i: int|
                0 <= i < old(self).entities.len() ==> final(self).entities[i] == thawed_rec(
                    old(self).entities[i],
                    old(self).map.depth,
                ),
            old(self).entities_consistent() ==> final(self).entities_consistent(),
    {
        let depth = self.map.depth;
        let n = self.entities.len();
        let mut k: usize = 0;
        while k < n
            invariant
                n == self.entities.len(),
                n == old(self).entities.len(),
                k <= n,
                depth == old(self).map.depth,
                same_but_entities(*old(self), *self),
                forall|i: int|
                    0 <= i < k ==> self.entities[i] == thawed_rec(old(self).entities[i], depth),
                forall|i: int| k <= i < n ==> self.entities[i] == old(self).entities[i],
            decreases n - k,
        {
            if self.entities[k].alive {
                match self.entities[k].other_level_position {
                    Some(olp) => {
                        if olp.depth == depth {
                            let mut r = self.entities[k].clone_rec();
                            r.position = Some(Position { x: olp.x, y: olp.y });
                            r.other_level_position = None;
                            self.entities.set(k, r);
                        }
                    },
                    None => {},
                }
            }
            k = k + 1;
        }
    }

    /// Destroys every entity unconditionally, the player included; used only
    /// by the game-over reset, which spawns a fresh player immediately after.
    pub fn delete_all_entities(&mut self)
        ensures
            same_but_entities(*old(self), *final(self)),
            final(self).entities.len() == old(self).entities.len(),
            forall|i: int|
                0 <= i < old(self).entities.len() ==> final(self).entities[i] == blank_rec(),
    {
        let n = self.entities.len();
        let mut k: usize = 0;
        while k < n
            invariant
                n == self.entities.len(),
                n == old(self).entities.len(),
                k <= n,
                same_but_entities(*old(self), *self),
                forall|i: int| 0 <= i < k ==> self.entities[i] == blank_rec(),
            decreases n - k,
        {
            self.entities.set(k, EntityRecord::blank());
            k = k + 1;
        }
    }

    /// Spawns a fresh player entity at the given cell and returns its handle.
    /// The caller installs the handle as the player resource.
    pub fn spawn_player(&mut self, x: i32, y: i32) -> (e: Entity)
        ensures
            same_but_entities(*old(self), *final(self)),
            final(self).entities.len() == old(self).entities.len() + 1,
            forall|i: int|
                0 <= i < old(self).entities.len() ==> final(self).entities[i] == old(self).entities[i],
            e.0 == old(self).entities.len(),
            is_fresh_player(final(self).entities[e.0 as int], x, y),
    {
        let e = Entity(self.entities.len());
        let mut r = EntityRecord::blank();
        r.alive = true;
        r.player = true;
        r.name = Some(player_name());
        r.position = Some(Position { x, y });
        r.initiative = INITIATIVE_PERIOD;
        self.entities.push(r);
        e
    }

    /// Places the player on the given cell.
    pub fn set_player_position(&mut self, p: Position)
        requires
            old(self).wf(),
        ensures
            final(self).wf(),
            same_but_entities(*old(self), *final(self)),
            final(self).entities.len() == old(self).entities.len(),
            final(self).player_rec() == (EntityRecord {
                position: Some(p),
                ..old(self).player_rec()
            }),
            forall|i: int|
                0 <= i < old(self).entities.len() && i != old(self).player_ix() ==> final(self).entities[i] == old(self).entities[i],
            old(self).entities_consistent() ==> final(self).entities_consistent(),
    {
        let ix = self.player_entity.0;
        let mut r = self.entities[ix].clone_rec();
        r.position = Some(p);
        self.entities.set(ix, r);
    }

    /// Spawns an item entity standing on the given cell and returns its
    /// handle.
    pub fn spawn_item(
        &mut self,
        name: String,
        x: i32,
        y: i32,
        consumable: bool,
        magic_mapper: bool,
        ranged: Option<i32>,
    ) -> (e: Entity)
        requires
            old(self).wf(),
        ensures
            final(self).wf(),
            same_but_entities(*old(self), *final(self)),
            final(self).entities.len() == old(self).entities.len() + 1,
            forall|i: int|
                0 <= i < old(self).entities.len() ==> final(self).entities[i] == old(
                    self,
                ).entities[i],
            e.0 == old(self).entities.len(),
            final(self).entities[e.0 as int] == (EntityRecord {
                alive: true,
                is_item: true,
                name: final(self).entities[e.0 as int].name,
                position: Some(Position { x, y }),
                consumable,
                magic_mapper,
                ranged,
                ..blank_rec()
            }),
            final(self).entities[e.0 as int].name matches Some(n) && n@ == name@,
            old(self).entities_consistent() ==> final(self).entities_consistent(),
    {
        let e = Entity(self.entities.len());
        let mut r = EntityRecord::blank();
        r.alive = true;
        r.is_item = true;
        r.name = Some(name);
        r.position = Some(Position { x, y });
        r.consumable = consumable;
        r.magic_mapper = magic_mapper;
        r.ranged = ranged;
        self.entities.push(r);
        e
    }

    /// Spawns a monster entity standing on the given cell and returns its
    /// handle; its behaviour (AI, combat) is outside this core.
    pub fn spawn_monster(&mut self, name: String, x: i32, y: i32) -> (e: Entity)
        requires
            old(self).wf(),
        ensures
            final(self).wf(),
            same_but_entities(*old(self), *final(self)),
            final(self).entities.len() == old(self).entities.len() + 1,
            forall|i: int|
                0 <= i < old(self).entities.len() ==> final(self).entities[i] == old(
                    self,
                ).entities[i],
            e.0 == old(self).entities.len(),
            final(self).entities[e.0 as int] == (EntityRecord {
                alive: true,
                name: final(self).entities[e.0 as int].name,
                position: Some(Position { x, y }),
                initiative: INITIATIVE_PERIOD,
                ..blank_rec()
            }),
            final(self).entities[e.0 as int].name matches Some(n) && n@ == name@,
            old(self).entities_consistent() ==> final(self).entities_consistent(),
    {
        let e = Entity(self.entities.len());
        let mut r = EntityRecord::blank();
        r.alive = true;
        r.name = Some(name);
        r.position = Some(Position { x, y });
        r.initiative = INITIATIVE_PERIOD;
        self.entities.push(r);
        e
    }

    /// Marks an entity dead so the unconditional end-of-frame cull destroys
    /// it; how an entity comes to die (combat, traps) is outside this core.
    pub fn mark_dead(&mut self, e: Entity)
        requires
            old(self).wf(),
            e.0 < old(self).entities.len(),
        ensures
            final(self).wf(),
            same_but_entities(*old(self), *final(self)),
            final(self).entities.len() == old(self).entities.len(),
            final(self).entities[e.0 as int] == (EntityRecord {
                dead: true,
                ..old(self).entities[e.0 as int]
            }),
            forall|i: int|
                0 <= i < old(self).entities.len() && i != e.0 ==> final(self).entities[i] == old(self).entities[i],
            old(self).entities_consistent() ==> final(self).entities_consistent(),
    {
        let mut r = self.entities[e.0].clone_rec();
        r.dead = true;
        self.entities.set(e.0, r);
    }

    /// Records the player's "use this item on that target" intent.
    pub fn insert_use_intent(&mut self, item: Entity, target: Option<Position>)
        requires
            old(self).wf(),
        ensures
            final(self).wf(),
            same_but_entities(*old(self), *final(self)),
            final(self).entities.len() == old(self).entities.len(),
            final(self).player_rec() == (EntityRecord {
                wants_to_use: Some(UseIntent { item, target }),
                ..old(self).player_rec()
            }),
            forall|i: int|
                0 <= i < old(self).entities.len() && i != old(self).player_ix() ==> final(self).entities[i] == old(self).entities[i],
            old(self).entities_consistent() ==> final(self).entities_consistent(),
    {
        let p = self.player_entity.0;
        let mut r = self.entities[p].clone_rec();
        r.wants_to_use = Some(UseIntent { item, target });
        self.entities.set(p, r);
    }

    /// Records the player's "drop this item" intent.
    pub fn insert_drop_intent(&mut self, item: Entity)
        requires
            old(self).wf(),
        ensures
            final(self).wf(),
            same_but_entities(*old(self), *final(self)),
            final(self).entities.len() == old(self).entities.len(),
            final(self).player_rec() == (EntityRecord {
                wants_to_drop: Some(item),
                ..old(self).player_rec()
            }),
            forall|i: int|
                0 <= i < old(self).entities.len() && i != old(self).player_ix() ==> final(self).entities[i] == old(self).entities[i],
            old(self).entities_consistent() ==> final(self).entities_consistent(),
    {
        let p = self.player_entity.0;
        let mut r = self.entities[p].clone_rec();
        r.wants_to_drop = Some(item);
        self.entities.set(p, r);
    }

    /// Records the player's "unequip this item" intent.
    pub fn insert_remove_intent(&mut self, item: Entity)
        requires
            old(self).wf(),
        ensures
            final(self).wf(),
            same_but_entities(*old(self), *final(self)),
            final(self).entities.len() == old(self).entities.len(),
            final(self).player_rec() == (EntityRecord {
                wants_to_remove: Some(item),
                ..old(self).player_rec()
            }),
            forall|i: int|
                0 <= i < old(self).entities.len() && i != old(self).player_ix() ==> final(self).entities[i] == old(self).entities[i],
            old(self).entities_consistent() ==> final(self).entities_consistent(),
    {
        let p = self.player_entity.0;
        let mut r = self.entities[p].clone_rec();
        r.wants_to_remove = Some(item);
        self.entities.set(p, r);
    }

    /// Records the player's "pick up this item" intent; the input collaborator
    /// requests this when the player walks over an item.
    pub fn insert_pickup_intent(&mut self, item: Entity)
        requires
            old(self).wf(),
        ensures
            final(self).wf(),
            same_but_entities(*old(self), *final(self)),
            final(self).entities.len() == old(self).entities.len(),
            final(self).player_rec() == (EntityRecord {
                wants_to_pickup: Some(item),
                ..old(self).player_rec()
            }),
            forall|i: int|
                0 <= i < old(self).entities.len() && i != old(self).player_ix() ==> final(self).entities[i] == old(self).entities[i],
            old(self).entities_consistent() ==> final(self).entities_consistent(),
    {
        let p = self.player_entity.0;
        let mut r = self.entities[p].clone_rec();
        r.wants_to_pickup = Some(item);
        self.entities.set(p, r);
    }
}

/// The fresh player record: alive, tagged as the player, standing at the
/// given cell, first turn pending, nothing else attached.
pub open spec fn is_fresh_player(r: EntityRecord, x: i32, y: i32) -> bool {
    &&& r == (EntityRecord {
        alive: true,
        player: true,
        name: r.name,
        position: Some(Position { x, y }),
        initiative: INITIATIVE_PERIOD,
        ..blank_rec()
    })
    &&& r.name matches Some(n) && n@ == "Player"@
}

/// The player's display name.
fn player_name() -> (s: String)
    ensures
        s@ == "Player"@,
{
    let s: String = "Player".to_string();
    s
}

/// Exactly one entity holds the "player" tag in a well-formed world: the one
/// the player resource names, and it is alive.
pub proof fn lemma_exactly_one_player(w: World)
    requires
        w.wf(),
    ensures
        0 <= w.player_ix() < w.entities.len(),
        w.entities[w.player_ix()].alive && w.entities[w.player_ix()].player,
        forall|i: int, j: int|
            0 <= i < w.entities.len() && 0 <= j < w.entities.len()
                && (#[trigger] w.entities[i]).player && (#[trigger] w.entities[j]).player ==> i
                == j,
{
    assert forall|i: int, j: int|
        0 <= i < w.entities.len() && 0 <= j < w.entities.len() && (#[trigger] w.entities[i]).player
            && (#[trigger] w.entities[j]).player implies i == j by {
        assert(i == w.player_ix());
        assert(j == w.player_ix());
    }
}

/// Freezing the active level and then thawing that same depth restores every
/// record exactly: a live non-player entity standing on the map gets its
/// position and component set back unchanged, and every other record is
/// untouched throughout. Holds provided no live entity was already frozen at
/// the active depth (thawing would wrongly reposition it) and no entity both
/// stands on the map and carries a stale marker.
pub proof fn lemma_freeze_thaw_round_trip(s: Seq<EntityRecord>, depth: i32)
    requires
        forall|i: int|
            0 <= i < s.len() ==> !((#[trigger] s[i]).alive
                && (s[i].other_level_position matches Some(m) && m.depth == depth)),
        forall|i: int|
            0 <= i < s.len() && (#[trigger] s[i]).alive && s[i].position is Some
                ==> s[i].other_level_position is None,
    ensures
        forall|i: int|
            0 <= i < s.len() ==> thawed_rec(#[trigger] frozen_rec(s[i], depth), depth) == s[i],
{
    assert forall|i: int|
        0 <= i < s.len() implies thawed_rec(#[trigger] frozen_rec(s[i], depth), depth) == s[i] by {
        let e = s[i];
        let f = frozen_rec(e, depth);
        if e.alive && !e.player && e.position is Some {
            assert(e.other_level_position is None);
            assert(thawed_rec(f, depth) == e);
        } else {
            assert(f == e);
            if e.alive {
                assert(thawed_rec(f, depth) == e);
            } else {
                assert(thawed_rec(f, depth) == e);
            }
        }
    }
}

/// In a well-formed, consistent world, freezing the active level and thawing
/// that same depth restores every record exactly: the validity conditions of
/// the round trip hold of every reachable world.
pub proof fn lemma_world_freeze_thaw_round_trip(w: World)
    requires
        w.wf(),
        w.entities_consistent(),
    ensures
        forall|i: int|
            0 <= i < w.entities.len() ==> thawed_rec(
                #[trigger] frozen_rec(w.entities[i], w.map.depth),
                w.map.depth,
            ) == w.entities[i],
{
    lemma_freeze_thaw_round_trip(w.entities@, w.map.depth);
}

} // verus!
