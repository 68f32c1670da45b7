//! Entities and the components the simulation core reads: identity tags,
//! positions, level-association markers, item data and pending player intents.

use vstd::prelude::*;

verus! {

/// How many pipeline passes elapse between two of the player's turns.
pub const INITIATIVE_PERIOD: u32 = 6;

/// An opaque entity handle: an index into the world's entity arena.
#[derive(Clone, Copy, PartialEq, Eq, Structural, Debug)]
pub struct Entity(pub usize);

/// A cell position on the active map.
#[derive(Clone, Copy, PartialEq, Eq, Structural, Debug)]
pub struct Position {
    pub x: i32,
    pub y: i32,
}

/// Marker for an entity frozen on an inactive level: the depth it belongs to
/// and its last known position there.
#[derive(Clone, Copy, PartialEq, Eq, Structural, Debug)]
pub struct OtherLevelPosition {
    pub x: i32,
    pub y: i32,
    pub depth: i32,
}

/// A pending "use this item on that target" player intent.
#[derive(Clone, Copy, Debug)]
pub struct UseIntent {
    pub item: Entity,
    pub target: Option<Position>,
}

/// One slot of the entity arena: the entity's liveness and every component
/// the simulation core reads, each optional component present or absent.
pub struct EntityRecord {
    /// Whether this arena slot currently holds a live entity.
    pub alive: bool,
    /// The unique "player" tag.
    pub player: bool,
    pub name: Option<String>,
    /// Position on the active map; absent while frozen or carried.
    pub position: Option<Position>,
    /// Present exactly while the entity is frozen on an inactive level.
    pub other_level_position: Option<OtherLevelPosition>,
    /// Owner whose backpack holds this entity.
    pub in_backpack: Option<Entity>,
    /// Owner wearing or wielding this entity.
    pub equipped_by: Option<Entity>,
    pub is_item: bool,
    /// A consumable item is destroyed by the inventory stage when used.
    pub consumable: bool,
    /// Targeting range, where this entity is a ranged item.
    pub ranged: Option<i32>,
    /// Using this item reveals the whole map row by row.
    pub magic_mapper: bool,
    /// Passes left until this entity's next turn; the player's drives the
    /// `Ticking` loop back to `AwaitingInput`.
    pub initiative: u32,
    /// Marked for the unconditional end-of-frame cull.
    pub dead: bool,
    /// Remaining lifetime of a particle effect, in milliseconds.
    pub particle_ms: Option<u32>,
    pub wants_to_pickup: Option<Entity>,
    pub wants_to_use: Option<UseIntent>,
    pub wants_to_drop: Option<Entity>,
    pub wants_to_remove: Option<Entity>,
}

/// The record of an empty arena slot: not alive, every component absent.
pub open spec fn blank_rec() -> EntityRecord {
    EntityRecord {
        alive: false,
        player: false,
        name: None,
        position: None,
        other_level_position: None,
        in_backpack: None,
        equipped_by: None,
        is_item: false,
        consumable: false,
        ranged: None,
        magic_mapper: false,
        initiative: 0,
        dead: false,
        particle_ms: None,
        wants_to_pickup: None,
        wants_to_use: None,
        wants_to_drop: None,
        wants_to_remove: None,
    }
}

/// What freezing the active level does to one record: a live non-player
/// entity standing on the map trades its position for a level-association
/// marker recording the given depth; every other record is untouched.
pub open spec fn frozen_rec(e: EntityRecord, depth: i32) -> EntityRecord {
    match e.position {
        Some(p) => if e.alive && !e.player {
            EntityRecord {
                position: None,
                other_level_position: Some(OtherLevelPosition { x: p.x, y: p.y, depth }),
                ..e
            }
        } else {
            e
        },
        None => e,
    }
}

/// What thawing entities of the given depth does to one record: a live entity
/// whose marker matches the depth gets its position back and loses the
/// marker; every other record is untouched.
pub open spec fn thawed_rec(e: EntityRecord, depth: i32) -> EntityRecord {
    match e.other_level_position {
        Some(olp) => if e.alive && olp.depth == depth {
            EntityRecord {
                position: Some(Position { x: olp.x, y: olp.y }),
                other_level_position: None,
                ..e
            }
        } else {
            e
        },
        None => e,
    }
}

/// What one frame's particle cull does to one record: a live non-player
/// particle whose lifetime the frame exhausts is destroyed, one that
/// survives keeps the remainder; every other record is untouched.
pub open spec fn culled_rec(e: EntityRecord, frame_ms: u32) -> EntityRecord {
    if e.alive && !e.player {
        match e.particle_ms {
            Some(t) => if t <= frame_ms {
                blank_rec()
            } else {
                EntityRecord { particle_ms: Some((t - frame_ms) as u32), ..e }
            },
            None => e,
        }
    } else {
        e
    }
}

/// What the unconditional end-of-frame cull does to one record: a live
/// non-player entity marked dead is destroyed; every other record is
/// untouched.
pub open spec fn reaped_rec(e: EntityRecord) -> EntityRecord {
    if e.alive && !e.player && e.dead {
        blank_rec()
    } else {
        e
    }
}

impl EntityRecord {
    /// The record of an empty arena slot.
    pub fn blank() -> (r: EntityRecord)
        ensures
            r == blank_rec(),
    {
        EntityRecord {
            alive: false,
            player: false,
            name: None,
            position: None,
            other_level_position: None,
            in_backpack: None,
            equipped_by: None,
            is_item: false,
            consumable: false,
            ranged: None,
            magic_mapper: false,
            initiative: 0,
            dead: false,
            particle_ms: None,
            wants_to_pickup: None,
            wants_to_use: None,
            wants_to_drop: None,
            wants_to_remove: None,
        }
    }

    /// A copy of this record, every component preserved.
    pub fn clone_rec(&self) -> (r: EntityRecord)
        ensures
            r == *self,
    {
        let name: Option<String> = match &self.name {
            Some(n) => Some(n.clone()),
            None => None,
        };
        EntityRecord {
            alive: self.alive,
            player: self.player,
            name,
            position: self.position,
            other_level_position: self.other_level_position,
            in_backpack: self.in_backpack,
            equipped_by: self.equipped_by,
            is_item: self.is_item,
            consumable: self.consumable,
            ranged: self.ranged,
            magic_mapper: self.magic_mapper,
            initiative: self.initiative,
            dead: self.dead,
            particle_ms: self.particle_ms,
            wants_to_pickup: self.wants_to_pickup,
            wants_to_use: self.wants_to_use,
            wants_to_drop: self.wants_to_drop,
            wants_to_remove: self.wants_to_remove,
        }
    }
}

/// The ordered message log shown to the player, most recent entry first.
pub struct GameLog {
    pub entries: Vec<String>,
}

} // verus!
