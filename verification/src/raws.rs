//! Content definitions: the templates that spawn operations consult. They are
//! loaded once at process start from a structured-data resource; decoding that
//! resource is the caller's concern — the core receives the plain values and
//! builds an immutable registry, passed by reference to whoever needs it.

use vstd::prelude::*;

verus! {

/// An item template.
pub struct Item {
    pub name: String,
}

/// A monster template.
pub struct Mob {
    pub name: String,
}

/// A prop template.
pub struct Prop {
    pub name: String,
}

/// One weighted row of the spawn table, valid for a band of depths.
pub struct SpawnTableEntry {
    pub name: String,
    pub weight: i32,
    pub min_depth: i32,
    pub max_depth: i32,
}

/// A named loot table.
pub struct LootTable {
    pub name: String,
}

/// Every content definition the game knows, as loaded at startup.
pub struct Raws {
    pub items: Vec<Item>,
    pub mobs: Vec<Mob>,
    pub props: Vec<Prop>,
    pub spawn_table: Vec<SpawnTableEntry>,
    pub loot_tables: Vec<LootTable>,
}

/// The immutable content registry built from the loaded definitions.
pub struct RawMaster {
    pub raws: Raws,
}

impl RawMaster {
    /// A registry with no content at all.
    pub fn empty() -> (rm: RawMaster)
        ensures
            rm.raws.items.len() == 0,
            rm.raws.mobs.len() == 0,
            rm.raws.props.len() == 0,
            rm.raws.spawn_table.len() == 0,
            rm.raws.loot_tables.len() == 0,
    {
        RawMaster {
            raws: Raws {
                items: Vec::new(),
                mobs: Vec::new(),
                props: Vec::new(),
                spawn_table: Vec::new(),
                loot_tables: Vec::new(),
            },
        }
    }

    /// The position of the first item template with the given name, or `None`
    /// when no template carries it.
    pub fn item_index_of(&self, name: &String) -> (r: Option<usize>)
        ensures
            (match r {
                Some(ix) => ix < self.raws.items.len() && self.raws.items[ix as int].name@
                    == name@ && (forall|j: int|
                    0 <= j < ix ==> (#[trigger] self.raws.items[j]).name@ != name@),
                None => forall|j: int|
                    0 <= j < self.raws.items.len() ==> (#[trigger] self.raws.items[j]).name@
                        != name@,
            }),
    {
        let mut k: usize = 0;
        while k < self.raws.items.len()
            invariant
                k <= self.raws.items.len(),
                forall|j: int| 0 <= j < k ==> (#[trigger] self.raws.items[j]).name@ != name@,
            decreases self.raws.items.len() - k,
        {
            if self.raws.items[k].name == *name {
                return Some(k);
            }
            k = k + 1;
        }
        None
    }
}

/// Builds the immutable content registry from the loaded definitions; the
/// registry holds exactly what was handed in.
pub fn load_raws(raws: Raws) -> (rm: RawMaster)
    ensures
        rm.raws == raws,
{
    RawMaster { raws }
}

} // verus!
