//! The content that the caller supplies: base items, affix pools, monster
//! templates and the rules of progression. The engine reads it and never
//! changes it.

use crate::ids::ItemId;
use crate::search::{first_index, lemma_first_index};
use crate::types::actors::{Monster, MonsterModel};
use crate::types::items::{AffixModel, BaseItem, BaseItemModel, ItemPrefix, ItemSuffix};
use crate::types::values::Experience;
use vstd::prelude::*;

verus! {

/// The affixes that a drop can take. Legendary items draw from pools of
/// their own.
#[derive(Debug, Clone, PartialEq, Eq)]
pub struct AffixPools {
    pub prefixes: Vec<ItemPrefix>,
    pub suffixes: Vec<ItemSuffix>,
    pub legendary_prefixes: Vec<ItemPrefix>,
    pub legendary_suffixes: Vec<ItemSuffix>,
}

/// What [`AffixPools`] hold.
#[verifier::ext_equal]
pub struct AffixPoolsModel {
    pub prefixes: Seq<AffixModel>,
    pub suffixes: Seq<AffixModel>,
    pub legendary_prefixes: Seq<AffixModel>,
    pub legendary_suffixes: Seq<AffixModel>,
}

/// What a sequence of prefixes holds.
pub open spec fn prefix_models(pool: Seq<ItemPrefix>) -> Seq<AffixModel> {
    Seq::new(pool.len(), |i: int| pool[i]@)
}

/// What a sequence of suffixes holds.
pub open spec fn suffix_models(pool: Seq<ItemSuffix>) -> Seq<AffixModel> {
    Seq::new(pool.len(), |i: int| pool[i]@)
}

impl View for AffixPools {
    type V = AffixPoolsModel;

    open spec fn view(&self) -> AffixPoolsModel {
        AffixPoolsModel {
            prefixes: prefix_models(self.prefixes@),
            suffixes: suffix_models(self.suffixes@),
            legendary_prefixes: prefix_models(self.legendary_prefixes@),
            legendary_suffixes: suffix_models(self.legendary_suffixes@),
        }
    }
}

/// The rules of progression.
///
/// A monster of level `n` is worth `n` times `experience_per_level`.
/// `level_thresholds[n]` is the experience at which a player of level `n`
/// rises to level `n + 1`; a level without an entry is the last.
#[derive(Debug, Clone, PartialEq, Eq)]
pub struct Progression {
    pub experience_per_level: Experience,
    pub level_thresholds: Vec<Experience>,
    pub restore_on_level_up: bool,
}

/// What a [`Progression`] holds.
#[verifier::ext_equal]
pub struct ProgressionModel {
    pub experience_per_level: Experience,
    pub level_thresholds: Seq<Experience>,
    pub restore_on_level_up: bool,
}

impl View for Progression {
    type V = ProgressionModel;

    open spec fn view(&self) -> ProgressionModel {
        ProgressionModel {
            experience_per_level: self.experience_per_level,
            level_thresholds: self.level_thresholds@,
            restore_on_level_up: self.restore_on_level_up,
        }
    }
}

/// The content catalog. `monsters[w]` is the monster of wave `w`.
#[derive(Debug, Clone, PartialEq, Eq)]
pub struct Content {
    pub base_items: Vec<BaseItem>,
    pub affixes: AffixPools,
    pub monsters: Vec<Monster>,
    pub progression: Progression,
}

/// What a [`Content`] holds.
#[verifier::ext_equal]
pub struct ContentModel {
    pub base_items: Seq<BaseItemModel>,
    pub affixes: AffixPoolsModel,
    pub monsters: Seq<MonsterModel>,
    pub progression: ProgressionModel,
}

/// What a sequence of base items holds.
pub open spec fn base_item_models(items: Seq<BaseItem>) -> Seq<BaseItemModel> {
    Seq::new(items.len(), |i: int| items[i]@)
}

/// What a sequence of monsters holds.
pub open spec fn monster_models(monsters: Seq<Monster>) -> Seq<MonsterModel> {
    Seq::new(monsters.len(), |i: int| monsters[i]@)
}

impl View for Content {
    type V = ContentModel;

    open spec fn view(&self) -> ContentModel {
        ContentModel {
            base_items: base_item_models(self.base_items@),
            affixes: self.affixes@,
            monsters: monster_models(self.monsters@),
            progression: self.progression@,
        }
    }
}

/// The position of the first base item with the identifier `id`, or the
/// number of base items where there is none.
pub open spec fn base_item_position(items: Seq<BaseItemModel>, id: ItemId) -> int {
    first_index(items, |item: BaseItemModel| item.id == id)
}

/// Finds the first base item with the identifier `id`. The result is the
/// number of base items where there is none.
pub fn find_base_item(items: &Vec<BaseItem>, id: &ItemId) -> (r: usize)
    ensures
        r == base_item_position(base_item_models(items@), *id),
        r <= items.len(),
        r < items.len() ==> items[r as int].id == *id,
{
    let mut i: usize = 0;
    while i < items.len()
        invariant
            i <= items.len(),
            forall|j: int| 0 <= j < i ==> items[j].id != *id,
        decreases items.len() - i,
    {
        if items[i].id.same_as(id) {
            proof {
                lemma_first_index(
                    base_item_models(items@),
                    |item: BaseItemModel| item.id == *id,
                    i as int,
                );
            }
            return i;
        }
        i = i + 1;
    }
    proof {
        lemma_first_index(
            base_item_models(items@),
            |item: BaseItemModel| item.id == *id,
            i as int,
        );
    }
    i
}

} // verus!
