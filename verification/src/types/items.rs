//! Items: base items from the content catalog, affixes, rolled items and
//! the equipment of a character.

use crate::ids::{ItemId, SkillId};
use crate::types::values::{
    EquipmentSlot, ItemRarity, ItemTag, ItemType, Level, ModifierType, PlayerClass, WeaponScaling,
    WeaponType,
};
use vstd::prelude::*;

verus! {

/// A base item of the content catalog.
#[derive(Debug, PartialEq, Eq)]
pub struct BaseItem {
    pub id: ItemId,
    pub name: String,
    pub item_type: ItemType,
    pub tags: Vec<ItemTag>,
    pub required_level: Level,
    pub required_class: Option<Vec<PlayerClass>>,
    pub base_modifiers: Vec<ModifierType>,
    pub weapon_type: Option<WeaponType>,
    pub weapon_unique_skills: Vec<SkillId>,
    pub weapon_scaling: Option<WeaponScaling>,
}

/// What a [`BaseItem`] holds.
#[verifier::ext_equal]
pub struct BaseItemModel {
    pub id: ItemId,
    pub name: String,
    pub item_type: ItemType,
    pub tags: Seq<ItemTag>,
    pub required_level: Level,
    pub required_class: Option<Seq<PlayerClass>>,
    pub base_modifiers: Seq<ModifierType>,
    pub weapon_type: Option<WeaponType>,
    pub weapon_unique_skills: Seq<SkillId>,
    pub weapon_scaling: Option<WeaponScaling>,
}

impl View for BaseItem {
    type V = BaseItemModel;

    open spec fn view(&self) -> BaseItemModel {
        BaseItemModel {
            id: self.id,
            name: self.name,
            item_type: self.item_type,
            tags: self.tags@,
            required_level: self.required_level,
            required_class: match self.required_class {
                Some(classes) => Some(classes@),
                None => None,
            },
            base_modifiers: self.base_modifiers@,
            weapon_type: self.weapon_type,
            weapon_unique_skills: self.weapon_unique_skills@,
            weapon_scaling: self.weapon_scaling,
        }
    }
}

impl Clone for BaseItem {
    fn clone(&self) -> (r: Self)
        ensures
            r@ == self@,
    {
        let tags = self.tags.clone();
        let required_class = match &self.required_class {
            Some(classes) => {
                let copy = classes.clone();
                assert(copy@ =~= classes@);
                Some(copy)
            },
            None => None,
        };
        let base_modifiers = self.base_modifiers.clone();
        let weapon_unique_skills = self.weapon_unique_skills.clone();
        assert(tags@ =~= self.tags@);
        assert(base_modifiers@ =~= self.base_modifiers@);
        assert(weapon_unique_skills@ =~= self.weapon_unique_skills@);
        BaseItem {
            id: self.id,
            name: self.name.clone(),
            item_type: self.item_type,
            tags,
            required_level: self.required_level,
            required_class,
            base_modifiers,
            weapon_type: self.weapon_type,
            weapon_unique_skills,
            weapon_scaling: self.weapon_scaling,
        }
    }
}

/// What an affix holds: its name and its modifiers in order.
#[verifier::ext_equal]
pub struct AffixModel {
    pub name: String,
    pub modifiers: Seq<ModifierType>,
}

/// An affix that goes before an item's name.
#[derive(Debug, PartialEq, Eq)]
pub struct ItemPrefix {
    pub name: String,
    pub modifiers: Vec<ModifierType>,
}

impl View for ItemPrefix {
    type V = AffixModel;

    open spec fn view(&self) -> AffixModel {
        AffixModel { name: self.name, modifiers: self.modifiers@ }
    }
}

impl Clone for ItemPrefix {
    fn clone(&self) -> (r: Self)
        ensures
            r@ == self@,
    {
        let modifiers = self.modifiers.clone();
        assert(modifiers@ =~= self.modifiers@);
        ItemPrefix { name: self.name.clone(), modifiers }
    }
}

/// An affix that goes after an item's name.
#[derive(Debug, PartialEq, Eq)]
pub struct ItemSuffix {
    pub name: String,
    pub modifiers: Vec<ModifierType>,
}

impl View for ItemSuffix {
    type V = AffixModel;

    open spec fn view(&self) -> AffixModel {
        AffixModel { name: self.name, modifiers: self.modifiers@ }
    }
}

impl Clone for ItemSuffix {
    fn clone(&self) -> (r: Self)
        ensures
            r@ == self@,
    {
        let modifiers = self.modifiers.clone();
        assert(modifiers@ =~= self.modifiers@);
        ItemSuffix { name: self.name.clone(), modifiers }
    }
}

/// A concrete item: a base item with its rarity, affixes and level.
#[derive(Debug, PartialEq, Eq)]
pub struct Item {
    pub id: ItemId,
    pub base_item: BaseItem,
    pub rarity: ItemRarity,
    pub prefix: Option<ItemPrefix>,
    pub suffix: Option<ItemSuffix>,
    pub level: Level,
}

/// What an [`Item`] holds.
#[verifier::ext_equal]
pub struct ItemModel {
    pub id: ItemId,
    pub base_item: BaseItemModel,
    pub rarity: ItemRarity,
    pub prefix: Option<AffixModel>,
    pub suffix: Option<AffixModel>,
    pub level: Level,
}

impl ItemModel {
    /// The modifiers of the item in the order in which they apply: those of
    /// the base item, then the prefix's, then the suffix's.
    pub open spec fn modifiers(self) -> Seq<ModifierType> {
        self.base_item.base_modifiers + (match self.prefix {
            Some(prefix) => prefix.modifiers,
            None => Seq::empty(),
        }) + (match self.suffix {
            Some(suffix) => suffix.modifiers,
            None => Seq::empty(),
        })
    }
}

impl View for Item {
    type V = ItemModel;

    open spec fn view(&self) -> ItemModel {
        ItemModel {
            id: self.id,
            base_item: self.base_item@,
            rarity: self.rarity,
            prefix: match self.prefix {
                Some(prefix) => Some(prefix@),
                None => None,
            },
            suffix: match self.suffix {
                Some(suffix) => Some(suffix@),
                None => None,
            },
            level: self.level,
        }
    }
}

impl Clone for Item {
    fn clone(&self) -> (r: Self)
        ensures
            r@ == self@,
    {
        Item {
            id: self.id,
            base_item: self.base_item.clone(),
            rarity: self.rarity,
            prefix: match &self.prefix {
                Some(prefix) => Some(prefix.clone()),
                None => None,
            },
            suffix: match &self.suffix {
                Some(suffix) => Some(suffix.clone()),
                None => None,
            },
            level: self.level,
        }
    }
}

/// What a sequence of items holds.
pub open spec fn item_models(items: Seq<Item>) -> Seq<ItemModel> {
    Seq::new(items.len(), |i: int| items[i]@)
}

/// What an optional item holds.
pub open spec fn slot_model(slot: Option<Item>) -> Option<ItemModel> {
    match slot {
        Some(item) => Some(item@),
        None => None,
    }
}

/// The items that a character wears, at most one for each slot.
#[derive(Debug, Clone, PartialEq, Eq)]
pub struct Equipment {
    pub main_hand: Option<Item>,
    pub off_hand: Option<Item>,
    pub helm: Option<Item>,
    pub armor: Option<Item>,
    pub gloves: Option<Item>,
    pub boots: Option<Item>,
    pub belt: Option<Item>,
    pub ring1: Option<Item>,
    pub ring2: Option<Item>,
    pub amulet: Option<Item>,
}

/// What an [`Equipment`] holds.
#[verifier::ext_equal]
pub struct EquipmentModel {
    pub main_hand: Option<ItemModel>,
    pub off_hand: Option<ItemModel>,
    pub helm: Option<ItemModel>,
    pub armor: Option<ItemModel>,
    pub gloves: Option<ItemModel>,
    pub boots: Option<ItemModel>,
    pub belt: Option<ItemModel>,
    pub ring1: Option<ItemModel>,
    pub ring2: Option<ItemModel>,
    pub amulet: Option<ItemModel>,
}

impl EquipmentModel {
    /// Nothing in any slot.
    pub open spec fn empty() -> EquipmentModel {
        EquipmentModel {
            main_hand: None,
            off_hand: None,
            helm: None,
            armor: None,
            gloves: None,
            boots: None,
            belt: None,
            ring1: None,
            ring2: None,
            amulet: None,
        }
    }

    /// What `slot` holds.
    pub open spec fn at(self, slot: EquipmentSlot) -> Option<ItemModel> {
        match slot {
            EquipmentSlot::MainHand => self.main_hand,
            EquipmentSlot::OffHand => self.off_hand,
            EquipmentSlot::Helm => self.helm,
            EquipmentSlot::Armor => self.armor,
            EquipmentSlot::Gloves => self.gloves,
            EquipmentSlot::Boots => self.boots,
            EquipmentSlot::Belt => self.belt,
            EquipmentSlot::Ring1 => self.ring1,
            EquipmentSlot::Ring2 => self.ring2,
            EquipmentSlot::Amulet => self.amulet,
        }
    }

    /// The equipment with `slot` holding `item`.
    pub open spec fn with(self, slot: EquipmentSlot, item: Option<ItemModel>) -> EquipmentModel {
        match slot {
            EquipmentSlot::MainHand => EquipmentModel { main_hand: item, ..self },
            EquipmentSlot::OffHand => EquipmentModel { off_hand: item, ..self },
            EquipmentSlot::Helm => EquipmentModel { helm: item, ..self },
            EquipmentSlot::Armor => EquipmentModel { armor: item, ..self },
            EquipmentSlot::Gloves => EquipmentModel { gloves: item, ..self },
            EquipmentSlot::Boots => EquipmentModel { boots: item, ..self },
            EquipmentSlot::Belt => EquipmentModel { belt: item, ..self },
            EquipmentSlot::Ring1 => EquipmentModel { ring1: item, ..self },
            EquipmentSlot::Ring2 => EquipmentModel { ring2: item, ..self },
            EquipmentSlot::Amulet => EquipmentModel { amulet: item, ..self },
        }
    }

    /// The modifiers of what `slot` holds, in the order in which they apply.
    pub open spec fn slot_modifiers(self, slot: EquipmentSlot) -> Seq<ModifierType> {
        match self.at(slot) {
            Some(item) => item.modifiers(),
            None => Seq::empty(),
        }
    }

    /// The modifiers of all worn items, slot by slot in the order in which
    /// the slots are declared.
    pub open spec fn modifiers(self) -> Seq<ModifierType> {
        self.slot_modifiers(EquipmentSlot::MainHand) + self.slot_modifiers(EquipmentSlot::OffHand)
            + self.slot_modifiers(EquipmentSlot::Helm) + self.slot_modifiers(EquipmentSlot::Armor)
            + self.slot_modifiers(EquipmentSlot::Gloves) + self.slot_modifiers(
            EquipmentSlot::Boots,
        ) + self.slot_modifiers(EquipmentSlot::Belt) + self.slot_modifiers(EquipmentSlot::Ring1)
            + self.slot_modifiers(EquipmentSlot::Ring2) + self.slot_modifiers(
            EquipmentSlot::Amulet,
        )
    }
}

impl View for Equipment {
    type V = EquipmentModel;

    open spec fn view(&self) -> EquipmentModel {
        EquipmentModel {
            main_hand: slot_model(self.main_hand),
            off_hand: slot_model(self.off_hand),
            helm: slot_model(self.helm),
            armor: slot_model(self.armor),
            gloves: slot_model(self.gloves),
            boots: slot_model(self.boots),
            belt: slot_model(self.belt),
            ring1: slot_model(self.ring1),
            ring2: slot_model(self.ring2),
            amulet: slot_model(self.amulet),
        }
    }
}

impl Equipment {
    /// Equipment with nothing in any slot.
    pub fn new() -> (r: Self)
        ensures
            r@ == EquipmentModel::empty(),
    {
        Equipment {
            main_hand: None,
            off_hand: None,
            helm: None,
            armor: None,
            gloves: None,
            boots: None,
            belt: None,
            ring1: None,
            ring2: None,
            amulet: None,
        }
    }

    /// What `slot` holds.
    pub fn get(&self, slot: EquipmentSlot) -> (r: &Option<Item>)
        ensures
            slot_model(*r) == self@.at(slot),
    {
        match slot {
            EquipmentSlot::MainHand => &self.main_hand,
            EquipmentSlot::OffHand => &self.off_hand,
            EquipmentSlot::Helm => &self.helm,
            EquipmentSlot::Armor => &self.armor,
            EquipmentSlot::Gloves => &self.gloves,
            EquipmentSlot::Boots => &self.boots,
            EquipmentSlot::Belt => &self.belt,
            EquipmentSlot::Ring1 => &self.ring1,
            EquipmentSlot::Ring2 => &self.ring2,
            EquipmentSlot::Amulet => &self.amulet,
        }
    }

    /// Puts `item` into `slot` and hands back what the slot held before.
    pub fn put(&mut self, slot: EquipmentSlot, item: Option<Item>) -> (r: Option<Item>)
        ensures
            final(self)@ == old(self)@.with(slot, slot_model(item)),
            slot_model(r) == old(self)@.at(slot),
    {
        let mut held = item;
        match slot {
            EquipmentSlot::MainHand => core::mem::swap(&mut self.main_hand, &mut held),
            EquipmentSlot::OffHand => core::mem::swap(&mut self.off_hand, &mut held),
            EquipmentSlot::Helm => core::mem::swap(&mut self.helm, &mut held),
            EquipmentSlot::Armor => core::mem::swap(&mut self.armor, &mut held),
            EquipmentSlot::Gloves => core::mem::swap(&mut self.gloves, &mut held),
            EquipmentSlot::Boots => core::mem::swap(&mut self.boots, &mut held),
            EquipmentSlot::Belt => core::mem::swap(&mut self.belt, &mut held),
            EquipmentSlot::Ring1 => core::mem::swap(&mut self.ring1, &mut held),
            EquipmentSlot::Ring2 => core::mem::swap(&mut self.ring2, &mut held),
            EquipmentSlot::Amulet => core::mem::swap(&mut self.amulet, &mut held),
        }
        held
    }
}

} // verus!
