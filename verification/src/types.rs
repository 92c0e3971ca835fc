//! The data model of the engine.

pub mod actors;
pub mod events;
pub mod items;
pub mod values;

pub use crate::ids::{ItemId, MonsterId, PlayerId, SessionId, SkillId};
pub use crate::ratio::Ratio;
pub use crate::types::actors::{Monster, MonsterModel, Player, PlayerModel, Session, SessionModel};
pub use crate::types::events::{BattleEvent, EventModel};
pub use crate::types::items::{
    AffixModel, BaseItem, BaseItemModel, Equipment, EquipmentModel, Item, ItemModel, ItemPrefix,
    ItemSuffix,
};
pub use crate::types::values::{
    BaseStats, Buff, BuffType, CharacterStats, Damage, ElementModifier, ElementResistance,
    ElementType, EquipmentSlot, Experience, Gold, Health, ItemRarity, ItemTag, ItemType, Level,
    LootEntry, Mana, ModifierType, MonsterTier, PlayerAction, PlayerClass, RarityWeights,
    SessionState, Skill, SkillEffect, SkillModel, SkillTarget, SkillTimer,
    SkillTriggerCondition, SkillType, TriggerEvent, WeaponScaling, WeaponType,
};
