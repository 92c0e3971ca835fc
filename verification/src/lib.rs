//! A turn-based combat and progression engine for a single player.
//!
//! A player fights a sequence of monsters, one per wave, with equipped
//! items, skills and elemental damage, and gathers experience and loot on
//! the way. The engine resolves one turn at a time:
//!
//! - [`stats`] combines base numbers, equipment and buffs into the stats of
//!   the turn;
//! - [`damage`] computes a hit: scaling, the critical roll, the elemental
//!   adjustment and the life stolen;
//! - [`buffs`] and [`timers`] let timed effects, cooldowns and turn timers
//!   run down;
//! - [`skills`] decides whether a skill fires and applies its effects;
//! - [`loot`] rolls the drops of a loot table;
//! - [`session`] sequences all of it into a turn of a session.
//!
//! The engine holds no state of its own and draws no randomness of its own.
//! Content, fresh identifiers and the generator of rolls are handed in, so
//! that a turn is a function of what the caller passes.
//!
//! Fractions are held in basis points ([`ratio`]): chances, multipliers and
//! resistances are integers, and every result is rounded in one defined
//! way. Types that own strings or vectors have a model, reached by `@`, in
//! which the contracts are written.

pub mod buffs;
pub mod combat;
pub mod content;
pub mod damage;
pub mod error;
pub mod ids;
pub mod loot;
pub mod ratio;
pub mod rng;
pub mod search;
pub mod session;
pub mod skills;
pub mod stats;
pub mod timers;
pub mod types;

pub use crate::error::Error;
pub use crate::ids::{ItemId, MonsterId, PlayerId, SessionId, SkillId};
pub use crate::ratio::Ratio;
pub use crate::types::actors::{Monster, Player, Session};
pub use crate::types::events::BattleEvent;
pub use crate::types::items::{BaseItem, Equipment, Item, ItemPrefix, ItemSuffix};
pub use crate::types::values::{
    BaseStats, Buff, BuffType, CharacterStats, Damage, ElementModifier, ElementResistance,
    ElementType, EquipmentSlot, Experience, Gold, Health, ItemRarity, ItemTag, ItemType, Level,
    LootEntry, Mana, ModifierType, MonsterTier, PlayerAction, PlayerClass, RarityWeights,
    SessionState, Skill, SkillEffect, SkillTarget, SkillTimer, SkillTriggerCondition, SkillType,
    TriggerEvent, WeaponScaling, WeaponType,
};
