//! The player, the monster and the session.

use crate::ids::{MonsterId, PlayerId, SessionId};
use crate::types::items::{item_models, Equipment, EquipmentModel, Item, ItemModel};
use crate::types::values::{
    BaseStats, Buff, CharacterStats, ElementResistance, Experience, Gold, Health, Level, LootEntry,
    Mana, MonsterTier, PlayerClass, SessionState, Skill, SkillModel, SkillTimer, skill_models,
};
use vstd::prelude::*;

verus! {

/// The player character.
///
/// `skill_cooldowns` and `skill_timers` hold an entry only for a skill that
/// has turns left; `active_buffs` is in the order of activation.
#[derive(Debug, Clone, PartialEq, Eq)]
pub struct Player {
    pub id: PlayerId,
    pub name: String,
    pub class: PlayerClass,
    pub level: Level,
    pub current_health: Health,
    pub current_mana: Mana,
    pub experience: Experience,
    pub base_stats: CharacterStats,
    pub base_attributes: BaseStats,
    pub equipment: Equipment,
    pub inventory: Vec<Item>,
    pub skills: Vec<Skill>,
    pub skill_cooldowns: Vec<SkillTimer>,
    pub skill_timers: Vec<SkillTimer>,
    pub active_buffs: Vec<Buff>,
    pub element_resistance: ElementResistance,
    pub gold: Gold,
}

/// What a [`Player`] holds.
#[verifier::ext_equal]
pub struct PlayerModel {
    pub id: PlayerId,
    pub name: String,
    pub class: PlayerClass,
    pub level: Level,
    pub current_health: Health,
    pub current_mana: Mana,
    pub experience: Experience,
    pub base_stats: CharacterStats,
    pub base_attributes: BaseStats,
    pub equipment: EquipmentModel,
    pub inventory: Seq<ItemModel>,
    pub skills: Seq<SkillModel>,
    pub skill_cooldowns: Seq<SkillTimer>,
    pub skill_timers: Seq<SkillTimer>,
    pub active_buffs: Seq<Buff>,
    pub element_resistance: ElementResistance,
    pub gold: Gold,
}

impl View for Player {
    type V = PlayerModel;

    open spec fn view(&self) -> PlayerModel {
        PlayerModel {
            id: self.id,
            name: self.name,
            class: self.class,
            level: self.level,
            current_health: self.current_health,
            current_mana: self.current_mana,
            experience: self.experience,
            base_stats: self.base_stats,
            base_attributes: self.base_attributes,
            equipment: self.equipment@,
            inventory: item_models(self.inventory@),
            skills: skill_models(self.skills@),
            skill_cooldowns: self.skill_cooldowns@,
            skill_timers: self.skill_timers@,
            active_buffs: self.active_buffs@,
            element_resistance: self.element_resistance,
            gold: self.gold,
        }
    }
}

/// A monster. It is defeated exactly when its health is 0.
#[derive(Debug, PartialEq, Eq)]
pub struct Monster {
    pub id: MonsterId,
    pub name: String,
    pub tier: MonsterTier,
    pub level: Level,
    pub current_health: Health,
    pub stats: CharacterStats,
    pub element_resistance: ElementResistance,
    pub loot_table: Vec<LootEntry>,
}

/// What a [`Monster`] holds.
#[verifier::ext_equal]
pub struct MonsterModel {
    pub id: MonsterId,
    pub name: String,
    pub tier: MonsterTier,
    pub level: Level,
    pub current_health: Health,
    pub stats: CharacterStats,
    pub element_resistance: ElementResistance,
    pub loot_table: Seq<LootEntry>,
}

impl View for Monster {
    type V = MonsterModel;

    open spec fn view(&self) -> MonsterModel {
        MonsterModel {
            id: self.id,
            name: self.name,
            tier: self.tier,
            level: self.level,
            current_health: self.current_health,
            stats: self.stats,
            element_resistance: self.element_resistance,
            loot_table: self.loot_table@,
        }
    }
}

impl Clone for Monster {
    fn clone(&self) -> (r: Self)
        ensures
            r@ == self@,
    {
        let loot_table = self.loot_table.clone();
        assert(loot_table@ =~= self.loot_table@);
        Monster {
            id: self.id,
            name: self.name.clone(),
            tier: self.tier,
            level: self.level,
            current_health: self.current_health,
            stats: self.stats,
            element_resistance: self.element_resistance,
            loot_table,
        }
    }
}

/// What an optional monster holds.
pub open spec fn monster_model(monster: Option<Monster>) -> Option<MonsterModel> {
    match monster {
        Some(m) => Some(m@),
        None => None,
    }
}

/// One player's run across waves.
///
/// `current_monster` is absent between encounters. `monster_buffs` is the
/// ledger of the current monster; it lasts for one encounter.
/// `started_at` belongs to the caller and is never read.
#[derive(Debug, Clone, PartialEq, Eq)]
pub struct Session {
    pub id: SessionId,
    pub player: Player,
    pub current_monster: Option<Monster>,
    pub monster_buffs: Vec<Buff>,
    pub defeated_count: u32,
    pub wave: u32,
    pub state: SessionState,
    pub started_at: String,
}

/// What a [`Session`] holds.
#[verifier::ext_equal]
pub struct SessionModel {
    pub id: SessionId,
    pub player: PlayerModel,
    pub current_monster: Option<MonsterModel>,
    pub monster_buffs: Seq<Buff>,
    pub defeated_count: u32,
    pub wave: u32,
    pub state: SessionState,
    pub started_at: String,
}

impl View for Session {
    type V = SessionModel;

    open spec fn view(&self) -> SessionModel {
        SessionModel {
            id: self.id,
            player: self.player@,
            current_monster: monster_model(self.current_monster),
            monster_buffs: self.monster_buffs@,
            defeated_count: self.defeated_count,
            wave: self.wave,
            state: self.state,
            started_at: self.started_at,
        }
    }
}

} // verus!
