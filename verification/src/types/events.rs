//! The events of a battle: the ordered record of what happened in a turn.

use crate::ids::MonsterId;
use crate::types::items::{Item, ItemModel};
use crate::types::values::{BuffType, Damage, Experience, Health, Level, Mana};
use vstd::prelude::*;

verus! {

/// One thing that happened in a battle.
#[derive(Debug, Clone, PartialEq, Eq)]
pub enum BattleEvent {
    PlayerAttack { damage: Damage, is_critical: bool },
    MonsterAttack { damage: Damage },
    PlayerHeal { amount: Health },
    MonsterDefeated { experience: Experience },
    ItemDropped { item: Item },
    PlayerLevelUp { new_level: Level },
    PlayerDefeated,
    SkillUsed { skill_name: String },
    SkillDamage { skill_name: String, damage: Damage, target_id: MonsterId, target_name: String },
    SkillHeal { skill_name: String, amount: Health },
    BuffApplied { skill_name: String, buff_type: BuffType, duration: i32 },
    DebuffApplied { skill_name: String, debuff_type: BuffType, duration: i32 },
    MonsterSummoned { skill_name: String, monster_id: MonsterId, duration: i32 },
    ManaRegenerated { amount: Mana },
    NotEnoughMana,
}

/// What a [`BattleEvent`] holds.
#[verifier::ext_equal]
pub enum EventModel {
    PlayerAttack { damage: Damage, is_critical: bool },
    MonsterAttack { damage: Damage },
    PlayerHeal { amount: Health },
    MonsterDefeated { experience: Experience },
    ItemDropped { item: ItemModel },
    PlayerLevelUp { new_level: Level },
    PlayerDefeated,
    SkillUsed { skill_name: String },
    SkillDamage { skill_name: String, damage: Damage, target_id: MonsterId, target_name: String },
    SkillHeal { skill_name: String, amount: Health },
    BuffApplied { skill_name: String, buff_type: BuffType, duration: i32 },
    DebuffApplied { skill_name: String, debuff_type: BuffType, duration: i32 },
    MonsterSummoned { skill_name: String, monster_id: MonsterId, duration: i32 },
    ManaRegenerated { amount: Mana },
    NotEnoughMana,
}

impl View for BattleEvent {
    type V = EventModel;

    open spec fn view(&self) -> EventModel {
        match *self {
            BattleEvent::PlayerAttack { damage, is_critical } => EventModel::PlayerAttack {
                damage,
                is_critical,
            },
            BattleEvent::MonsterAttack { damage } => EventModel::MonsterAttack { damage },
            BattleEvent::PlayerHeal { amount } => EventModel::PlayerHeal { amount },
            BattleEvent::MonsterDefeated { experience } => EventModel::MonsterDefeated {
                experience,
            },
            BattleEvent::ItemDropped { item } => EventModel::ItemDropped { item: item@ },
            BattleEvent::PlayerLevelUp { new_level } => EventModel::PlayerLevelUp { new_level },
            BattleEvent::PlayerDefeated => EventModel::PlayerDefeated,
            BattleEvent::SkillUsed { skill_name } => EventModel::SkillUsed { skill_name },
            BattleEvent::SkillDamage {
                skill_name,
                damage,
                target_id,
                target_name,
            } => EventModel::SkillDamage { skill_name, damage, target_id, target_name },
            BattleEvent::SkillHeal { skill_name, amount } => EventModel::SkillHeal {
                skill_name,
                amount,
            },
            BattleEvent::BuffApplied { skill_name, buff_type, duration } => EventModel::BuffApplied {
                skill_name,
                buff_type,
                duration,
            },
            BattleEvent::DebuffApplied {
                skill_name,
                debuff_type,
                duration,
            } => EventModel::DebuffApplied { skill_name, debuff_type, duration },
            BattleEvent::MonsterSummoned {
                skill_name,
                monster_id,
                duration,
            } => EventModel::MonsterSummoned { skill_name, monster_id, duration },
            BattleEvent::ManaRegenerated { amount } => EventModel::ManaRegenerated { amount },
            BattleEvent::NotEnoughMana => EventModel::NotEnoughMana,
        }
    }
}

/// What a sequence of events holds.
pub open spec fn event_models(events: Seq<BattleEvent>) -> Seq<EventModel> {
    Seq::new(events.len(), |i: int| events[i]@)
}

/// Appends `event` to the record.
pub fn emit(events: &mut Vec<BattleEvent>, event: BattleEvent)
    ensures
        event_models(final(events)@) == event_models(old(events)@).push(event@),
        final(events)@ == old(events)@.push(event),
{
    events.push(event);
    assert(event_models(events@) =~= event_models(old(events)@).push(event@));
}

/// Appends all of `more` to the record, in order.
pub fn emit_all(events: &mut Vec<BattleEvent>, more: Vec<BattleEvent>)
    ensures
        event_models(final(events)@) == event_models(old(events)@) + event_models(more@),
{
    let mut more = more;
    let ghost added = more@;
    events.append(&mut more);
    assert(event_models(events@) =~= event_models(old(events)@) + event_models(added));
}

} // verus!
