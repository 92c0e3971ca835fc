//! The skill resolver: what an activation has to pass, the trigger conditions,
//! the turn timer, and the effects in their order.

use crate::buffs::{add_buff, fresh_buff};
use crate::combat::{
    cap, monster_sheet, player_sheet, sheet_of_monster, sheet_of_player, shift, shifted, Scene,
};
use crate::damage::{compute, outcome, raw_damage};
use crate::error::Error;
use crate::ids::SkillId;
use crate::ratio::{add_i32, portion, portion_of, sat_add, Ratio, SCALE};
use crate::rng::Rng;
use crate::search::{first_index, lemma_first_index};
use crate::timers::{
    in_order, lemma_started_stays_in_order, remaining_turns, start_timer, started, turns_left,
};
use crate::types::actors::{Monster, MonsterModel, Player, PlayerModel};
use crate::types::events::{emit, event_models, BattleEvent, EventModel};
use crate::types::values::{
    skill_models, Buff, Damage, Health, Mana, Skill, SkillEffect, SkillModel, SkillTarget,
    SkillTriggerCondition, TriggerEvent,
};
use vstd::prelude::*;

verus! {

/// What stands between a skill and its activation.
#[derive(Debug, Clone, Copy, PartialEq, Eq, Hash, Structural)]
pub enum Readiness {
    /// Nothing: the skill fires.
    Fires,
    /// The target given is not the kind that the skill takes.
    WrongTarget,
    /// The skill has turns of cooldown left.
    OnCooldown,
    /// The skill costs more mana than the player has.
    NoMana,
    /// None of the trigger conditions is met.
    NotTriggered,
}

/// What trying a skill comes to: the scene after it, and the error if the
/// try failed with one.
#[verifier::ext_equal]
pub struct Activation {
    pub scene: Scene,
    pub error: Option<Error>,
}

/// Whether the player's tables of cooldowns and of turn timers are in
/// order: every entry has turns left, and no skill has two entries.
pub open spec fn tables_in_order(player: PlayerModel) -> bool {
    in_order(player.skill_cooldowns) && in_order(player.skill_timers)
}

/// Whether a condition starts a turn timer.
pub open spec fn is_period(condition: SkillTriggerCondition) -> bool {
    match condition {
        SkillTriggerCondition::EveryNTurns(n) => n > 0,
        _ => false,
    }
}

/// The period of a skill's turn timer: that of its first condition with a
/// positive period, 0 where it has none.
pub open spec fn period(conditions: Seq<SkillTriggerCondition>) -> int {
    let at = first_index(conditions, |c: SkillTriggerCondition| is_period(c));
    if at < conditions.len() {
        match conditions[at] {
            SkillTriggerCondition::EveryNTurns(n) => n as int,
            _ => 0,
        }
    } else {
        0
    }
}

/// Whether the skill's turn timer has run out at the start of a turn.
pub open spec fn timer_due(skill: SkillModel, player: PlayerModel, event: TriggerEvent) -> bool {
    event == TriggerEvent::TurnStart && period(skill.trigger_conditions) > 0 && turns_left(
        player.skill_timers,
        skill.id,
    ) <= 0
}

/// Whether one condition is met. The health conditions compare the share
/// of `health` in `max_health` with their threshold.
pub open spec fn condition_met(
    condition: SkillTriggerCondition,
    event: TriggerEvent,
    health: Health,
    max_health: Health,
    due: bool,
) -> bool {
    match condition {
        SkillTriggerCondition::Always => true,
        SkillTriggerCondition::OnCritical => event == TriggerEvent::Critical,
        SkillTriggerCondition::OnKill => event == TriggerEvent::Kill,
        SkillTriggerCondition::OnLowHealth(t) => health.0 as int * SCALE as int <= t.0 as int * cap(
            max_health.0 as int,
        ),
        SkillTriggerCondition::OnHighHealth(t) => health.0 as int * SCALE as int >= t.0 as int
            * cap(max_health.0 as int),
        SkillTriggerCondition::EveryNTurns(n) => due && n > 0,
        SkillTriggerCondition::OnBattleStart => event == TriggerEvent::BattleStart,
        SkillTriggerCondition::OnBattleEnd => event == TriggerEvent::BattleEnd,
    }
}

/// Whether any one of the conditions is met.
pub open spec fn any_condition_met(
    conditions: Seq<SkillTriggerCondition>,
    event: TriggerEvent,
    health: Health,
    max_health: Health,
    due: bool,
) -> bool
    decreases conditions.len(),
{
    if conditions.len() == 0 {
        false
    } else {
        any_condition_met(conditions.drop_last(), event, health, max_health, due) || condition_met(
            conditions.last(),
            event,
            health,
            max_health,
            due,
        )
    }
}

/// How a try of the skill stands. The target is tested first, then the
/// cooldown, then the mana, then the trigger conditions.
pub open spec fn readiness_of(
    skill: SkillModel,
    player: PlayerModel,
    target: SkillTarget,
    event: TriggerEvent,
) -> Readiness {
    if target != skill.target_type {
        Readiness::WrongTarget
    } else if turns_left(player.skill_cooldowns, skill.id) > 0 {
        Readiness::OnCooldown
    } else if player.current_mana.0 < skill.mana_cost.0 {
        Readiness::NoMana
    } else if !any_condition_met(
        skill.trigger_conditions,
        event,
        player.current_health,
        player_sheet(player).stats.max_health,
        timer_due(skill, player, event),
    ) {
        Readiness::NotTriggered
    } else {
        Readiness::Fires
    }
}

/// The player after the skill's turn timer was looked at: where it had run
/// out it starts again, however the try stands.
pub open spec fn primed(player: PlayerModel, skill: SkillModel, event: TriggerEvent)
    -> PlayerModel {
    if timer_due(skill, player, event) {
        PlayerModel {
            skill_timers: started(
                player.skill_timers,
                skill.id,
                period(skill.trigger_conditions) as i32,
            ),
            ..player
        }
    } else {
        player
    }
}

/// The player after paying for the skill: the mana cost is deducted and
/// the cooldown starts.
pub open spec fn paid(player: PlayerModel, skill: SkillModel) -> PlayerModel {
    PlayerModel {
        current_mana: Mana(
            shifted(
                player.current_mana.0 as int,
                -skill.mana_cost.0,
                player_sheet(player).stats.max_mana.0 as int,
            ) as i32,
        ),
        skill_cooldowns: started(player.skill_cooldowns, skill.id, skill.cooldown),
        ..player
    }
}

/// The health that a healing effect gives: `base_heal` plus the share
/// `scaling` of the caster's damage, never negative.
pub open spec fn heal_amount(base_heal: Health, stat: Damage, scaling: Ratio) -> int {
    cap(sat_add(base_heal.0 as int, portion(stat.0 as int, scaling.0 as int)))
}

/// The scene after one effect of a skill. Each effect adds exactly one
/// event to the record. A damage effect scales with the caster's resolved
/// damage and draws one roll; what it steals heals the caster. The sheets
/// are resolved anew for each effect, so that an effect sees the buffs of
/// those before it. The death of the target stops nothing.
pub open spec fn effect_applied(scene: Scene, skill_name: String, effect: SkillEffect) -> Scene {
    let caster = player_sheet(scene.player);
    let target = monster_sheet(scene.monster, scene.monster_buffs);
    match effect {
        SkillEffect::Damage { base_damage, scaling, element } => {
            let hit = outcome(
                caster.stats,
                element,
                raw_damage(base_damage.0 as int, caster.stats.base_damage.0 as int, scaling),
                target.resistance,
                scene.rng.roll(),
            );
            Scene {
                player: PlayerModel {
                    current_health: Health(
                        shifted(
                            scene.player.current_health.0 as int,
                            hit.life_steal.0 as int,
                            caster.stats.max_health.0 as int,
                        ) as i32,
                    ),
                    ..scene.player
                },
                monster: MonsterModel {
                    current_health: Health(
                        shifted(
                            scene.monster.current_health.0 as int,
                            -hit.damage.0,
                            target.stats.max_health.0 as int,
                        ) as i32,
                    ),
                    ..scene.monster
                },
                rng: scene.rng.advanced(1),
                events: scene.events.push(
                    EventModel::SkillDamage {
                        skill_name,
                        damage: hit.damage,
                        target_id: scene.monster.id,
                        target_name: scene.monster.name,
                    },
                ),
                ..scene
            }
        },
        SkillEffect::Heal { base_heal, scaling } => {
            let amount = heal_amount(base_heal, caster.stats.base_damage, scaling);
            Scene {
                player: PlayerModel {
                    current_health: Health(
                        shifted(
                            scene.player.current_health.0 as int,
                            amount,
                            caster.stats.max_health.0 as int,
                        ) as i32,
                    ),
                    ..scene.player
                },
                events: scene.events.push(
                    EventModel::SkillHeal { skill_name, amount: Health(amount as i32) },
                ),
                ..scene
            }
        },
        SkillEffect::Buff { buff_type, duration } => Scene {
            player: PlayerModel {
                active_buffs: scene.player.active_buffs.push(
                    fresh_buff(skill_name, buff_type, duration),
                ),
                ..scene.player
            },
            events: scene.events.push(EventModel::BuffApplied { skill_name, buff_type, duration }),
            ..scene
        },
        SkillEffect::Debuff { debuff_type, duration } => Scene {
            monster_buffs: scene.monster_buffs.push(fresh_buff(skill_name, debuff_type, duration)),
            events: scene.events.push(
                EventModel::DebuffApplied { skill_name, debuff_type, duration },
            ),
            ..scene
        },
        SkillEffect::Summon { monster_id, duration } => Scene {
            events: scene.events.push(
                EventModel::MonsterSummoned { skill_name, monster_id, duration },
            ),
            ..scene
        },
    }
}

/// The scene after the effects of a skill, applied from first to last.
pub open spec fn effects_applied(scene: Scene, skill_name: String, effects: Seq<SkillEffect>)
    -> Scene
    decreases effects.len(),
{
    if effects.len() == 0 {
        scene
    } else {
        effect_applied(
            effects_applied(scene, skill_name, effects.drop_last()),
            skill_name,
            effects.last(),
        )
    }
}

/// What trying `skill` comes to.
///
/// A wrong target fails with `InvalidTarget` and changes nothing. Otherwise
/// the turn timer is looked at first. A skill on cooldown, or one whose
/// conditions are not met, is passed over: no error, no event. Too little
/// mana fails with `InsufficientMana`. A skill that fires is paid for, adds
/// `SkillUsed` to the record, and then applies its effects in order.
pub open spec fn activation(
    skill: SkillModel,
    scene: Scene,
    target: SkillTarget,
    event: TriggerEvent,
) -> Activation {
    let ready = Scene { player: primed(scene.player, skill, event), ..scene };
    match readiness_of(skill, scene.player, target, event) {
        Readiness::WrongTarget => Activation { scene, error: Some(Error::InvalidTarget) },
        Readiness::OnCooldown => Activation { scene: ready, error: None },
        Readiness::NoMana => Activation { scene: ready, error: Some(Error::InsufficientMana) },
        Readiness::NotTriggered => Activation { scene: ready, error: None },
        Readiness::Fires => Activation {
            scene: effects_applied(
                Scene {
                    player: paid(ready.player, skill),
                    events: scene.events.push(EventModel::SkillUsed { skill_name: skill.name }),
                    ..ready
                },
                skill.name,
                skill.effects,
            ),
            error: None,
        },
    }
}

/// The position of the player's first skill with the identifier `id`, or
/// the number of skills where there is none.
pub open spec fn skill_position(skills: Seq<SkillModel>, id: SkillId) -> int {
    first_index(skills, |s: SkillModel| s.id == id)
}

/// What using the skill with the identifier `id` comes to: what trying the
/// skill comes to where the player owns it, `InvalidSkillId` and no change
/// where not.
pub open spec fn skill_use(scene: Scene, id: SkillId, target: SkillTarget, event: TriggerEvent)
    -> Activation {
    let at = skill_position(scene.player.skills, id);
    if at < scene.player.skills.len() {
        activation(scene.player.skills[at], scene, target, event)
    } else {
        Activation { scene, error: Some(Error::InvalidSkillId) }
    }
}

/// The period of a skill's turn timer.
pub fn period_of(conditions: &Vec<SkillTriggerCondition>) -> (r: i32)
    ensures
        r == period(conditions@),
        r >= 0,
{
    let mut i: usize = 0;
    while i < conditions.len()
        invariant
            i <= conditions.len(),
            forall|j: int| 0 <= j < i ==> !is_period(conditions[j]),
        decreases conditions.len() - i,
    {
        match conditions[i] {
            SkillTriggerCondition::EveryNTurns(n) => {
                if n > 0 {
                    proof {
                        lemma_first_index(
                            conditions@,
                            |c: SkillTriggerCondition| is_period(c),
                            i as int,
                        );
                    }
                    return n;
                }
            },
            _ => {},
        }
        i = i + 1;
    }
    proof {
        lemma_first_index(conditions@, |c: SkillTriggerCondition| is_period(c), i as int);
    }
    0
}

/// Whether one condition is met.
pub fn is_met(
    condition: &SkillTriggerCondition,
    event: TriggerEvent,
    health: Health,
    max_health: Health,
    due: bool,
) -> (r: bool)
    ensures
        r == condition_met(*condition, event, health, max_health, due),
{
    let top: i64 = if max_health.0 > 0 {
        max_health.0 as i64
    } else {
        0
    };
    match condition {
        SkillTriggerCondition::Always => true,
        SkillTriggerCondition::OnCritical => event == TriggerEvent::Critical,
        SkillTriggerCondition::OnKill => event == TriggerEvent::Kill,
        SkillTriggerCondition::OnLowHealth(t) => {
            assert(-0x4000_0000_0000_0000 <= t.0 as int * top as int <= 0x4000_0000_0000_0000)
                by (nonlinear_arith)
                requires
                    -0x8000_0000 <= t.0 as int <= 0x7fff_ffff,
                    0 <= top as int <= 0x7fff_ffff,
            ;
            (health.0 as i64) * 10_000 <= (t.0 as i64) * top
        },
        SkillTriggerCondition::OnHighHealth(t) => {
            assert(-0x4000_0000_0000_0000 <= t.0 as int * top as int <= 0x4000_0000_0000_0000)
                by (nonlinear_arith)
                requires
                    -0x8000_0000 <= t.0 as int <= 0x7fff_ffff,
                    0 <= top as int <= 0x7fff_ffff,
            ;
            (health.0 as i64) * 10_000 >= (t.0 as i64) * top
        },
        SkillTriggerCondition::EveryNTurns(n) => due && *n > 0,
        SkillTriggerCondition::OnBattleStart => event == TriggerEvent::BattleStart,
        SkillTriggerCondition::OnBattleEnd => event == TriggerEvent::BattleEnd,
    }
}

/// Whether any one of the conditions is met.
pub fn any_met(
    conditions: &Vec<SkillTriggerCondition>,
    event: TriggerEvent,
    health: Health,
    max_health: Health,
    due: bool,
) -> (r: bool)
    ensures
        r == any_condition_met(conditions@, event, health, max_health, due),
{
    let mut found = false;
    let mut i: usize = 0;
    assert(conditions@.take(0) =~= Seq::empty());
    while i < conditions.len()
        invariant
            i <= conditions.len(),
            found == any_condition_met(conditions@.take(i as int), event, health, max_health, due),
        decreases conditions.len() - i,
    {
        proof {
            assert(conditions@.take(i + 1).drop_last() =~= conditions@.take(i as int));
            assert(conditions@.take(i + 1).last() == conditions@[i as int]);
        }
        if is_met(&conditions[i], event, health, max_health, due) {
            found = true;
        }
        i = i + 1;
    }
    assert(conditions@.take(i as int) =~= conditions@);
    found
}

/// Finds how a try of the skill stands.
pub fn find_readiness(skill: &Skill, player: &Player, target: SkillTarget, event: TriggerEvent) -> (r:
    Readiness)
    ensures
        r == readiness_of(skill@, player@, target, event),
{
    if target != skill.target_type {
        return Readiness::WrongTarget;
    }
    if remaining_turns(&player.skill_cooldowns, &skill.id) > 0 {
        return Readiness::OnCooldown;
    }
    if player.current_mana.0 < skill.mana_cost.0 {
        return Readiness::NoMana;
    }
    let sheet = sheet_of_player(player);
    let due = is_due(skill, player, event);
    if any_met(
        &skill.trigger_conditions,
        event,
        player.current_health,
        sheet.stats.max_health,
        due,
    ) {
        Readiness::Fires
    } else {
        Readiness::NotTriggered
    }
}

/// Whether the skill's turn timer has run out at the start of a turn.
pub fn is_due(skill: &Skill, player: &Player, event: TriggerEvent) -> (r: bool)
    ensures
        r == timer_due(skill@, player@, event),
{
    event == TriggerEvent::TurnStart && period_of(&skill.trigger_conditions) > 0
        && remaining_turns(&player.skill_timers, &skill.id) <= 0
}

/// Applies one effect of a skill.
pub fn apply_effect(
    skill_name: &String,
    effect: &SkillEffect,
    player: &mut Player,
    monster: &mut Monster,
    monster_buffs: &mut Vec<Buff>,
    rng: &mut Rng,
    events: &mut Vec<BattleEvent>,
)
    ensures
        (Scene {
            player: final(player)@,
            monster: final(monster)@,
            monster_buffs: final(monster_buffs)@,
            rng: *final(rng),
            events: event_models(final(events)@),
        }) == effect_applied(
            Scene {
                player: old(player)@,
                monster: old(monster)@,
                monster_buffs: old(monster_buffs)@,
                rng: *old(rng),
                events: event_models(old(events)@),
            },
            *skill_name,
            *effect,
        ),
{
    let ghost before = Scene {
        player: player@,
        monster: monster@,
        monster_buffs: monster_buffs@,
        rng: *rng,
        events: event_models(events@),
    };
    let caster = sheet_of_player(player);
    let target = sheet_of_monster(monster, monster_buffs);
    match effect {
        SkillEffect::Damage { base_damage, scaling, element } => {
            let hit = compute(
                &caster.stats,
                *element,
                *base_damage,
                caster.stats.base_damage.0,
                *scaling,
                &target.resistance,
                rng,
            );
            player.current_health = Health(
                shift(player.current_health.0, hit.life_steal.0 as i64, caster.stats.max_health.0),
            );
            let target_id = monster.id;
            let target_name = monster.name.clone();
            monster.current_health = Health(
                shift(
                    monster.current_health.0,
                    -(hit.damage.0 as i64),
                    target.stats.max_health.0,
                ),
            );
            emit(
                events,
                BattleEvent::SkillDamage {
                    skill_name: skill_name.clone(),
                    damage: hit.damage,
                    target_id,
                    target_name,
                },
            );
        },
        SkillEffect::Heal { base_heal, scaling } => {
            let sum: i32 = add_i32(base_heal.0, portion_of(caster.stats.base_damage.0, *scaling));
            let amount: i32 = if sum > 0 {
                sum
            } else {
                0
            };
            player.current_health = Health(
                shift(player.current_health.0, amount as i64, caster.stats.max_health.0),
            );
            emit(
                events,
                BattleEvent::SkillHeal { skill_name: skill_name.clone(), amount: Health(amount) },
            );
        },
        SkillEffect::Buff { buff_type, duration } => {
            add_buff(&mut player.active_buffs, skill_name, *buff_type, *duration);
            emit(
                events,
                BattleEvent::BuffApplied {
                    skill_name: skill_name.clone(),
                    buff_type: *buff_type,
                    duration: *duration,
                },
            );
        },
        SkillEffect::Debuff { debuff_type, duration } => {
            add_buff(monster_buffs, skill_name, *debuff_type, *duration);
            emit(
                events,
                BattleEvent::DebuffApplied {
                    skill_name: skill_name.clone(),
                    debuff_type: *debuff_type,
                    duration: *duration,
                },
            );
        },
        SkillEffect::Summon { monster_id, duration } => {
            emit(
                events,
                BattleEvent::MonsterSummoned {
                    skill_name: skill_name.clone(),
                    monster_id: *monster_id,
                    duration: *duration,
                },
            );
        },
    }
    proof {
        let after = Scene {
            player: player@,
            monster: monster@,
            monster_buffs: monster_buffs@,
            rng: *rng,
            events: event_models(events@),
        };
        assert(after =~= effect_applied(before, *skill_name, *effect));
    }
}

/// Tries to activate `skill` for the player against the monster.
///
/// The result is `Ok` with the events of the activation, `SkillUsed` first
/// and then one for each effect, where the skill fires; `Ok` without
/// events where it is on cooldown or not triggered; `Err(InvalidTarget)`
/// or `Err(InsufficientMana)` where the target or the mana stands against
/// it.
pub fn try_activate(
    skill: &Skill,
    player: &mut Player,
    monster: &mut Monster,
    monster_buffs: &mut Vec<Buff>,
    target: SkillTarget,
    event: TriggerEvent,
    rng: &mut Rng,
) -> (r: Result<Vec<BattleEvent>, Error>)
    ensures
        ({
            let a = activation(
                skill@,
                Scene {
                    player: old(player)@,
                    monster: old(monster)@,
                    monster_buffs: old(monster_buffs)@,
                    rng: *old(rng),
                    events: Seq::empty(),
                },
                target,
                event,
            );
            &&& final(player)@ == a.scene.player
            &&& final(monster)@ == a.scene.monster
            &&& final(monster_buffs)@ == a.scene.monster_buffs
            &&& *final(rng) == a.scene.rng
            &&& match r {
                Ok(events) => a.error.is_none() && event_models(events@) == a.scene.events,
                Err(e) => a.error == Some(e),
            }
        }),
{
    let ghost start = Scene {
        player: player@,
        monster: monster@,
        monster_buffs: monster_buffs@,
        rng: *rng,
        events: Seq::empty(),
    };
    let standing = find_readiness(skill, player, target, event);
    if standing == Readiness::WrongTarget {
        return Err(Error::InvalidTarget);
    }
    let sheet = sheet_of_player(player);
    if is_due(skill, player, event) {
        let turns = period_of(&skill.trigger_conditions);
        start_timer(&mut player.skill_timers, skill.id, turns);
    }
    assert(player@ =~= primed(start.player, skill@, event));
    let mut events: Vec<BattleEvent> = Vec::new();
    assert(event_models(events@) =~= Seq::empty());
    match standing {
        Readiness::WrongTarget => Err(Error::InvalidTarget),
        Readiness::OnCooldown => Ok(events),
        Readiness::NoMana => Err(Error::InsufficientMana),
        Readiness::NotTriggered => Ok(events),
        Readiness::Fires => {
            player.current_mana = Mana(
                shift(player.current_mana.0, -(skill.mana_cost.0 as i64), sheet.stats.max_mana.0),
            );
            start_timer(&mut player.skill_cooldowns, skill.id, skill.cooldown);
            emit(&mut events, BattleEvent::SkillUsed { skill_name: skill.name.clone() });
            let ghost paid_scene = Scene {
                player: player@,
                monster: monster@,
                monster_buffs: monster_buffs@,
                rng: *rng,
                events: event_models(events@),
            };
            proof {
                assert(player@ =~= paid(primed(start.player, skill@, event), skill@));
                assert(skill.effects@.take(0) =~= Seq::empty());
            }
            let mut i: usize = 0;
            while i < skill.effects.len()
                invariant
                    i <= skill.effects.len(),
                    (Scene {
                        player: player@,
                        monster: monster@,
                        monster_buffs: monster_buffs@,
                        rng: *rng,
                        events: event_models(events@),
                    }) == effects_applied(paid_scene, skill.name, skill.effects@.take(i as int)),
                decreases skill.effects.len() - i,
            {
                proof {
                    assert(skill.effects@.take(i + 1).drop_last() =~= skill.effects@.take(
                        i as int,
                    ));
                    assert(skill.effects@.take(i + 1).last() == skill.effects@[i as int]);
                }
                apply_effect(
                    &skill.name,
                    &skill.effects[i],
                    player,
                    monster,
                    monster_buffs,
                    rng,
                    &mut events,
                );
                i = i + 1;
            }
            assert(skill.effects@.take(i as int) =~= skill.effects@);
            Ok(events)
        },
    }
}

/// Finds the player's first skill with the identifier `id`. The result is
/// the number of skills where there is none.
pub fn find_skill(skills: &Vec<Skill>, id: &SkillId) -> (r: usize)
    ensures
        r == skill_position(skill_models(skills@), *id),
        r <= skills.len(),
{
    let mut i: usize = 0;
    while i < skills.len()
        invariant
            i <= skills.len(),
            forall|j: int| 0 <= j < i ==> skills[j].id != *id,
        decreases skills.len() - i,
    {
        if skills[i].id.same_as(id) {
            proof {
                lemma_first_index(skill_models(skills@), |s: SkillModel| s.id == *id, i as int);
            }
            return i;
        }
        i = i + 1;
    }
    proof {
        lemma_first_index(skill_models(skills@), |s: SkillModel| s.id == *id, i as int);
    }
    i
}

/// Uses the player's skill with the identifier `id`: tries to activate it
/// where the player owns it, and fails with `InvalidSkillId` where not.
pub fn use_skill(
    player: &mut Player,
    monster: &mut Monster,
    monster_buffs: &mut Vec<Buff>,
    id: &SkillId,
    target: SkillTarget,
    event: TriggerEvent,
    rng: &mut Rng,
) -> (r: Result<Vec<BattleEvent>, Error>)
    ensures
        ({
            let a = skill_use(
                Scene {
                    player: old(player)@,
                    monster: old(monster)@,
                    monster_buffs: old(monster_buffs)@,
                    rng: *old(rng),
                    events: Seq::empty(),
                },
                *id,
                target,
                event,
            );
            &&& final(player)@ == a.scene.player
            &&& final(monster)@ == a.scene.monster
            &&& final(monster_buffs)@ == a.scene.monster_buffs
            &&& *final(rng) == a.scene.rng
            &&& match r {
                Ok(events) => a.error.is_none() && event_models(events@) == a.scene.events,
                Err(e) => a.error == Some(e),
            }
        }),
{
    let at = find_skill(&player.skills, id);
    if at >= player.skills.len() {
        return Err(Error::InvalidSkillId);
    }
    let skill = player.skills[at].clone();
    try_activate(&skill, player, monster, monster_buffs, target, event, rng)
}

/// Trying a skill is a function of the skill, the scene with its generator,
/// the target and the event: equal inputs give equal outcomes, events
/// included.
pub proof fn lemma_activation_is_deterministic(
    skill: SkillModel,
    first: Scene,
    second: Scene,
    target: SkillTarget,
    event: TriggerEvent,
)
    requires
        first.player == second.player,
        first.monster == second.monster,
        first.monster_buffs == second.monster_buffs,
        first.rng == second.rng,
        first.events == second.events,
    ensures
        activation(skill, first, target, event) == activation(skill, second, target, event),
{
    assert(first =~= second);
}

/// A skill that fires records `SkillUsed` first and then exactly one event
/// for each of its effects; any other try records nothing.
pub proof fn lemma_events_of_activation(
    skill: SkillModel,
    scene: Scene,
    target: SkillTarget,
    event: TriggerEvent,
)
    ensures
        readiness_of(skill, scene.player, target, event) == Readiness::Fires ==> {
            &&& activation(skill, scene, target, event).scene.events.len() == scene.events.len()
                + 1 + skill.effects.len()
            &&& activation(skill, scene, target, event).scene.events[scene.events.len() as int]
                == (EventModel::SkillUsed { skill_name: skill.name })
        },
        readiness_of(skill, scene.player, target, event) != Readiness::Fires ==> activation(
            skill,
            scene,
            target,
            event,
        ).scene.events == scene.events,
{
    if readiness_of(skill, scene.player, target, event) == Readiness::Fires {
        let ready = Scene { player: primed(scene.player, skill, event), ..scene };
        let begun = Scene {
            player: paid(ready.player, skill),
            events: scene.events.push(EventModel::SkillUsed { skill_name: skill.name }),
            ..ready
        };
        lemma_effects_extend_events(begun, skill.name, skill.effects);
        let at = scene.events.len() as int;
        assert(effects_applied(begun, skill.name, skill.effects).events[at] == begun.events[at]);
        assert(activation(skill, scene, target, event).scene == effects_applied(
            begun,
            skill.name,
            skill.effects,
        ));
    }
}

/// The effects of a skill add one event each to the end of the record and
/// leave the events before them as they are.
pub proof fn lemma_effects_extend_events(scene: Scene, skill_name: String, effects: Seq<SkillEffect>)
    ensures
        effects_applied(scene, skill_name, effects).events.len() == scene.events.len()
            + effects.len(),
        forall|i: int|
            0 <= i < scene.events.len() ==> effects_applied(scene, skill_name, effects).events[i]
                == scene.events[i],
    decreases effects.len(),
{
    if effects.len() > 0 {
        lemma_effects_extend_events(scene, skill_name, effects.drop_last());
    }
}

/// The effects of a skill leave the player's skills, cooldowns and turn
/// timers as they are.
pub proof fn lemma_effects_keep_tables(scene: Scene, skill_name: String, effects: Seq<SkillEffect>)
    ensures
        effects_applied(scene, skill_name, effects).player.skills == scene.player.skills,
        effects_applied(scene, skill_name, effects).player.skill_cooldowns
            == scene.player.skill_cooldowns,
        effects_applied(scene, skill_name, effects).player.skill_timers
            == scene.player.skill_timers,
    decreases effects.len(),
{
    if effects.len() > 0 {
        lemma_effects_keep_tables(scene, skill_name, effects.drop_last());
    }
}

/// Trying a skill keeps the player's tables of cooldowns and of turn
/// timers in order.
pub proof fn lemma_activation_keeps_tables(
    skill: SkillModel,
    scene: Scene,
    target: SkillTarget,
    event: TriggerEvent,
)
    requires
        tables_in_order(scene.player),
    ensures
        tables_in_order(activation(skill, scene, target, event).scene.player),
{
    let ready = primed(scene.player, skill, event);
    lemma_started_stays_in_order(
        scene.player.skill_timers,
        skill.id,
        period(skill.trigger_conditions) as i32,
    );
    lemma_started_stays_in_order(ready.skill_cooldowns, skill.id, skill.cooldown);
    let begun = Scene {
        player: paid(ready, skill),
        events: scene.events.push(EventModel::SkillUsed { skill_name: skill.name }),
        ..scene
    };
    lemma_effects_keep_tables(begun, skill.name, skill.effects);
}

/// Using a skill by its identifier keeps the player's tables of cooldowns
/// and of turn timers in order.
pub proof fn lemma_skill_use_keeps_tables(
    scene: Scene,
    id: SkillId,
    target: SkillTarget,
    event: TriggerEvent,
)
    requires
        tables_in_order(scene.player),
    ensures
        tables_in_order(skill_use(scene, id, target, event).scene.player),
{
    let at = skill_position(scene.player.skills, id);
    if at < scene.player.skills.len() {
        lemma_activation_keeps_tables(scene.player.skills[at], scene, target, event);
    }
}

} // verus!
