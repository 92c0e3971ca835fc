//! The exchange of blows: the sheets of the two fighters, health within
//! its bounds, the player's basic attack and the monster's attack.

use crate::damage::{
    compute_raw, outcome, raw_damage, scaled_raw, weapon_raw, weapon_raw_damage,
};
use crate::ratio::{clamp, Ratio};
use crate::rng::Rng;
use crate::stats::{resolve_sheet, resolved_sheet, StatSheet};
use crate::types::actors::{Monster, MonsterModel, Player, PlayerModel};
use crate::types::events::{emit, event_models, BattleEvent, EventModel};
use crate::types::items::{Equipment, EquipmentModel};
use crate::types::values::{BaseStats, Buff, ElementType, Health, WeaponScaling};
use vstd::prelude::*;

verus! {

/// The two fighters, the generator and the record of a turn so far.
#[verifier::ext_equal]
pub struct Scene {
    pub player: PlayerModel,
    pub monster: MonsterModel,
    pub monster_buffs: Seq<Buff>,
    pub rng: Rng,
    pub events: Seq<EventModel>,
}

/// An upper bound as it counts: a negative one counts as 0.
pub open spec fn cap(max: int) -> int {
    if max > 0 {
        max
    } else {
        0
    }
}

/// `value` plus `delta`, kept within the range from 0 to `max`.
pub open spec fn shifted(value: int, delta: int, max: int) -> int {
    clamp(value + delta, 0, cap(max))
}

/// Whether `value` lies within the range from 0 to `max`.
pub open spec fn within(value: int, max: int) -> bool {
    0 <= value <= cap(max)
}

/// The resolved sheet of the player.
pub open spec fn player_sheet(player: PlayerModel) -> StatSheet {
    resolved_sheet(
        player.base_attributes,
        player.base_stats,
        player.element_resistance,
        player.equipment,
        player.active_buffs,
    )
}

/// Attributes of nothing.
pub open spec fn no_attributes() -> BaseStats {
    BaseStats { strength: 0, intelligence: 0, dexterity: 0, vitality: 0 }
}

/// The resolved sheet of a monster under its buffs. A monster has no
/// attributes and wears nothing.
pub open spec fn monster_sheet(monster: MonsterModel, buffs: Seq<Buff>) -> StatSheet {
    resolved_sheet(
        no_attributes(),
        monster.stats,
        monster.element_resistance,
        EquipmentModel::empty(),
        buffs,
    )
}

/// The scaling of the weapon in the main hand, if there is one.
pub open spec fn weapon_scaling(equipment: EquipmentModel) -> Option<WeaponScaling> {
    match equipment.main_hand {
        Some(item) => item.base_item.weapon_scaling,
        None => None,
    }
}

/// The player's basic attack on the monster: a physical hit of the player's
/// damage plus the weapon's scaling of the attributes. The monster loses
/// the damage; the record gains the attack and, where life was stolen, the
/// healing of the player by it.
pub open spec fn player_strikes(scene: Scene) -> Scene {
    let attacker = player_sheet(scene.player);
    let defender = monster_sheet(scene.monster, scene.monster_buffs);
    let hit = outcome(
        attacker.stats,
        ElementType::Physical,
        weapon_raw_damage(
            attacker.stats.base_damage.0 as int,
            attacker.attributes,
            weapon_scaling(scene.player.equipment),
        ),
        defender.resistance,
        scene.rng.roll(),
    );
    let monster = MonsterModel {
        current_health: Health(
            shifted(
                scene.monster.current_health.0 as int,
                -hit.damage.0,
                defender.stats.max_health.0 as int,
            ) as i32,
        ),
        ..scene.monster
    };
    let attack = EventModel::PlayerAttack { damage: hit.damage, is_critical: hit.is_critical };
    if hit.life_steal.0 > 0 {
        Scene {
            player: PlayerModel {
                current_health: Health(
                    shifted(
                        scene.player.current_health.0 as int,
                        hit.life_steal.0 as int,
                        attacker.stats.max_health.0 as int,
                    ) as i32,
                ),
                ..scene.player
            },
            monster,
            rng: scene.rng.advanced(1),
            events: scene.events.push(attack).push(
                EventModel::PlayerHeal { amount: hit.life_steal },
            ),
            ..scene
        }
    } else {
        Scene { monster, rng: scene.rng.advanced(1), events: scene.events.push(attack), ..scene }
    }
}

/// The monster's attack on the player: a physical hit of the monster's
/// damage. The player loses the damage, the monster gains the life stolen,
/// and the record gains the attack.
pub open spec fn monster_strikes(scene: Scene) -> Scene {
    let attacker = monster_sheet(scene.monster, scene.monster_buffs);
    let defender = player_sheet(scene.player);
    let hit = outcome(
        attacker.stats,
        ElementType::Physical,
        raw_damage(attacker.stats.base_damage.0 as int, 0, Ratio(0)),
        defender.resistance,
        scene.rng.roll(),
    );
    Scene {
        player: PlayerModel {
            current_health: Health(
                shifted(
                    scene.player.current_health.0 as int,
                    -hit.damage.0,
                    defender.stats.max_health.0 as int,
                ) as i32,
            ),
            ..scene.player
        },
        monster: MonsterModel {
            current_health: Health(
                shifted(
                    scene.monster.current_health.0 as int,
                    hit.life_steal.0 as int,
                    attacker.stats.max_health.0 as int,
                ) as i32,
            ),
            ..scene.monster
        },
        rng: scene.rng.advanced(1),
        events: scene.events.push(EventModel::MonsterAttack { damage: hit.damage }),
        ..scene
    }
}

/// `value` plus `delta`, kept within the range from 0 to `max`.
pub fn shift(value: i32, delta: i64, max: i32) -> (r: i32)
    ensures
        r == shifted(value as int, delta as int, max as int),
        within(r as int, max as int),
{
    let top: i32 = if max > 0 {
        max
    } else {
        0
    };
    let sum: i128 = value as i128 + delta as i128;
    if sum < 0 {
        0
    } else if sum > top as i128 {
        top
    } else {
        sum as i32
    }
}

/// Resolves the sheet of the player.
pub fn sheet_of_player(player: &Player) -> (r: StatSheet)
    ensures
        r == player_sheet(player@),
{
    resolve_sheet(
        &player.base_attributes,
        &player.base_stats,
        &player.element_resistance,
        &player.equipment,
        &player.active_buffs,
    )
}

/// Resolves the sheet of a monster under its buffs.
pub fn sheet_of_monster(monster: &Monster, buffs: &Vec<Buff>) -> (r: StatSheet)
    ensures
        r == monster_sheet(monster@, buffs@),
{
    let attributes = BaseStats { strength: 0, intelligence: 0, dexterity: 0, vitality: 0 };
    let nothing = Equipment::new();
    resolve_sheet(&attributes, &monster.stats, &monster.element_resistance, &nothing, buffs)
}

/// The scaling of the weapon in the main hand, if there is one.
pub fn scaling_of_weapon(equipment: &Equipment) -> (r: Option<WeaponScaling>)
    ensures
        r == weapon_scaling(equipment@),
{
    match &equipment.main_hand {
        Some(item) => item.base_item.weapon_scaling,
        None => None,
    }
}

/// Carries out the player's basic attack. One roll is drawn.
pub fn basic_attack(
    player: &mut Player,
    monster: &mut Monster,
    monster_buffs: &Vec<Buff>,
    rng: &mut Rng,
    events: &mut Vec<BattleEvent>,
)
    ensures
        (Scene {
            player: final(player)@,
            monster: final(monster)@,
            monster_buffs: monster_buffs@,
            rng: *final(rng),
            events: event_models(final(events)@),
        }) == player_strikes(
            Scene {
                player: old(player)@,
                monster: old(monster)@,
                monster_buffs: monster_buffs@,
                rng: *old(rng),
                events: event_models(old(events)@),
            },
        ),
{
    let attacker = sheet_of_player(player);
    let defender = sheet_of_monster(monster, monster_buffs);
    let scaling = scaling_of_weapon(&player.equipment);
    let raw: i64 = weapon_raw(attacker.stats.base_damage, &attacker.attributes, &scaling);
    let hit = compute_raw(
        &attacker.stats,
        ElementType::Physical,
        raw,
        &defender.resistance,
        rng,
    );
    monster.current_health = Health(
        shift(monster.current_health.0, -(hit.damage.0 as i64), defender.stats.max_health.0),
    );
    emit(events, BattleEvent::PlayerAttack { damage: hit.damage, is_critical: hit.is_critical });
    if hit.life_steal.0 > 0 {
        player.current_health = Health(
            shift(player.current_health.0, hit.life_steal.0 as i64, attacker.stats.max_health.0),
        );
        emit(events, BattleEvent::PlayerHeal { amount: hit.life_steal });
    }
    proof {
        let before = Scene {
            player: old(player)@,
            monster: old(monster)@,
            monster_buffs: monster_buffs@,
            rng: *old(rng),
            events: event_models(old(events)@),
        };
        let after = Scene {
            player: player@,
            monster: monster@,
            monster_buffs: monster_buffs@,
            rng: *rng,
            events: event_models(events@),
        };
        assert(after =~= player_strikes(before));
    }
}

/// Carries out the monster's attack. One roll is drawn.
pub fn monster_attack(
    player: &mut Player,
    monster: &mut Monster,
    monster_buffs: &Vec<Buff>,
    rng: &mut Rng,
    events: &mut Vec<BattleEvent>,
)
    ensures
        (Scene {
            player: final(player)@,
            monster: final(monster)@,
            monster_buffs: monster_buffs@,
            rng: *final(rng),
            events: event_models(final(events)@),
        }) == monster_strikes(
            Scene {
                player: old(player)@,
                monster: old(monster)@,
                monster_buffs: monster_buffs@,
                rng: *old(rng),
                events: event_models(old(events)@),
            },
        ),
{
    let attacker = sheet_of_monster(monster, monster_buffs);
    let defender = sheet_of_player(player);
    let raw: i64 = scaled_raw(attacker.stats.base_damage, 0, Ratio(0));
    let hit = compute_raw(
        &attacker.stats,
        ElementType::Physical,
        raw,
        &defender.resistance,
        rng,
    );
    player.current_health = Health(
        shift(player.current_health.0, -(hit.damage.0 as i64), defender.stats.max_health.0),
    );
    monster.current_health = Health(
        shift(monster.current_health.0, hit.life_steal.0 as i64, attacker.stats.max_health.0),
    );
    emit(events, BattleEvent::MonsterAttack { damage: hit.damage });
    proof {
        let before = Scene {
            player: old(player)@,
            monster: old(monster)@,
            monster_buffs: monster_buffs@,
            rng: *old(rng),
            events: event_models(old(events)@),
        };
        let after = Scene {
            player: player@,
            monster: monster@,
            monster_buffs: monster_buffs@,
            rng: *rng,
            events: event_models(events@),
        };
        assert(after =~= monster_strikes(before));
    }
}

} // verus!
