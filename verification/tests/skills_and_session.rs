use combat_engine::content::{AffixPools, Content, Progression};
use combat_engine::error::Error;
use combat_engine::ratio::Ratio;
use combat_engine::rng::Rng;
use combat_engine::session::{advance_turn, pause, resume};
use combat_engine::skills::{find_readiness, find_skill, try_activate, use_skill, Readiness};
use combat_engine::timers::remaining_turns;
use combat_engine::types::{
    BaseItem, BaseStats, BattleEvent, Buff, BuffType, CharacterStats, Damage, ElementModifier,
    ElementResistance, ElementType, Equipment, EquipmentSlot, Experience, Gold, Health, Item,
    ItemId, ItemRarity, ItemType, Level, LootEntry, Mana, ModifierType, Monster, MonsterId,
    MonsterTier, Player, PlayerAction, PlayerClass, PlayerId, RarityWeights, Session, SessionId,
    SessionState, Skill, SkillEffect, SkillId, SkillTarget, SkillTimer, SkillTriggerCondition,
    SkillType, TriggerEvent, WeaponScaling,
};
use uuid::Uuid;

fn numbers(max_health: i32, max_mana: i32, base_damage: i32) -> CharacterStats {
    CharacterStats {
        max_health: Health::new(max_health),
        max_mana: Mana::new(max_mana),
        base_damage: Damage::new(base_damage),
        critical_chance: Ratio::zero(),
        critical_damage: Ratio::zero(),
        life_steal: Ratio::zero(),
        mp_regen: Mana::new(0),
        element_modifier: ElementModifier::default(),
    }
}

fn hero(health: i32, mana: i32, stats: CharacterStats) -> Player {
    Player {
        id: PlayerId::new(Uuid::from_u128(1)),
        name: String::from("Hero"),
        class: PlayerClass::Warrior,
        level: Level::new(1),
        current_health: Health::new(health),
        current_mana: Mana::new(mana),
        experience: Experience::new(0),
        base_stats: stats,
        base_attributes: BaseStats { strength: 0, intelligence: 0, dexterity: 0, vitality: 0 },
        equipment: Equipment::new(),
        inventory: vec![],
        skills: vec![],
        skill_cooldowns: vec![],
        skill_timers: vec![],
        active_buffs: vec![],
        element_resistance: ElementResistance::default(),
        gold: Gold::new(0),
    }
}

fn beast(health: i32, stats: CharacterStats) -> Monster {
    Monster {
        id: MonsterId::new(Uuid::from_u128(500)),
        name: String::from("Beast"),
        tier: MonsterTier::Common,
        level: Level::new(3),
        current_health: Health::new(health),
        stats,
        element_resistance: ElementResistance::default(),
        loot_table: vec![],
    }
}

fn run(player: Player, monster: Option<Monster>) -> Session {
    Session {
        id: SessionId::new(Uuid::from_u128(7)),
        player,
        current_monster: monster,
        monster_buffs: vec![],
        defeated_count: 0,
        wave: 0,
        state: SessionState::InProgress,
        started_at: String::from("2024-01-01T00:00:00Z"),
    }
}

fn world(monsters: Vec<Monster>) -> Content {
    Content {
        base_items: vec![BaseItem {
            id: ItemId::new(Uuid::from_u128(40)),
            name: String::from("Charm"),
            item_type: ItemType::Accessory,
            tags: vec![],
            required_level: Level::new(1),
            required_class: None,
            base_modifiers: vec![ModifierType::IncreaseHealth(5)],
            weapon_type: None,
            weapon_unique_skills: vec![],
            weapon_scaling: None,
        }],
        affixes: AffixPools {
            prefixes: vec![],
            suffixes: vec![],
            legendary_prefixes: vec![],
            legendary_suffixes: vec![],
        },
        monsters,
        progression: Progression {
            experience_per_level: Experience::new(10),
            level_thresholds: vec![],
            restore_on_level_up: false,
        },
    }
}

fn spell(n: u128, cost: i32, cooldown: i32, effects: Vec<SkillEffect>) -> Skill {
    Skill {
        id: SkillId::new(Uuid::from_u128(n)),
        name: String::from("Bolt"),
        description: String::from("A bolt"),
        skill_type: SkillType::Active,
        mana_cost: Mana::new(cost),
        cooldown,
        target_type: SkillTarget::Enemy,
        effects,
        trigger_conditions: vec![SkillTriggerCondition::Always],
        required_level: Level::new(1),
        weapon_type: None,
    }
}

fn strike(base: i32) -> SkillEffect {
    SkillEffect::Damage {
        base_damage: Damage::new(base),
        scaling: Ratio::zero(),
        element: ElementType::Physical,
    }
}

fn attack() -> PlayerAction {
    PlayerAction::BasicAttack
}

fn cast(n: u128) -> PlayerAction {
    PlayerAction::UseSkill { skill_id: SkillId::new(Uuid::from_u128(n)), target: SkillTarget::Enemy }
}

fn in_bounds(session: &Session) -> bool {
    let p = &session.player;
    let sheet = combat_engine::combat::sheet_of_player(p);
    let top_health = sheet.stats.max_health.value().max(0);
    let top_mana = sheet.stats.max_mana.value().max(0);
    (0..=top_health).contains(&p.current_health.value())
        && (0..=top_mana).contains(&p.current_mana.value())
}

#[test]
fn monster_attack_takes_its_damage_from_the_player() {
    let mut session = run(hero(100, 0, numbers(100, 0, 0)), Some(beast(50, numbers(50, 0, 30))));
    let mut rng = Rng::new(3);
    let events = advance_turn(&mut session, &attack(), &world(vec![]), &vec![], &mut rng).unwrap();
    assert_eq!(session.player.current_health, Health::new(70));
    assert_eq!(session.player.current_mana, Mana::new(0));
    assert_eq!(
        events,
        vec![
            BattleEvent::PlayerAttack { damage: Damage::new(0), is_critical: false },
            BattleEvent::MonsterAttack { damage: Damage::new(30) },
        ]
    );
    assert_eq!(session.state, SessionState::InProgress);
    assert_eq!(session.current_monster.as_ref().unwrap().current_health, Health::new(50));
}

#[test]
fn defeated_monster_is_cleared_and_counted() {
    let mut session = run(hero(100, 0, numbers(100, 0, 15)), Some(beast(10, numbers(10, 0, 30))));
    session.wave = 4;
    session.defeated_count = 4;
    session.monster_buffs = vec![Buff {
        id: String::from("x"),
        name: String::from("x"),
        buff_type: BuffType::IncreaseDefense(Ratio::new(0)),
        duration: 9,
        remaining_turns: 9,
    }];
    let mut rng = Rng::new(3);
    let events = advance_turn(&mut session, &attack(), &world(vec![]), &vec![], &mut rng).unwrap();
    assert_eq!(
        events,
        vec![
            BattleEvent::PlayerAttack { damage: Damage::new(15), is_critical: false },
            BattleEvent::MonsterDefeated { experience: Experience::new(30) },
        ]
    );
    assert!(session.current_monster.is_none());
    assert!(session.monster_buffs.is_empty());
    assert_eq!(session.defeated_count, 5);
    assert_eq!(session.wave, 5);
    assert_eq!(session.player.experience, Experience::new(30));
    assert_eq!(session.player.current_health, Health::new(100));
    assert_eq!(session.state, SessionState::InProgress);
}

#[test]
fn skill_with_cooldown_of_three_is_ready_again_on_the_fourth_turn() {
    let mut player = hero(100, 100, numbers(100, 100, 1));
    player.skills = vec![spell(9, 5, 3, vec![strike(7)])];
    let mut session = run(player, Some(beast(10_000, numbers(10_000, 0, 0))));
    let content = world(vec![]);
    let mut rng = Rng::new(11);
    let used = BattleEvent::SkillUsed { skill_name: String::from("Bolt") };
    let first = advance_turn(&mut session, &cast(9), &content, &vec![], &mut rng).unwrap();
    assert_eq!(first[0], used);
    assert_eq!(session.player.current_mana, Mana::new(95));
    for _ in 0..2 {
        let events = advance_turn(&mut session, &cast(9), &content, &vec![], &mut rng).unwrap();
        assert!(!events.contains(&used));
        assert_eq!(
            events[0],
            BattleEvent::PlayerAttack { damage: Damage::new(1), is_critical: false }
        );
        assert_eq!(session.player.current_mana, Mana::new(95));
    }
    let fourth = advance_turn(&mut session, &cast(9), &content, &vec![], &mut rng).unwrap();
    assert_eq!(fourth[0], used);
    assert_eq!(session.player.current_mana, Mana::new(90));
}

#[test]
fn vitals_stay_in_bounds_over_many_turns() {
    for seed in 0..40u64 {
        let mut stats = numbers(120, 40, 9);
        stats.mp_regen = Mana::new(3);
        stats.life_steal = Ratio::new(2_000);
        stats.critical_chance = Ratio::new(3_000);
        stats.critical_damage = Ratio::new(10_000);
        let mut player = hero(500, -20, stats);
        player.skills = vec![
            spell(
                1,
                12,
                2,
                vec![
                    strike(20),
                    SkillEffect::Buff {
                        buff_type: BuffType::IncreaseHealth(Health::new(-60)),
                        duration: 2,
                    },
                    SkillEffect::Heal { base_heal: Health::new(500), scaling: Ratio::one() },
                ],
            ),
            spell(
                2,
                0,
                0,
                vec![SkillEffect::Buff {
                    buff_type: BuffType::IncreaseMana(Mana::new(-35)),
                    duration: 3,
                }],
            ),
        ];
        let mut monster_stats = numbers(60, 0, 14);
        monster_stats.life_steal = Ratio::new(5_000);
        let template = beast(60, monster_stats);
        let content = world(vec![template.clone(); 6]);
        let mut session = run(player, None);
        let mut rng = Rng::new(seed);
        let mut chooser = Rng::new(seed ^ 0xabcdef);
        for _ in 0..80 {
            let action = match chooser.next_roll() % 4 {
                0 => cast(1),
                1 => cast(2),
                2 => cast(3),
                _ => attack(),
            };
            match advance_turn(&mut session, &action, &content, &vec![], &mut rng) {
                Ok(_) => assert!(in_bounds(&session)),
                Err(e) => {
                    assert_eq!(e, Error::SessionNotActive);
                    assert_eq!(session.state, SessionState::Completed);
                    assert!(in_bounds(&session));
                },
            }
            if let Some(m) = &session.current_monster {
                assert!((0..=60).contains(&m.current_health.value()));
            }
        }
    }
}

#[test]
fn turn_without_monster_lets_the_monster_of_the_wave_enter() {
    let mut second = beast(1, numbers(80, 0, 5));
    second.name = String::from("Second");
    let content = world(vec![beast(20, numbers(20, 0, 5)), second]);
    let mut session = run(hero(100, 0, numbers(100, 0, 10)), None);
    session.wave = 1;
    session.monster_buffs = vec![Buff {
        id: String::from("old"),
        name: String::from("old"),
        buff_type: BuffType::IncreaseDefense(Ratio::one()),
        duration: 5,
        remaining_turns: 5,
    }];
    let mut rng = Rng::new(1);
    let events = advance_turn(&mut session, &attack(), &content, &vec![], &mut rng).unwrap();
    assert!(events.is_empty());
    assert_eq!(rng, Rng::new(1));
    let monster = session.current_monster.as_ref().unwrap();
    assert_eq!(monster.name, "Second");
    assert_eq!(monster.current_health, Health::new(80));
    assert!(session.monster_buffs.is_empty());
    assert_eq!(session.wave, 1);
    assert_eq!(session.state, SessionState::InProgress);
}

#[test]
fn session_completes_when_the_waves_are_exhausted() {
    let content = world(vec![beast(20, numbers(20, 0, 5))]);
    let mut session = run(hero(100, 0, numbers(100, 0, 10)), None);
    session.wave = 1;
    let mut rng = Rng::new(1);
    let events = advance_turn(&mut session, &attack(), &content, &vec![], &mut rng).unwrap();
    assert!(events.is_empty());
    assert!(session.current_monster.is_none());
    assert_eq!(session.state, SessionState::Completed);
    assert_eq!(
        advance_turn(&mut session, &attack(), &content, &vec![], &mut rng),
        Err(Error::SessionNotActive)
    );
}

#[test]
fn paused_or_completed_session_is_rejected_and_kept() {
    for state in [SessionState::Paused, SessionState::Completed] {
        let mut session =
            run(hero(100, 0, numbers(100, 0, 15)), Some(beast(10, numbers(10, 0, 30))));
        session.state = state;
        let before = session.clone();
        let mut rng = Rng::new(3);
        let result = advance_turn(&mut session, &attack(), &world(vec![]), &vec![], &mut rng);
        assert_eq!(result, Err(Error::SessionNotActive));
        assert_eq!(session, before);
        assert_eq!(rng, Rng::new(3));
    }
}

#[test]
fn player_without_health_is_defeated_and_the_session_completed() {
    let mut stats = numbers(100, 50, 0);
    stats.mp_regen = Mana::new(5);
    let mut session = run(hero(30, 0, stats), Some(beast(50, numbers(50, 0, 45))));
    let mut rng = Rng::new(3);
    let events = advance_turn(&mut session, &attack(), &world(vec![]), &vec![], &mut rng).unwrap();
    assert_eq!(
        events,
        vec![
            BattleEvent::PlayerAttack { damage: Damage::new(0), is_critical: false },
            BattleEvent::MonsterAttack { damage: Damage::new(45) },
            BattleEvent::PlayerDefeated,
        ]
    );
    assert_eq!(session.player.current_health, Health::new(0));
    assert_eq!(session.player.current_mana, Mana::new(0));
    assert_eq!(session.state, SessionState::Completed);
    assert!(session.current_monster.is_some());
}

#[test]
fn mana_regenerates_at_the_end_of_the_turn_up_to_the_maximum() {
    let mut stats = numbers(100, 10, 0);
    stats.mp_regen = Mana::new(4);
    let mut session = run(hero(100, 3, stats), Some(beast(50, numbers(50, 0, 0))));
    let content = world(vec![]);
    let mut rng = Rng::new(3);
    let events = advance_turn(&mut session, &attack(), &content, &vec![], &mut rng).unwrap();
    assert_eq!(events.last(), Some(&BattleEvent::ManaRegenerated { amount: Mana::new(4) }));
    assert_eq!(session.player.current_mana, Mana::new(7));
    let events = advance_turn(&mut session, &attack(), &content, &vec![], &mut rng).unwrap();
    assert_eq!(events.last(), Some(&BattleEvent::ManaRegenerated { amount: Mana::new(3) }));
    assert_eq!(session.player.current_mana, Mana::new(10));
    let events = advance_turn(&mut session, &attack(), &content, &vec![], &mut rng).unwrap();
    assert_eq!(events.len(), 2);
    assert_eq!(session.player.current_mana, Mana::new(10));
}

#[test]
fn unknown_skill_degrades_to_a_basic_attack() {
    let mut session = run(hero(100, 50, numbers(100, 50, 6)), Some(beast(50, numbers(50, 0, 0))));
    let mut rng = Rng::new(3);
    let events = advance_turn(&mut session, &cast(404), &world(vec![]), &vec![], &mut rng).unwrap();
    assert_eq!(
        events,
        vec![
            BattleEvent::PlayerAttack { damage: Damage::new(6), is_critical: false },
            BattleEvent::MonsterAttack { damage: Damage::new(0) },
        ]
    );
    assert_eq!(session.current_monster.unwrap().current_health, Health::new(44));
}

#[test]
fn skill_without_mana_is_reported_and_degrades_to_a_basic_attack() {
    let mut player = hero(100, 4, numbers(100, 50, 6));
    player.skills = vec![spell(9, 5, 3, vec![strike(40)])];
    let mut session = run(player, Some(beast(50, numbers(50, 0, 0))));
    let mut rng = Rng::new(3);
    let events = advance_turn(&mut session, &cast(9), &world(vec![]), &vec![], &mut rng).unwrap();
    assert_eq!(
        events,
        vec![
            BattleEvent::NotEnoughMana,
            BattleEvent::PlayerAttack { damage: Damage::new(6), is_critical: false },
            BattleEvent::MonsterAttack { damage: Damage::new(0) },
        ]
    );
    assert_eq!(session.player.current_mana, Mana::new(4));
    assert!(session.player.skill_cooldowns.is_empty());
}

#[test]
fn skill_with_the_wrong_target_degrades_to_a_basic_attack() {
    let mut player = hero(100, 50, numbers(100, 50, 6));
    player.skills = vec![spell(9, 5, 3, vec![strike(40)])];
    let mut session = run(player, Some(beast(50, numbers(50, 0, 0))));
    let mut rng = Rng::new(3);
    let action = PlayerAction::UseSkill {
        skill_id: SkillId::new(Uuid::from_u128(9)),
        target: SkillTarget::SelfTarget,
    };
    let events = advance_turn(&mut session, &action, &world(vec![]), &vec![], &mut rng).unwrap();
    assert_eq!(
        events[0],
        BattleEvent::PlayerAttack { damage: Damage::new(6), is_critical: false }
    );
    assert_eq!(session.player.current_mana, Mana::new(50));
}

#[test]
fn victory_drops_loot_and_raises_the_level() {
    let mut monster = beast(10, numbers(10, 0, 30));
    monster.level = Level::new(5);
    monster.loot_table = vec![
        LootEntry {
            base_item_id: ItemId::new(Uuid::from_u128(40)),
            drop_chance: Ratio::one(),
            rarity_weights: RarityWeights {
                common: Ratio::one(),
                magic: Ratio::zero(),
                rare: Ratio::zero(),
                legendary: Ratio::zero(),
            },
        },
        LootEntry {
            base_item_id: ItemId::new(Uuid::from_u128(40)),
            drop_chance: Ratio::zero(),
            rarity_weights: RarityWeights {
                common: Ratio::one(),
                magic: Ratio::zero(),
                rare: Ratio::zero(),
                legendary: Ratio::zero(),
            },
        },
    ];
    let mut content = world(vec![]);
    content.progression = Progression {
        experience_per_level: Experience::new(20),
        level_thresholds: vec![
            Experience::new(0),
            Experience::new(50),
            Experience::new(100),
            Experience::new(101),
        ],
        restore_on_level_up: true,
    };
    let mut stats = numbers(100, 30, 15);
    stats.mp_regen = Mana::new(1);
    let mut session = run(hero(40, 2, stats), Some(monster));
    let ids = vec![ItemId::new(Uuid::from_u128(8_000)), ItemId::new(Uuid::from_u128(8_001))];
    let mut rng = Rng::new(3);
    let mut twin = Rng::new(3);
    let events = advance_turn(&mut session, &attack(), &content, &ids, &mut rng).unwrap();
    let dropped = Item {
        id: ItemId::new(Uuid::from_u128(8_000)),
        base_item: content.base_items[0].clone(),
        rarity: ItemRarity::Common,
        prefix: None,
        suffix: None,
        level: Level::new(5),
    };
    assert_eq!(
        events,
        vec![
            BattleEvent::PlayerAttack { damage: Damage::new(15), is_critical: false },
            BattleEvent::MonsterDefeated { experience: Experience::new(100) },
            BattleEvent::ItemDropped { item: dropped.clone() },
            BattleEvent::PlayerLevelUp { new_level: Level::new(2) },
            BattleEvent::PlayerLevelUp { new_level: Level::new(3) },
        ]
    );
    assert_eq!(session.player.inventory, vec![dropped]);
    assert_eq!(session.player.level, Level::new(3));
    assert_eq!(session.player.experience, Experience::new(100));
    assert_eq!(session.player.current_health, Health::new(100));
    assert_eq!(session.player.current_mana, Mana::new(30));
    for _ in 0..11 {
        twin.next_roll();
    }
    assert_eq!(rng, twin);
}

#[test]
fn level_stays_without_threshold_and_counts_stop_at_their_limit() {
    let mut content = world(vec![]);
    content.progression.experience_per_level = Experience::new(u64::MAX);
    content.progression.level_thresholds = vec![Experience::new(0)];
    let mut player = hero(100, 0, numbers(100, 0, 15));
    player.level = Level::new(1);
    player.experience = Experience::new(5);
    let mut session = run(player, Some(beast(10, numbers(10, 0, 30))));
    session.wave = u32::MAX;
    session.defeated_count = u32::MAX;
    let mut rng = Rng::new(3);
    let events = advance_turn(&mut session, &attack(), &content, &vec![], &mut rng).unwrap();
    assert_eq!(events[1], BattleEvent::MonsterDefeated { experience: Experience::new(u64::MAX) });
    assert_eq!(events.len(), 2);
    assert_eq!(session.player.level, Level::new(1));
    assert_eq!(session.player.experience, Experience::new(u64::MAX));
    assert_eq!(session.wave, u32::MAX);
    assert_eq!(session.defeated_count, u32::MAX);
}

#[test]
fn basic_attack_uses_the_weapon_and_steals_life() {
    let mut stats = numbers(100, 0, 10);
    stats.life_steal = Ratio::new(5_000);
    let mut player = hero(50, 0, stats);
    player.base_attributes = BaseStats { strength: 20, intelligence: 0, dexterity: 0, vitality: 0 };
    player.equipment.put(
        EquipmentSlot::MainHand,
        Some(Item {
            id: ItemId::new(Uuid::from_u128(70)),
            base_item: BaseItem {
                id: ItemId::new(Uuid::from_u128(71)),
                name: String::from("Axe"),
                item_type: ItemType::Weapon,
                tags: vec![],
                required_level: Level::new(1),
                required_class: None,
                base_modifiers: vec![ModifierType::IncreaseStrength(4)],
                weapon_type: None,
                weapon_unique_skills: vec![],
                weapon_scaling: Some(WeaponScaling {
                    strength: Ratio::new(5_000),
                    intelligence: Ratio::zero(),
                    dexterity: Ratio::zero(),
                }),
            },
            rarity: ItemRarity::Common,
            prefix: None,
            suffix: None,
            level: Level::new(1),
        }),
    );
    let mut monster = beast(90, numbers(90, 0, 0));
    monster.element_resistance.physical = Ratio::new(5_000);
    let mut session = run(player, Some(monster));
    let mut rng = Rng::new(3);
    let events = advance_turn(&mut session, &attack(), &world(vec![]), &vec![], &mut rng).unwrap();
    assert_eq!(
        events,
        vec![
            BattleEvent::PlayerAttack { damage: Damage::new(11), is_critical: false },
            BattleEvent::PlayerHeal { amount: Health::new(6) },
            BattleEvent::MonsterAttack { damage: Damage::new(0) },
        ]
    );
    assert_eq!(session.player.current_health, Health::new(56));
    assert_eq!(session.current_monster.unwrap().current_health, Health::new(79));
}

#[test]
fn buffs_decay_at_the_turn_boundary_before_stats_resolve() {
    let mut player = hero(150, 0, numbers(100, 0, 0));
    player.active_buffs = vec![Buff {
        id: String::from("vigor"),
        name: String::from("vigor"),
        buff_type: BuffType::IncreaseHealth(Health::new(50)),
        duration: 1,
        remaining_turns: 1,
    }];
    let mut session = run(player, Some(beast(50, numbers(50, 0, 0))));
    let mut rng = Rng::new(3);
    advance_turn(&mut session, &attack(), &world(vec![]), &vec![], &mut rng).unwrap();
    assert!(session.player.active_buffs.is_empty());
    assert_eq!(session.player.current_health, Health::new(100));
}

#[test]
fn activation_pays_starts_the_cooldown_and_applies_effects_in_order() {
    let mut player = hero(40, 20, numbers(100, 50, 10));
    let mut monster = beast(12, numbers(100, 0, 0));
    let mut monster_buffs = vec![];
    let mut skill = spell(
        9,
        8,
        4,
        vec![
            SkillEffect::Damage {
                base_damage: Damage::new(5),
                scaling: Ratio::new(15_000),
                element: ElementType::Physical,
            },
            SkillEffect::Heal { base_heal: Health::new(4), scaling: Ratio::new(5_000) },
            SkillEffect::Buff {
                buff_type: BuffType::IncreaseDamage(Ratio::new(5_000)),
                duration: 2,
            },
            SkillEffect::Debuff {
                debuff_type: BuffType::IncreaseDefense(Ratio::new(-2_000)),
                duration: 3,
            },
            SkillEffect::Summon { monster_id: MonsterId::new(Uuid::from_u128(600)), duration: 5 },
            strike(0),
        ],
    );
    skill.name = String::from("Combo");
    let mut rng = Rng::new(21);
    let mut twin = Rng::new(21);
    let events = try_activate(
        &skill,
        &mut player,
        &mut monster,
        &mut monster_buffs,
        SkillTarget::Enemy,
        TriggerEvent::TurnStart,
        &mut rng,
    )
    .unwrap();
    let name = String::from("Combo");
    assert_eq!(
        events,
        vec![
            BattleEvent::SkillUsed { skill_name: name.clone() },
            BattleEvent::SkillDamage {
                skill_name: name.clone(),
                damage: Damage::new(20),
                target_id: MonsterId::new(Uuid::from_u128(500)),
                target_name: String::from("Beast"),
            },
            BattleEvent::SkillHeal { skill_name: name.clone(), amount: Health::new(9) },
            BattleEvent::BuffApplied {
                skill_name: name.clone(),
                buff_type: BuffType::IncreaseDamage(Ratio::new(5_000)),
                duration: 2,
            },
            BattleEvent::DebuffApplied {
                skill_name: name.clone(),
                debuff_type: BuffType::IncreaseDefense(Ratio::new(-2_000)),
                duration: 3,
            },
            BattleEvent::MonsterSummoned {
                skill_name: name.clone(),
                monster_id: MonsterId::new(Uuid::from_u128(600)),
                duration: 5,
            },
            BattleEvent::SkillDamage {
                skill_name: name.clone(),
                damage: Damage::new(0),
                target_id: MonsterId::new(Uuid::from_u128(500)),
                target_name: String::from("Beast"),
            },
        ]
    );
    assert_eq!(monster.current_health, Health::new(0));
    assert_eq!(player.current_health, Health::new(49));
    assert_eq!(player.current_mana, Mana::new(12));
    assert_eq!(
        player.skill_cooldowns,
        vec![SkillTimer { skill: SkillId::new(Uuid::from_u128(9)), turns: 4 }]
    );
    assert_eq!(player.active_buffs.len(), 1);
    assert_eq!(player.active_buffs[0].id, "Combo");
    assert_eq!(player.active_buffs[0].remaining_turns, 2);
    assert_eq!(monster_buffs.len(), 1);
    assert_eq!(monster_buffs[0].buff_type, BuffType::IncreaseDefense(Ratio::new(-2_000)));
    twin.next_roll();
    twin.next_roll();
    assert_eq!(rng, twin);
}

#[test]
fn later_effects_see_the_buffs_of_earlier_ones() {
    let mut player = hero(40, 20, numbers(100, 50, 10));
    let mut monster = beast(100, numbers(100, 0, 0));
    let mut monster_buffs = vec![];
    let skill = spell(
        9,
        0,
        0,
        vec![
            SkillEffect::Buff {
                buff_type: BuffType::IncreaseDamage(Ratio::new(5_000)),
                duration: 2,
            },
            SkillEffect::Debuff {
                debuff_type: BuffType::IncreaseDefense(Ratio::new(5_000)),
                duration: 3,
            },
            SkillEffect::Damage {
                base_damage: Damage::new(5),
                scaling: Ratio::one(),
                element: ElementType::Physical,
            },
        ],
    );
    let mut rng = Rng::new(21);
    let events = try_activate(
        &skill,
        &mut player,
        &mut monster,
        &mut monster_buffs,
        SkillTarget::Enemy,
        TriggerEvent::TurnStart,
        &mut rng,
    )
    .unwrap();
    assert_eq!(
        events[3],
        BattleEvent::SkillDamage {
            skill_name: String::from("Bolt"),
            damage: Damage::new(10),
            target_id: MonsterId::new(Uuid::from_u128(500)),
            target_name: String::from("Beast"),
        }
    );
    assert_eq!(monster.current_health, Health::new(90));
    assert!(player.skill_cooldowns.is_empty());
}

#[test]
fn skill_on_cooldown_is_passed_over() {
    let mut player = hero(40, 20, numbers(100, 50, 10));
    player.skill_cooldowns = vec![SkillTimer { skill: SkillId::new(Uuid::from_u128(9)), turns: 1 }];
    let mut monster = beast(100, numbers(100, 0, 0));
    let mut monster_buffs = vec![];
    let skill = spell(9, 500, 4, vec![strike(5)]);
    let before = player.clone();
    let mut rng = Rng::new(21);
    let result = try_activate(
        &skill,
        &mut player,
        &mut monster,
        &mut monster_buffs,
        SkillTarget::Enemy,
        TriggerEvent::TurnStart,
        &mut rng,
    );
    assert_eq!(result, Ok(vec![]));
    assert_eq!(player, before);
    assert_eq!(monster.current_health, Health::new(100));
    assert_eq!(rng, Rng::new(21));
    assert_eq!(
        find_readiness(&skill, &player, SkillTarget::Enemy, TriggerEvent::TurnStart),
        Readiness::OnCooldown
    );
}

#[test]
fn skill_that_costs_too_much_fails_with_insufficient_mana() {
    let mut player = hero(40, 7, numbers(100, 50, 10));
    let mut monster = beast(100, numbers(100, 0, 0));
    let mut monster_buffs = vec![];
    let skill = spell(9, 8, 4, vec![strike(5)]);
    let before = player.clone();
    let mut rng = Rng::new(21);
    let result = try_activate(
        &skill,
        &mut player,
        &mut monster,
        &mut monster_buffs,
        SkillTarget::Enemy,
        TriggerEvent::TurnStart,
        &mut rng,
    );
    assert_eq!(result, Err(Error::InsufficientMana));
    assert_eq!(player, before);
    player.current_mana = Mana::new(8);
    let result = try_activate(
        &skill,
        &mut player,
        &mut monster,
        &mut monster_buffs,
        SkillTarget::Enemy,
        TriggerEvent::TurnStart,
        &mut rng,
    );
    assert!(result.is_ok());
    assert_eq!(player.current_mana, Mana::new(0));
}

#[test]
fn skill_with_the_wrong_target_fails_with_invalid_target() {
    let mut player = hero(40, 20, numbers(100, 50, 10));
    let mut monster = beast(100, numbers(100, 0, 0));
    let mut monster_buffs = vec![];
    let mut skill = spell(9, 8, 4, vec![strike(5)]);
    skill.target_type = SkillTarget::SelfTarget;
    player.skill_cooldowns = vec![SkillTimer { skill: SkillId::new(Uuid::from_u128(9)), turns: 1 }];
    let before = player.clone();
    let mut rng = Rng::new(21);
    for target in [SkillTarget::Enemy, SkillTarget::AllEnemies] {
        let result = try_activate(
            &skill,
            &mut player,
            &mut monster,
            &mut monster_buffs,
            target,
            TriggerEvent::TurnStart,
            &mut rng,
        );
        assert_eq!(result, Err(Error::InvalidTarget));
    }
    assert_eq!(player, before);
    assert_eq!(
        find_readiness(&skill, &player, SkillTarget::Enemy, TriggerEvent::TurnStart),
        Readiness::WrongTarget
    );
}

#[test]
fn skill_the_player_does_not_own_fails_with_invalid_skill_id() {
    let mut player = hero(40, 20, numbers(100, 50, 10));
    player.skills = vec![spell(9, 1, 0, vec![strike(5)]), spell(10, 1, 0, vec![strike(6)])];
    let mut monster = beast(100, numbers(100, 0, 0));
    let mut monster_buffs = vec![];
    let mut rng = Rng::new(21);
    let result = use_skill(
        &mut player,
        &mut monster,
        &mut monster_buffs,
        &SkillId::new(Uuid::from_u128(11)),
        SkillTarget::Enemy,
        TriggerEvent::TurnStart,
        &mut rng,
    );
    assert_eq!(result, Err(Error::InvalidSkillId));
    assert_eq!(monster.current_health, Health::new(100));
    assert_eq!(find_skill(&player.skills, &SkillId::new(Uuid::from_u128(10))), 1);
    assert_eq!(find_skill(&player.skills, &SkillId::new(Uuid::from_u128(11))), 2);
    let result = use_skill(
        &mut player,
        &mut monster,
        &mut monster_buffs,
        &SkillId::new(Uuid::from_u128(10)),
        SkillTarget::Enemy,
        TriggerEvent::TurnStart,
        &mut rng,
    );
    assert_eq!(result.unwrap().len(), 2);
    assert_eq!(monster.current_health, Health::new(94));
    assert_eq!(player.skills.len(), 2);
}

#[test]
fn any_one_trigger_condition_lets_the_skill_fire() {
    let player = hero(20, 20, numbers(100, 50, 10));
    let mut skill = spell(9, 1, 0, vec![strike(5)]);
    let ready = |skill: &Skill, player: &Player, event: TriggerEvent| {
        find_readiness(skill, player, SkillTarget::Enemy, event)
    };
    skill.trigger_conditions = vec![];
    assert_eq!(ready(&skill, &player, TriggerEvent::TurnStart), Readiness::NotTriggered);
    skill.trigger_conditions = vec![SkillTriggerCondition::OnCritical];
    assert_eq!(ready(&skill, &player, TriggerEvent::TurnStart), Readiness::NotTriggered);
    assert_eq!(ready(&skill, &player, TriggerEvent::Critical), Readiness::Fires);
    skill.trigger_conditions =
        vec![SkillTriggerCondition::OnCritical, SkillTriggerCondition::OnKill];
    assert_eq!(ready(&skill, &player, TriggerEvent::Kill), Readiness::Fires);
    assert_eq!(ready(&skill, &player, TriggerEvent::Critical), Readiness::Fires);
    assert_eq!(ready(&skill, &player, TriggerEvent::BattleStart), Readiness::NotTriggered);
    skill.trigger_conditions =
        vec![SkillTriggerCondition::OnBattleStart, SkillTriggerCondition::OnBattleEnd];
    assert_eq!(ready(&skill, &player, TriggerEvent::BattleStart), Readiness::Fires);
    assert_eq!(ready(&skill, &player, TriggerEvent::BattleEnd), Readiness::Fires);
    assert_eq!(ready(&skill, &player, TriggerEvent::TurnStart), Readiness::NotTriggered);
    skill.trigger_conditions = vec![SkillTriggerCondition::OnLowHealth(Ratio::new(2_000))];
    assert_eq!(ready(&skill, &player, TriggerEvent::TurnStart), Readiness::Fires);
    skill.trigger_conditions = vec![SkillTriggerCondition::OnLowHealth(Ratio::new(1_999))];
    assert_eq!(ready(&skill, &player, TriggerEvent::TurnStart), Readiness::NotTriggered);
    skill.trigger_conditions = vec![SkillTriggerCondition::OnHighHealth(Ratio::new(2_000))];
    assert_eq!(ready(&skill, &player, TriggerEvent::TurnStart), Readiness::Fires);
    skill.trigger_conditions = vec![SkillTriggerCondition::OnHighHealth(Ratio::new(2_001))];
    assert_eq!(ready(&skill, &player, TriggerEvent::TurnStart), Readiness::NotTriggered);
    skill.trigger_conditions = vec![
        SkillTriggerCondition::OnHighHealth(Ratio::new(2_001)),
        SkillTriggerCondition::Always,
    ];
    assert_eq!(ready(&skill, &player, TriggerEvent::Kill), Readiness::Fires);
}

#[test]
fn turn_timer_fires_and_starts_again_whatever_the_cooldown() {
    let id = SkillId::new(Uuid::from_u128(9));
    let mut player = hero(40, 20, numbers(100, 50, 10));
    let mut monster = beast(100, numbers(100, 0, 0));
    let mut monster_buffs = vec![];
    let mut skill = spell(9, 1, 0, vec![strike(5)]);
    skill.trigger_conditions =
        vec![SkillTriggerCondition::EveryNTurns(0), SkillTriggerCondition::EveryNTurns(3)];
    let mut rng = Rng::new(21);
    let mut go = |player: &mut Player, monster: &mut Monster, event: TriggerEvent| {
        try_activate(&skill, player, monster, &mut monster_buffs, SkillTarget::Enemy, event, &mut rng)
    };
    assert_eq!(go(&mut player, &mut monster, TriggerEvent::Kill), Ok(vec![]));
    assert!(player.skill_timers.is_empty());
    assert_eq!(go(&mut player, &mut monster, TriggerEvent::TurnStart).unwrap().len(), 2);
    assert_eq!(remaining_turns(&player.skill_timers, &id), 3);
    assert_eq!(go(&mut player, &mut monster, TriggerEvent::TurnStart), Ok(vec![]));
    assert_eq!(monster.current_health, Health::new(95));
    player.skill_timers.clear();
    player.skill_cooldowns = vec![SkillTimer { skill: id, turns: 2 }];
    assert_eq!(go(&mut player, &mut monster, TriggerEvent::TurnStart), Ok(vec![]));
    assert_eq!(remaining_turns(&player.skill_timers, &id), 3);
    assert_eq!(monster.current_health, Health::new(95));
}

#[test]
fn activation_is_deterministic() {
    let mut stats = numbers(100, 50, 10);
    stats.critical_chance = Ratio::new(5_000);
    stats.critical_damage = Ratio::new(12_345);
    stats.life_steal = Ratio::new(777);
    let skill = spell(
        9,
        3,
        2,
        vec![
            strike(17),
            strike(23),
            SkillEffect::Heal { base_heal: Health::new(1), scaling: Ratio::new(3_333) },
            strike(5),
        ],
    );
    for seed in 0..100u64 {
        let mut outcomes = vec![];
        for _ in 0..2 {
            let mut player = hero(60, 20, stats);
            let mut monster = beast(1_000, numbers(1_000, 0, 0));
            let mut monster_buffs = vec![];
            let mut rng = Rng::new(seed);
            let events = try_activate(
                &skill,
                &mut player,
                &mut monster,
                &mut monster_buffs,
                SkillTarget::Enemy,
                TriggerEvent::TurnStart,
                &mut rng,
            );
            outcomes.push((events, player, monster, monster_buffs, rng));
        }
        assert_eq!(outcomes[0], outcomes[1]);
        assert_eq!(outcomes[0].0.as_ref().unwrap().len(), 5);
    }
}

#[test]
fn turns_are_deterministic() {
    for seed in 0..30u64 {
        let mut logs = vec![];
        for _ in 0..2 {
            let mut stats = numbers(200, 50, 12);
            stats.critical_chance = Ratio::new(4_000);
            stats.critical_damage = Ratio::one();
            let mut player = hero(200, 50, stats);
            player.skills = vec![spell(1, 5, 1, vec![strike(9)])];
            let mut monster_stats = numbers(70, 0, 6);
            monster_stats.critical_chance = Ratio::new(2_000);
            monster_stats.critical_damage = Ratio::one();
            let content = world(vec![beast(70, monster_stats); 3]);
            let mut session = run(player, None);
            let mut rng = Rng::new(seed);
            let mut log = vec![];
            for turn in 0..30 {
                let action = if turn % 3 == 0 { cast(1) } else { attack() };
                log.push(advance_turn(&mut session, &action, &content, &vec![], &mut rng));
            }
            logs.push((log, session, rng));
        }
        assert_eq!(logs[0], logs[1]);
    }
}

#[test]
fn monster_health_ends_each_turn_within_its_bounds() {
    let mut player = hero(100, 50, numbers(100, 50, 1));
    player.skills = vec![spell(
        1,
        0,
        0,
        vec![SkillEffect::Debuff {
            debuff_type: BuffType::IncreaseHealth(Health::new(-30)),
            duration: 2,
        }],
    )];
    let mut session = run(player, Some(beast(500, numbers(80, 0, 0))));
    let content = world(vec![]);
    let mut rng = Rng::new(3);
    advance_turn(&mut session, &cast(1), &content, &vec![], &mut rng).unwrap();
    assert_eq!(session.current_monster.as_ref().unwrap().current_health, Health::new(50));
    assert_eq!(session.monster_buffs.len(), 1);
    advance_turn(&mut session, &attack(), &content, &vec![], &mut rng).unwrap();
    assert_eq!(session.current_monster.as_ref().unwrap().current_health, Health::new(49));
    advance_turn(&mut session, &attack(), &content, &vec![], &mut rng).unwrap();
    assert!(session.monster_buffs.is_empty());
    assert_eq!(session.current_monster.as_ref().unwrap().current_health, Health::new(48));
}

#[test]
fn pause_and_resume_move_between_in_progress_and_paused() {
    let mut session = run(hero(100, 0, numbers(100, 0, 15)), Some(beast(10, numbers(10, 0, 30))));
    let fresh = session.clone();
    assert!(!resume(&mut session));
    assert_eq!(session, fresh);
    assert!(pause(&mut session));
    assert_eq!(session.state, SessionState::Paused);
    assert!(!pause(&mut session));
    assert_eq!(session.state, SessionState::Paused);
    let mut rng = Rng::new(1);
    assert_eq!(
        advance_turn(&mut session, &attack(), &world(vec![]), &vec![], &mut rng),
        Err(Error::SessionNotActive)
    );
    assert!(resume(&mut session));
    assert_eq!(session, fresh);
    session.state = SessionState::Completed;
    assert!(!pause(&mut session));
    assert!(!resume(&mut session));
    assert_eq!(session.state, SessionState::Completed);
}
