use combat_engine::buffs::{add_buff, tick};
use combat_engine::ids::{ItemId, MonsterId, PlayerId, SessionId, SkillId};
use combat_engine::timers::{remaining_turns, start_timer, tick_timers};
use combat_engine::types::{Buff, BuffType, Health, SkillTimer};
use uuid::Uuid;

fn timed(name: &str, turns: i32) -> Buff {
    Buff {
        id: String::from(name),
        name: String::from(name),
        buff_type: BuffType::IncreaseHealth(Health::new(5)),
        duration: turns,
        remaining_turns: turns,
    }
}

fn skill(n: u128) -> SkillId {
    SkillId::new(Uuid::from_u128(n))
}

#[test]
fn tick_takes_one_turn_from_every_buff() {
    let mut ledger = vec![timed("a", 3), timed("b", 2)];
    tick(&mut ledger);
    assert_eq!(ledger.len(), 2);
    assert_eq!(ledger[0].remaining_turns, 2);
    assert_eq!(ledger[1].remaining_turns, 1);
    assert_eq!(ledger[0].duration, 3);
    assert_eq!(ledger[0].id, "a");
}

#[test]
fn buff_of_one_turn_is_gone_after_one_tick() {
    let mut ledger = vec![timed("a", 1)];
    tick(&mut ledger);
    assert!(ledger.is_empty());
}

#[test]
fn buff_lasts_exactly_its_duration() {
    for duration in 1..12 {
        let mut ledger = vec![timed("before", 40), timed("x", duration), timed("after", 1)];
        for _ in 0..duration - 1 {
            tick(&mut ledger);
        }
        let found: Vec<&Buff> = ledger.iter().filter(|b| b.id == "x").collect();
        assert_eq!(found.len(), 1);
        assert_eq!(found[0].remaining_turns, 1);
        tick(&mut ledger);
        assert!(ledger.iter().all(|b| b.id != "x"));
        assert_eq!(ledger.len(), 1);
        assert_eq!(ledger[0].remaining_turns, 40 - duration);
    }
}

#[test]
fn tick_removes_buffs_without_turns_and_keeps_order() {
    let mut ledger =
        vec![timed("a", 0), timed("b", 5), timed("c", -3), timed("d", 2), timed("e", 1)];
    tick(&mut ledger);
    let names: Vec<&str> = ledger.iter().map(|b| b.id.as_str()).collect();
    assert_eq!(names, vec!["b", "d"]);
    let mut lowest = vec![timed("m", i32::MIN)];
    tick(&mut lowest);
    assert!(lowest.is_empty());
    let mut empty: Vec<Buff> = vec![];
    tick(&mut empty);
    assert!(empty.is_empty());
}

#[test]
fn equal_buffs_stack_as_entries_of_their_own() {
    let mut ledger = vec![];
    let source = String::from("Rally");
    add_buff(&mut ledger, &source, BuffType::IncreaseHealth(Health::new(5)), 2);
    add_buff(&mut ledger, &source, BuffType::IncreaseHealth(Health::new(5)), 4);
    assert_eq!(ledger.len(), 2);
    assert_eq!(ledger[0].id, "Rally");
    assert_eq!(ledger[0].name, "Rally");
    assert_eq!(ledger[0].duration, 2);
    assert_eq!(ledger[0].remaining_turns, 2);
    assert_eq!(ledger[1].remaining_turns, 4);
    tick(&mut ledger);
    tick(&mut ledger);
    assert_eq!(ledger.len(), 1);
    assert_eq!(ledger[0].remaining_turns, 2);
}

#[test]
fn timer_without_entry_has_no_turns_left() {
    let timers: Vec<SkillTimer> = vec![];
    assert_eq!(remaining_turns(&timers, &skill(1)), 0);
    let timers = vec![SkillTimer { skill: skill(2), turns: 4 }];
    assert_eq!(remaining_turns(&timers, &skill(1)), 0);
    assert_eq!(remaining_turns(&timers, &skill(2)), 4);
}

#[test]
fn starting_a_timer_replaces_what_the_skill_had() {
    let mut timers = vec![
        SkillTimer { skill: skill(1), turns: 9 },
        SkillTimer { skill: skill(2), turns: 4 },
        SkillTimer { skill: skill(1), turns: 7 },
    ];
    start_timer(&mut timers, skill(1), 3);
    assert_eq!(
        timers,
        vec![SkillTimer { skill: skill(2), turns: 4 }, SkillTimer { skill: skill(1), turns: 3 }]
    );
    start_timer(&mut timers, skill(2), 0);
    assert_eq!(timers, vec![SkillTimer { skill: skill(1), turns: 3 }]);
    start_timer(&mut timers, skill(1), -1);
    assert!(timers.is_empty());
}

#[test]
fn timer_entries_leave_when_they_reach_zero() {
    let mut timers = vec![
        SkillTimer { skill: skill(1), turns: 1 },
        SkillTimer { skill: skill(2), turns: 2 },
        SkillTimer { skill: skill(3), turns: 0 },
    ];
    tick_timers(&mut timers);
    assert_eq!(timers, vec![SkillTimer { skill: skill(2), turns: 1 }]);
    tick_timers(&mut timers);
    assert!(timers.is_empty());
}

#[test]
fn cooldown_of_three_blocks_two_boundaries() {
    let mut timers = vec![SkillTimer { skill: skill(8), turns: 50 }];
    start_timer(&mut timers, skill(1), 3);
    tick_timers(&mut timers);
    assert_eq!(remaining_turns(&timers, &skill(1)), 2);
    tick_timers(&mut timers);
    assert_eq!(remaining_turns(&timers, &skill(1)), 1);
    tick_timers(&mut timers);
    assert_eq!(remaining_turns(&timers, &skill(1)), 0);
    assert_eq!(remaining_turns(&timers, &skill(8)), 47);
}

#[test]
fn identifiers_compare_by_value() {
    let a = Uuid::from_u128(0x1234);
    let b = Uuid::from_u128(0x1235);
    assert!(SkillId::new(a).same_as(&SkillId::new(a)));
    assert!(!SkillId::new(a).same_as(&SkillId::new(b)));
    assert!(ItemId::new(a).same_as(&ItemId::new(a)));
    assert!(!ItemId::new(a).same_as(&ItemId::new(b)));
    assert!(PlayerId::new(a).same_as(&PlayerId::new(a)));
    assert!(!PlayerId::new(a).same_as(&PlayerId::new(b)));
    assert!(MonsterId::new(a).same_as(&MonsterId::new(a)));
    assert!(!MonsterId::new(b).same_as(&MonsterId::new(a)));
    assert!(SessionId::new(a).same_as(&SessionId::new(a)));
    assert!(!SessionId::new(b).same_as(&SessionId::new(a)));
    assert_eq!(SkillId::new(a).value(), a);
    assert_eq!(
        SkillId::new(Uuid::from_u128(1 << 127)).same_as(&SkillId::new(Uuid::from_u128(1))),
        false
    );
}

#[test]
fn replacing_a_buff_removes_those_with_its_identifier() {
    let mut ledger = vec![timed("a", 3), timed("b", 2), timed("a", 9), timed("c", 1)];
    combat_engine::buffs::replace_buff(&mut ledger, timed("a", 5));
    let seen: Vec<(&str, i32)> =
        ledger.iter().map(|b| (b.id.as_str(), b.remaining_turns)).collect();
    assert_eq!(seen, vec![("b", 2), ("c", 1), ("a", 5)]);
    combat_engine::buffs::replace_buff(&mut ledger, timed("z", 1));
    assert_eq!(ledger.len(), 4);
    assert_eq!(ledger[3].id, "z");
}
