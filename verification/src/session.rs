//! The session orchestrator: one turn of a session, from the turn boundary
//! to the regeneration of mana, and the state machine around it.
//!
//! A turn is a function of the session, the player's action, the content,
//! the identifiers supplied for drops and the generator. A session that is
//! not in progress is rejected and stays as it is.

use crate::buffs::{tick, ticked};
use crate::combat::{
    basic_attack, cap, monster_attack, monster_sheet, monster_strikes, no_attributes, player_sheet,
    player_strikes, sheet_of_monster, sheet_of_player, shift, shifted, within, Scene,
};
use crate::content::{Content, ContentModel, ProgressionModel};
use crate::error::Error;
use crate::ids::ItemId;
use crate::loot::{draws_of, drops, roll};
use crate::ratio::{clamp_i32, narrow_i32};
use crate::rng::Rng;
use crate::skills::{lemma_skill_use_keeps_tables, skill_use, tables_in_order, use_skill};
use crate::stats::lemma_resolve_identity;
use crate::timers::{lemma_aged_stays_in_order, tick_timers, ticked_timers};
use crate::types::actors::{Monster, MonsterModel, Player, PlayerModel, Session, SessionModel};
use crate::types::events::{emit, emit_all, event_models, BattleEvent, EventModel};
use crate::types::items::{item_models, Item, ItemModel};
use crate::types::values::{
    Buff, Experience, Health, Level, Mana, PlayerAction, SessionState, TriggerEvent,
};
use vstd::prelude::*;

verus! {

/// What a turn comes to: the session after it, the generator after it and
/// the record of what happened, in order.
#[verifier::ext_equal]
pub struct TurnModel {
    pub session: SessionModel,
    pub rng: Rng,
    pub events: Seq<EventModel>,
}

/// Whether the player's health and mana lie within their bounds: from 0 to
/// the resolved maximum.
pub open spec fn vitals_in_bounds(player: PlayerModel) -> bool {
    &&& within(
        player.current_health.0 as int,
        player_sheet(player).stats.max_health.0 as int,
    )
    &&& within(player.current_mana.0 as int, player_sheet(player).stats.max_mana.0 as int)
}

/// Whether the health of the current monster, if there is one, lies within
/// its bounds: from 0 to the resolved maximum.
pub open spec fn monster_in_bounds(s: SessionModel) -> bool {
    match s.current_monster {
        Some(monster) => within(
            monster.current_health.0 as int,
            monster_sheet(monster, s.monster_buffs).stats.max_health.0 as int,
        ),
        None => true,
    }
}

/// The player with health and mana brought within their bounds.
pub open spec fn settled(player: PlayerModel) -> PlayerModel {
    PlayerModel {
        current_health: Health(
            shifted(
                player.current_health.0 as int,
                0,
                player_sheet(player).stats.max_health.0 as int,
            ) as i32,
        ),
        current_mana: Mana(
            shifted(
                player.current_mana.0 as int,
                0,
                player_sheet(player).stats.max_mana.0 as int,
            ) as i32,
        ),
        ..player
    }
}

/// The player after a turn boundary: the buffs, the cooldowns and the turn
/// timers have each lost one turn.
pub open spec fn at_boundary(player: PlayerModel) -> PlayerModel {
    PlayerModel {
        active_buffs: ticked(player.active_buffs),
        skill_cooldowns: ticked_timers(player.skill_cooldowns),
        skill_timers: ticked_timers(player.skill_timers),
        ..player
    }
}

/// The monster with its health brought within its bounds under `buffs`.
pub open spec fn steadied(monster: MonsterModel, buffs: Seq<Buff>) -> MonsterModel {
    MonsterModel {
        current_health: Health(
            shifted(
                monster.current_health.0 as int,
                0,
                monster_sheet(monster, buffs).stats.max_health.0 as int,
            ) as i32,
        ),
        ..monster
    }
}

/// A monster as it enters the fight: the template at full health.
pub open spec fn spawned(template: MonsterModel) -> MonsterModel {
    MonsterModel {
        current_health: Health(cap(template.stats.max_health.0 as int) as i32),
        ..template
    }
}

/// The session after a turn without a monster: the monster of the wave
/// enters, or, where the content has none for the wave, the session is
/// completed.
pub open spec fn encounter_begun(s: SessionModel, content: ContentModel) -> SessionModel {
    if s.wave < content.monsters.len() {
        SessionModel {
            player: settled(s.player),
            current_monster: Some(spawned(content.monsters[s.wave as int])),
            monster_buffs: Seq::empty(),
            ..s
        }
    } else {
        SessionModel { player: settled(s.player), state: SessionState::Completed, ..s }
    }
}

/// The scene after the player's action. A skill that fires stands for the
/// action. Any other try of a skill degrades to a basic attack; where the
/// try failed for want of mana, the record says so first.
pub open spec fn player_acts(scene: Scene, action: PlayerAction) -> Scene {
    match action {
        PlayerAction::BasicAttack => player_strikes(scene),
        PlayerAction::UseSkill { skill_id, target } => {
            let tried = skill_use(
                Scene { events: Seq::empty(), ..scene },
                skill_id,
                target,
                TriggerEvent::TurnStart,
            );
            if tried.error.is_none() && tried.scene.events.len() > 0 {
                Scene { events: scene.events + tried.scene.events, ..tried.scene }
            } else if tried.error == Some(Error::InsufficientMana) {
                player_strikes(
                    Scene { events: scene.events.push(EventModel::NotEnoughMana), ..tried.scene },
                )
            } else {
                player_strikes(Scene { events: scene.events, ..tried.scene })
            }
        },
    }
}

/// `count` plus one, as far as the type goes.
pub open spec fn bumped(count: u32) -> u32 {
    if count < u32::MAX {
        (count + 1) as u32
    } else {
        count
    }
}

/// The experience that a monster of `level` is worth, as far as the type
/// goes.
pub open spec fn reward(level: Level, per_level: Experience) -> Experience {
    if level.0 * per_level.0 > u64::MAX {
        Experience(u64::MAX)
    } else {
        Experience((level.0 * per_level.0) as u64)
    }
}

/// The sum of two amounts of experience, as far as the type goes.
pub open spec fn experience_sum(a: Experience, b: Experience) -> Experience {
    if a.0 + b.0 > u64::MAX {
        Experience(u64::MAX)
    } else {
        Experience((a.0 + b.0) as u64)
    }
}

/// The level that a player of `level` with `experience` rises to:
/// `thresholds[n]` is the experience at which level `n` is left for level
/// `n + 1`, and a level without a threshold is the last.
pub open spec fn level_for(level: u32, experience: Experience, thresholds: Seq<Experience>) -> u32
    decreases u32::MAX - level,
{
    if level < thresholds.len() && level < u32::MAX && experience.0 >= thresholds[level as int].0 {
        level_for((level + 1) as u32, experience, thresholds)
    } else {
        level
    }
}

/// One `PlayerLevelUp` for each level above `from` up to `to`, in order.
pub open spec fn level_ups(from: u32, to: u32) -> Seq<EventModel>
    decreases to,
{
    if to <= from {
        Seq::empty()
    } else {
        level_ups(from, (to - 1) as u32).push(EventModel::PlayerLevelUp { new_level: Level(to) })
    }
}

/// One `ItemDropped` for each item, in order.
pub open spec fn loot_events(items: Seq<ItemModel>) -> Seq<EventModel> {
    Seq::new(items.len(), |i: int| EventModel::ItemDropped { item: items[i] })
}

/// The player after a victory: the items are in the inventory, the
/// experience is granted and the level follows it. Where the player rose
/// and the content says so, health and mana are restored in full.
pub open spec fn rewarded(
    player: PlayerModel,
    items: Seq<ItemModel>,
    experience: Experience,
    progression: ProgressionModel,
) -> PlayerModel {
    let total = experience_sum(player.experience, experience);
    let level = level_for(player.level.0, total, progression.level_thresholds);
    let grown = PlayerModel {
        inventory: player.inventory + items,
        experience: total,
        level: Level(level),
        ..player
    };
    if progression.restore_on_level_up && level > player.level.0 {
        PlayerModel {
            current_health: Health(cap(player_sheet(player).stats.max_health.0 as int) as i32),
            current_mana: Mana(cap(player_sheet(player).stats.max_mana.0 as int) as i32),
            ..grown
        }
    } else {
        grown
    }
}

/// The mana of the player after regeneration: the resolved regeneration is
/// added, within the bounds of mana.
pub open spec fn regenerated_mana(player: PlayerModel) -> int {
    shifted(
        player.current_mana.0 as int,
        player_sheet(player).stats.mp_regen.0 as int,
        player_sheet(player).stats.max_mana.0 as int,
    )
}

/// The player after the regeneration of mana at the end of a turn.
pub open spec fn regenerated(player: PlayerModel) -> PlayerModel {
    PlayerModel { current_mana: Mana(regenerated_mana(player) as i32), ..player }
}

/// What the regeneration of mana adds to the record: the amount by which
/// the mana changed, where it changed.
pub open spec fn regen_events(player: PlayerModel) -> Seq<EventModel> {
    if regenerated_mana(player) != player.current_mana.0 {
        seq![
            EventModel::ManaRegenerated {
                amount: Mana(clamp_i32(regenerated_mana(player) - player.current_mana.0) as i32),
            },
        ]
    } else {
        Seq::empty()
    }
}

/// The turn after the monster fell: `MonsterDefeated`, the loot with one
/// `ItemDropped` for each item, the experience and the levels, the counts
/// of defeated monsters and of waves, and no monster any more.
pub open spec fn won(s: SessionModel, scene: Scene, content: ContentModel, ids: Seq<ItemId>)
    -> TurnModel {
    let items = drops(
        draws_of(scene.monster.loot_table, ids, scene.rng),
        content,
        scene.monster.level,
    );
    let experience = reward(scene.monster.level, content.progression.experience_per_level);
    let player = settled(rewarded(scene.player, items, experience, content.progression));
    TurnModel {
        session: SessionModel {
            player: regenerated(player),
            current_monster: None,
            monster_buffs: Seq::empty(),
            defeated_count: bumped(s.defeated_count),
            wave: bumped(s.wave),
            ..s
        },
        rng: scene.rng.advanced(5 * scene.monster.loot_table.len()),
        events: scene.events.push(EventModel::MonsterDefeated { experience }) + loot_events(items)
            + level_ups(scene.player.level.0, player.level.0) + regen_events(player),
    }
}

/// The turn after the monster struck back: health and mana are brought
/// within their bounds; a player without health is defeated and the
/// session completed; otherwise mana regenerates.
pub open spec fn survived(s: SessionModel, scene: Scene) -> TurnModel {
    let player = settled(scene.player);
    let monster = steadied(scene.monster, scene.monster_buffs);
    if player.current_health.0 <= 0 {
        TurnModel {
            session: SessionModel {
                player,
                current_monster: Some(monster),
                monster_buffs: scene.monster_buffs,
                state: SessionState::Completed,
                ..s
            },
            rng: scene.rng,
            events: scene.events.push(EventModel::PlayerDefeated),
        }
    } else {
        TurnModel {
            session: SessionModel {
                player: regenerated(player),
                current_monster: Some(monster),
                monster_buffs: scene.monster_buffs,
                ..s
            },
            rng: scene.rng,
            events: scene.events + regen_events(player),
        }
    }
}

/// A turn against `monster`: the turn boundary for both ledgers and the
/// timers, the player's action, and then either the monster's fall or its
/// attack.
pub open spec fn fought(
    s: SessionModel,
    monster: MonsterModel,
    action: PlayerAction,
    content: ContentModel,
    ids: Seq<ItemId>,
    rng: Rng,
) -> TurnModel {
    let buffs = ticked(s.monster_buffs);
    let opening = Scene {
        player: settled(at_boundary(s.player)),
        monster: steadied(monster, buffs),
        monster_buffs: buffs,
        rng,
        events: Seq::empty(),
    };
    let acted = player_acts(opening, action);
    if acted.monster.current_health.0 <= 0 {
        won(s, acted, content, ids)
    } else {
        survived(s, monster_strikes(acted))
    }
}

/// One turn of a session in progress.
pub open spec fn turn(
    s: SessionModel,
    action: PlayerAction,
    content: ContentModel,
    ids: Seq<ItemId>,
    rng: Rng,
) -> TurnModel {
    match s.current_monster {
        None => TurnModel { session: encounter_begun(s, content), rng, events: Seq::empty() },
        Some(monster) => fought(
            SessionModel { current_monster: None, ..s },
            monster,
            action,
            content,
            ids,
            rng,
        ),
    }
}

/// One request for a turn: a turn where the session is in progress, no
/// change and no event where it is not.
pub open spec fn advanced(
    s: SessionModel,
    action: PlayerAction,
    content: ContentModel,
    ids: Seq<ItemId>,
    rng: Rng,
) -> TurnModel {
    if s.state == SessionState::InProgress {
        turn(s, action, content, ids, rng)
    } else {
        TurnModel { session: s, rng, events: Seq::empty() }
    }
}

/// The state after a request to pause: a session in progress is paused,
/// any other stays as it is.
pub open spec fn paused(state: SessionState) -> SessionState {
    if state == SessionState::InProgress {
        SessionState::Paused
    } else {
        state
    }
}

/// The state after a request to resume: a paused session is in progress
/// again, any other stays as it is.
pub open spec fn resumed(state: SessionState) -> SessionState {
    if state == SessionState::Paused {
        SessionState::InProgress
    } else {
        state
    }
}

/// Pauses a session in progress. The result says whether the state
/// changed; nothing but the state ever does.
pub fn pause(session: &mut Session) -> (r: bool)
    ensures
        final(session)@ == (SessionModel { state: paused(old(session).state), ..old(session)@ }),
        r == (old(session).state == SessionState::InProgress),
{
    if session.state == SessionState::InProgress {
        session.state = SessionState::Paused;
        assert(session@ =~= (SessionModel { state: SessionState::Paused, ..old(session)@ }));
        true
    } else {
        assert(session@ =~= (SessionModel { state: old(session).state, ..old(session)@ }));
        false
    }
}

/// Resumes a paused session. The result says whether the state changed;
/// nothing but the state ever does.
pub fn resume(session: &mut Session) -> (r: bool)
    ensures
        final(session)@ == (SessionModel { state: resumed(old(session).state), ..old(session)@ }),
        r == (old(session).state == SessionState::Paused),
{
    if session.state == SessionState::Paused {
        session.state = SessionState::InProgress;
        assert(session@ =~= (SessionModel { state: SessionState::InProgress, ..old(session)@ }));
        true
    } else {
        assert(session@ =~= (SessionModel { state: old(session).state, ..old(session)@ }));
        false
    }
}

/// Brings the player's health and mana within their bounds.
pub fn settle(player: &mut Player)
    ensures
        final(player)@ == settled(old(player)@),
        vitals_in_bounds(final(player)@),
{
    let sheet = sheet_of_player(player);
    player.current_health = Health(shift(player.current_health.0, 0, sheet.stats.max_health.0));
    player.current_mana = Mana(shift(player.current_mana.0, 0, sheet.stats.max_mana.0));
    assert(player@ =~= settled(old(player)@));
}

/// Passes the turn boundary for the player.
pub fn pass_boundary(player: &mut Player)
    ensures
        final(player)@ == at_boundary(old(player)@),
{
    tick(&mut player.active_buffs);
    tick_timers(&mut player.skill_cooldowns);
    tick_timers(&mut player.skill_timers);
    assert(player@ =~= at_boundary(old(player)@));
}

/// Brings the monster's health within its bounds under `buffs`.
pub fn steady(monster: &mut Monster, buffs: &Vec<Buff>)
    ensures
        final(monster)@ == steadied(old(monster)@, buffs@),
{
    let sheet = sheet_of_monster(monster, buffs);
    monster.current_health = Health(shift(monster.current_health.0, 0, sheet.stats.max_health.0));
    assert(monster@ =~= steadied(old(monster)@, buffs@));
}

/// Lets the monster of the wave enter, or completes the session where the
/// content has none for the wave.
pub fn begin_encounter(session: &mut Session, content: &Content)
    ensures
        final(session)@ == encounter_begun(old(session)@, content@),
        vitals_in_bounds(final(session)@.player),
        old(session).current_monster.is_none() ==> monster_in_bounds(final(session)@),
{
    settle(&mut session.player);
    if (session.wave as usize) < content.monsters.len() {
        let mut monster = content.monsters[session.wave as usize].clone();
        let full: i32 = if monster.stats.max_health.0 > 0 {
            monster.stats.max_health.0
        } else {
            0
        };
        monster.current_health = Health(full);
        session.current_monster = Some(monster);
        session.monster_buffs = Vec::new();
    } else {
        session.state = SessionState::Completed;
    }
    assert(session@ =~= encounter_begun(old(session)@, content@));
    proof {
        lemma_turn_ends_in_bounds(
            SessionModel { current_monster: None, ..old(session)@ },
            PlayerAction::BasicAttack,
            content@,
            Seq::empty(),
            Rng { state: 0 },
        );
    }
}

/// Carries out the player's action.
pub fn act(
    player: &mut Player,
    monster: &mut Monster,
    monster_buffs: &mut Vec<Buff>,
    action: &PlayerAction,
    rng: &mut Rng,
    events: &mut Vec<BattleEvent>,
)
    ensures
        (Scene {
            player: final(player)@,
            monster: final(monster)@,
            monster_buffs: final(monster_buffs)@,
            rng: *final(rng),
            events: event_models(final(events)@),
        }) == player_acts(
            Scene {
                player: old(player)@,
                monster: old(monster)@,
                monster_buffs: old(monster_buffs)@,
                rng: *old(rng),
                events: event_models(old(events)@),
            },
            *action,
        ),
{
    match action {
        PlayerAction::BasicAttack => {
            basic_attack(player, monster, monster_buffs, rng, events);
        },
        PlayerAction::UseSkill { skill_id, target } => {
            let tried = use_skill(
                player,
                monster,
                monster_buffs,
                skill_id,
                *target,
                TriggerEvent::TurnStart,
                rng,
            );
            match tried {
                Ok(more) => {
                    if more.len() > 0 {
                        emit_all(events, more);
                    } else {
                        assert(event_models(more@).len() == 0);
                        basic_attack(player, monster, monster_buffs, rng, events);
                    }
                },
                Err(e) => {
                    if e == Error::InsufficientMana {
                        emit(events, BattleEvent::NotEnoughMana);
                    }
                    basic_attack(player, monster, monster_buffs, rng, events);
                },
            }
        },
    }
}

/// The experience that a monster of `level` is worth.
pub fn reward_for(level: Level, per_level: Experience) -> (r: Experience)
    ensures
        r == reward(level, per_level),
{
    assert(level.0 as int * per_level.0 as int <= 0xffff_ffff * 0xffff_ffff_ffff_ffff)
        by (nonlinear_arith)
        requires
            0 <= level.0 as int <= 0xffff_ffff,
            0 <= per_level.0 as int <= 0xffff_ffff_ffff_ffff,
    ;
    let product: u128 = (level.0 as u128) * (per_level.0 as u128);
    if product > u64::MAX as u128 {
        Experience(u64::MAX)
    } else {
        Experience(product as u64)
    }
}

/// Raises the player's level as far as the experience carries, with one
/// `PlayerLevelUp` for each level.
pub fn level_up(player: &mut Player, thresholds: &Vec<Experience>, events: &mut Vec<BattleEvent>)
    ensures
        final(player)@ == (PlayerModel {
            level: Level(level_for(old(player).level.0, old(player).experience, thresholds@)),
            ..old(player)@
        }),
        event_models(final(events)@) == event_models(old(events)@) + level_ups(
            old(player).level.0,
            final(player).level.0,
        ),
        final(player).level.0 >= old(player).level.0,
{
    let ghost from = player.level.0;
    let ghost before = event_models(events@);
    let mut level: u32 = player.level.0;
    assert(before + level_ups(from, from) =~= before);
    while (level as usize) < thresholds.len() && level < u32::MAX && player.experience.0
        >= thresholds[level as usize].0
        invariant
            level >= from,
            *player == *old(player),
            level_for(level, player.experience, thresholds@) == level_for(
                from,
                player.experience,
                thresholds@,
            ),
            event_models(events@) == before + level_ups(from, level),
        decreases u32::MAX - level,
    {
        level = level + 1;
        emit(events, BattleEvent::PlayerLevelUp { new_level: Level(level) });
        assert(before + level_ups(from, level) =~= (before + level_ups(
            from,
            (level - 1) as u32,
        )).push(EventModel::PlayerLevelUp { new_level: Level(level) }));
    }
    player.level = Level(level);
    assert(player@ =~= (PlayerModel { level: Level(level), ..old(player)@ }));
}

/// Puts the items into the inventory, with one `ItemDropped` for each.
pub fn pick_up(player: &mut Player, items: Vec<Item>, events: &mut Vec<BattleEvent>)
    ensures
        final(player)@ == (PlayerModel {
            inventory: old(player)@.inventory + item_models(items@),
            ..old(player)@
        }),
        event_models(final(events)@) == event_models(old(events)@) + loot_events(
            item_models(items@),
        ),
{
    let ghost before = event_models(events@);
    let ghost all = item_models(items@);
    let mut i: usize = 0;
    assert(before + loot_events(all.take(0)) =~= before);
    while i < items.len()
        invariant
            i <= items.len(),
            all == item_models(items@),
            event_models(events@) == before + loot_events(all.take(i as int)),
        decreases items.len() - i,
    {
        let copy = items[i].clone();
        emit(events, BattleEvent::ItemDropped { item: copy });
        assert(before + loot_events(all.take(i + 1)) =~= (before + loot_events(
            all.take(i as int),
        )).push(EventModel::ItemDropped { item: all[i as int] }));
        i = i + 1;
    }
    assert(all.take(i as int) =~= all);
    let mut items = items;
    player.inventory.append(&mut items);
    assert(player@ =~= (PlayerModel { inventory: old(player)@.inventory + all, ..old(player)@ }));
}

/// Hands the player the spoils of a victory over `monster`.
pub fn collect_spoils(
    player: &mut Player,
    monster: &Monster,
    content: &Content,
    item_ids: &Vec<ItemId>,
    rng: &mut Rng,
    events: &mut Vec<BattleEvent>,
)
    ensures
        ({
            let items = drops(
                draws_of(monster@.loot_table, item_ids@, *old(rng)),
                content@,
                monster.level,
            );
            let experience = reward(monster.level, content@.progression.experience_per_level);
            let after = rewarded(old(player)@, items, experience, content@.progression);
            &&& final(player)@ == after
            &&& *final(rng) == old(rng).advanced(5 * monster.loot_table.len() as nat)
            &&& event_models(final(events)@) == event_models(old(events)@).push(
                EventModel::MonsterDefeated { experience },
            ) + loot_events(items) + level_ups(old(player).level.0, after.level.0)
        }),
{
    let sheet = sheet_of_player(player);
    let from: u32 = player.level.0;
    let experience = reward_for(monster.level, content.progression.experience_per_level);
    emit(events, BattleEvent::MonsterDefeated { experience });
    let items = roll(&monster.loot_table, content, monster.level, item_ids, rng);
    pick_up(player, items, events);
    let total: u64 = if experience.0 > u64::MAX - player.experience.0 {
        u64::MAX
    } else {
        player.experience.0 + experience.0
    };
    player.experience = Experience(total);
    level_up(player, &content.progression.level_thresholds, events);
    if content.progression.restore_on_level_up && player.level.0 > from {
        player.current_health = Health(
            if sheet.stats.max_health.0 > 0 {
                sheet.stats.max_health.0
            } else {
                0
            },
        );
        player.current_mana = Mana(
            if sheet.stats.max_mana.0 > 0 {
                sheet.stats.max_mana.0
            } else {
                0
            },
        );
    }
    proof {
        let dropped = drops(
            draws_of(monster@.loot_table, item_ids@, *old(rng)),
            content@,
            monster.level,
        );
        assert(player@ =~= rewarded(old(player)@, dropped, experience, content@.progression));
    }
}

/// Regenerates the player's mana at the end of a turn, with a
/// `ManaRegenerated` where the mana changed.
pub fn regenerate(player: &mut Player, events: &mut Vec<BattleEvent>)
    ensures
        final(player)@ == regenerated(old(player)@),
        event_models(final(events)@) == event_models(old(events)@) + regen_events(old(player)@),
        vitals_in_bounds(old(player)@) ==> vitals_in_bounds(final(player)@),
{
    let sheet = sheet_of_player(player);
    let before: i32 = player.current_mana.0;
    let after: i32 = shift(before, sheet.stats.mp_regen.0 as i64, sheet.stats.max_mana.0);
    player.current_mana = Mana(after);
    if after != before {
        let amount: i32 = narrow_i32(after as i64 - before as i64);
        emit(events, BattleEvent::ManaRegenerated { amount: Mana(amount) });
    }
    assert(player@ =~= regenerated(old(player)@));
    assert(event_models(events@) =~= event_models(old(events)@) + regen_events(old(player)@));
}

/// `count` plus one, as far as the type goes.
pub fn bump(count: u32) -> (r: u32)
    ensures
        r == bumped(count),
{
    if count < u32::MAX {
        count + 1
    } else {
        count
    }
}

/// Ends a turn in which the monster fell: the spoils, the regeneration of
/// mana, the counts, and no monster any more.
pub fn conclude_victory(
    session: &mut Session,
    monster: &Monster,
    content: &Content,
    item_ids: &Vec<ItemId>,
    rng: &mut Rng,
    events: &mut Vec<BattleEvent>,
)
    ensures
        ({
            let t = won(
                old(session)@,
                Scene {
                    player: old(session)@.player,
                    monster: monster@,
                    monster_buffs: old(session)@.monster_buffs,
                    rng: *old(rng),
                    events: event_models(old(events)@),
                },
                content@,
                item_ids@,
            );
            &&& final(session)@ == t.session
            &&& *final(rng) == t.rng
            &&& event_models(final(events)@) == t.events
            &&& vitals_in_bounds(final(session)@.player)
            &&& monster_in_bounds(final(session)@)
        }),
{
    collect_spoils(&mut session.player, monster, content, item_ids, rng, events);
    settle(&mut session.player);
    regenerate(&mut session.player, events);
    session.current_monster = None;
    session.monster_buffs = Vec::new();
    session.defeated_count = bump(session.defeated_count);
    session.wave = bump(session.wave);
    proof {
        let t = won(
            old(session)@,
            Scene {
                player: old(session)@.player,
                monster: monster@,
                monster_buffs: old(session)@.monster_buffs,
                rng: *old(rng),
                events: event_models(old(events)@),
            },
            content@,
            item_ids@,
        );
        assert(session@ =~= t.session);
        assert(event_models(events@) =~= t.events);
    }
}

/// Ends a turn in which the monster stood: its attack, then the defeat of
/// the player or the regeneration of mana.
pub fn conclude_exchange(
    session: &mut Session,
    monster: Monster,
    rng: &mut Rng,
    events: &mut Vec<BattleEvent>,
)
    ensures
        ({
            let t = survived(
                old(session)@,
                monster_strikes(
                    Scene {
                        player: old(session)@.player,
                        monster: monster@,
                        monster_buffs: old(session)@.monster_buffs,
                        rng: *old(rng),
                        events: event_models(old(events)@),
                    },
                ),
            );
            &&& final(session)@ == t.session
            &&& *final(rng) == t.rng
            &&& event_models(final(events)@) == t.events
            &&& vitals_in_bounds(final(session)@.player)
            &&& monster_in_bounds(final(session)@)
        }),
{
    let mut monster = monster;
    monster_attack(&mut session.player, &mut monster, &session.monster_buffs, rng, events);
    let ghost struck = Scene {
        player: session.player@,
        monster: monster@,
        monster_buffs: session.monster_buffs@,
        rng: *rng,
        events: event_models(events@),
    };
    settle(&mut session.player);
    if session.player.current_health.0 <= 0 {
        emit(events, BattleEvent::PlayerDefeated);
        session.state = SessionState::Completed;
    } else {
        regenerate(&mut session.player, events);
    }
    steady(&mut monster, &session.monster_buffs);
    session.current_monster = Some(monster);
    proof {
        let t = survived(old(session)@, struck);
        assert(session@ =~= t.session);
        assert(event_models(events@) =~= t.events);
    }
}

/// Opens a turn against `monster`: the turn boundary for both ledgers and
/// the timers, and health and mana within their bounds.
pub fn open_turn(session: &mut Session, monster: &mut Monster)
    ensures
        final(session)@ == (SessionModel {
            player: settled(at_boundary(old(session)@.player)),
            monster_buffs: ticked(old(session)@.monster_buffs),
            ..old(session)@
        }),
        final(monster)@ == steadied(old(monster)@, ticked(old(session)@.monster_buffs)),
{
    tick(&mut session.monster_buffs);
    pass_boundary(&mut session.player);
    settle(&mut session.player);
    steady(monster, &session.monster_buffs);
    assert(session@ =~= (SessionModel {
        player: settled(at_boundary(old(session)@.player)),
        monster_buffs: ticked(old(session)@.monster_buffs),
        ..old(session)@
    }));
}

/// Carries out a turn against `monster`, which was taken out of the
/// session for the turn.
pub fn fight(
    session: &mut Session,
    monster: Monster,
    action: &PlayerAction,
    content: &Content,
    item_ids: &Vec<ItemId>,
    rng: &mut Rng,
) -> (events: Vec<BattleEvent>)
    ensures
        ({
            let t = fought(old(session)@, monster@, *action, content@, item_ids@, *old(rng));
            &&& final(session)@ == t.session
            &&& *final(rng) == t.rng
            &&& event_models(events@) == t.events
            &&& vitals_in_bounds(final(session)@.player)
            &&& monster_in_bounds(final(session)@)
        }),
{
    let mut monster = monster;
    let mut events: Vec<BattleEvent> = Vec::new();
    assert(event_models(events@) =~= Seq::empty());
    open_turn(session, &mut monster);
    act(&mut session.player, &mut monster, &mut session.monster_buffs, action, rng, &mut events);
    if monster.current_health.0 <= 0 {
        conclude_victory(session, &monster, content, item_ids, rng, &mut events);
    } else {
        conclude_exchange(session, monster, rng, &mut events);
    }
    events
}

/// Advances the session by one turn.
///
/// A session that is not in progress is rejected with `SessionNotActive`
/// and stays as it is. Otherwise the turn is carried out in full: the
/// session, the generator and the events returned are those of [`turn`],
/// and the health and mana of the player and the health of the monster
/// end within their bounds.
pub fn advance_turn(
    session: &mut Session,
    action: &PlayerAction,
    content: &Content,
    item_ids: &Vec<ItemId>,
    rng: &mut Rng,
) -> (r: Result<Vec<BattleEvent>, Error>)
    ensures
        match r {
            Ok(events) => {
                let t = turn(old(session)@, *action, content@, item_ids@, *old(rng));
                &&& old(session).state == SessionState::InProgress
                &&& final(session)@ == t.session
                &&& *final(rng) == t.rng
                &&& event_models(events@) == t.events
                &&& vitals_in_bounds(final(session)@.player)
                &&& monster_in_bounds(final(session)@)
                &&& tables_in_order(old(session)@.player) ==> tables_in_order(
                    final(session)@.player,
                )
            },
            Err(e) => {
                &&& e == Error::SessionNotActive
                &&& old(session).state != SessionState::InProgress
                &&& *final(session) == *old(session)
                &&& *final(rng) == *old(rng)
            },
        },
{
    if session.state != SessionState::InProgress {
        return Err(Error::SessionNotActive);
    }
    proof {
        if tables_in_order(session@.player) {
            lemma_turn_keeps_tables(session@, *action, content@, item_ids@, *rng);
        }
    }
    let mut current: Option<Monster> = None;
    core::mem::swap(&mut current, &mut session.current_monster);
    match current {
        None => {
            assert(session@ =~= old(session)@);
            begin_encounter(session, content);
            let events: Vec<BattleEvent> = Vec::new();
            assert(event_models(events@) =~= Seq::empty());
            Ok(events)
        },
        Some(monster) => {
            assert(session@ =~= (SessionModel { current_monster: None, ..old(session)@ }));
            Ok(fight(session, monster, action, content, item_ids, rng))
        },
    }
}

/// What the caller hands in for one turn.
pub struct TurnInput {
    pub action: PlayerAction,
    pub item_ids: Seq<ItemId>,
}

/// What a run of requests for a turn comes to, one after the other, each
/// on the session and the generator that the one before left.
pub open spec fn played(
    s: SessionModel,
    rng: Rng,
    content: ContentModel,
    inputs: Seq<TurnInput>,
) -> TurnModel
    decreases inputs.len(),
{
    if inputs.len() == 0 {
        TurnModel { session: s, rng, events: Seq::empty() }
    } else {
        let before = played(s, rng, content, inputs.drop_last());
        let last = advanced(
            before.session,
            inputs.last().action,
            content,
            inputs.last().item_ids,
            before.rng,
        );
        TurnModel { session: last.session, rng: last.rng, events: before.events + last.events }
    }
}

/// Bringing health and mana within their bounds does so, and the
/// regeneration of mana keeps them there.
pub proof fn lemma_settled_is_in_bounds(player: PlayerModel)
    ensures
        vitals_in_bounds(settled(player)),
        vitals_in_bounds(regenerated(settled(player))),
{
}

/// After a turn the health and mana of the player and the health of the
/// monster lie within their bounds, whatever the session was before.
pub proof fn lemma_turn_ends_in_bounds(
    s: SessionModel,
    action: PlayerAction,
    content: ContentModel,
    ids: Seq<ItemId>,
    rng: Rng,
)
    ensures
        vitals_in_bounds(turn(s, action, content, ids, rng).session.player),
        monster_in_bounds(turn(s, action, content, ids, rng).session),
{
    match s.current_monster {
        None => {
            lemma_settled_is_in_bounds(s.player);
            if s.wave < content.monsters.len() {
                let template = content.monsters[s.wave as int];
                lemma_resolve_identity(
                    no_attributes(),
                    template.stats,
                    template.element_resistance,
                );
            }
        },
        Some(monster) => {
            let bare = SessionModel { current_monster: None, ..s };
            let buffs = ticked(bare.monster_buffs);
            let opening = Scene {
                player: settled(at_boundary(bare.player)),
                monster: steadied(monster, buffs),
                monster_buffs: buffs,
                rng,
                events: Seq::empty(),
            };
            let acted = player_acts(opening, action);
            if acted.monster.current_health.0 <= 0 {
                let items = drops(
                    draws_of(acted.monster.loot_table, ids, acted.rng),
                    content,
                    acted.monster.level,
                );
                let experience = reward(
                    acted.monster.level,
                    content.progression.experience_per_level,
                );
                lemma_settled_is_in_bounds(
                    rewarded(acted.player, items, experience, content.progression),
                );
            } else {
                lemma_settled_is_in_bounds(monster_strikes(acted).player);
            }
        },
    }
}

/// The player's health and mana never leave their bounds: a session in
/// which they lie within them keeps them there through any run of requests
/// for a turn, whatever the actions, the identifiers and the generator.
/// The same holds of the monster's health.
pub proof fn lemma_vitals_stay_in_bounds(
    s: SessionModel,
    rng: Rng,
    content: ContentModel,
    inputs: Seq<TurnInput>,
)
    requires
        vitals_in_bounds(s.player),
    ensures
        vitals_in_bounds(played(s, rng, content, inputs).session.player),
        monster_in_bounds(s) ==> monster_in_bounds(played(s, rng, content, inputs).session),
    decreases inputs.len(),
{
    if inputs.len() > 0 {
        lemma_vitals_stay_in_bounds(s, rng, content, inputs.drop_last());
        let before = played(s, rng, content, inputs.drop_last());
        lemma_turn_ends_in_bounds(
            before.session,
            inputs.last().action,
            content,
            inputs.last().item_ids,
            before.rng,
        );
    }
}

/// A turn keeps the player's tables of cooldowns and of turn timers in
/// order.
pub proof fn lemma_turn_keeps_tables(
    s: SessionModel,
    action: PlayerAction,
    content: ContentModel,
    ids: Seq<ItemId>,
    rng: Rng,
)
    requires
        tables_in_order(s.player),
    ensures
        tables_in_order(turn(s, action, content, ids, rng).session.player),
{
    match s.current_monster {
        None => {},
        Some(monster) => {
            lemma_aged_stays_in_order(s.player.skill_cooldowns, 1);
            lemma_aged_stays_in_order(s.player.skill_timers, 1);
            let buffs = ticked(s.monster_buffs);
            let opening = Scene {
                player: settled(at_boundary(s.player)),
                monster: steadied(monster, buffs),
                monster_buffs: buffs,
                rng,
                events: Seq::empty(),
            };
            match action {
                PlayerAction::BasicAttack => {},
                PlayerAction::UseSkill { skill_id, target } => {
                    lemma_skill_use_keeps_tables(
                        Scene { events: Seq::empty(), ..opening },
                        skill_id,
                        target,
                        TriggerEvent::TurnStart,
                    );
                },
            }
            assert(tables_in_order(player_acts(opening, action).player));
        },
    }
}

/// The player's tables of cooldowns and of turn timers stay in order
/// through any run of requests for a turn.
pub proof fn lemma_tables_stay_in_order(
    s: SessionModel,
    rng: Rng,
    content: ContentModel,
    inputs: Seq<TurnInput>,
)
    requires
        tables_in_order(s.player),
    ensures
        tables_in_order(played(s, rng, content, inputs).session.player),
    decreases inputs.len(),
{
    if inputs.len() > 0 {
        lemma_tables_stay_in_order(s, rng, content, inputs.drop_last());
        let before = played(s, rng, content, inputs.drop_last());
        if before.session.state == SessionState::InProgress {
            lemma_turn_keeps_tables(
                before.session,
                inputs.last().action,
                content,
                inputs.last().item_ids,
                before.rng,
            );
        }
    }
}

/// A completed session stays completed: neither a request for a turn nor
/// one to pause or to resume changes its state.
pub proof fn lemma_completed_is_terminal(
    s: SessionModel,
    action: PlayerAction,
    content: ContentModel,
    ids: Seq<ItemId>,
    rng: Rng,
)
    requires
        s.state == SessionState::Completed,
    ensures
        advanced(s, action, content, ids, rng).session == s,
        paused(s.state) == SessionState::Completed,
        resumed(s.state) == SessionState::Completed,
{
}

/// A session that is paused or completed is never changed by a request for
/// a turn.
pub proof fn lemma_inactive_session_is_kept(
    s: SessionModel,
    action: PlayerAction,
    content: ContentModel,
    ids: Seq<ItemId>,
    rng: Rng,
)
    requires
        s.state != SessionState::InProgress,
    ensures
        advanced(s, action, content, ids, rng).session == s,
        advanced(s, action, content, ids, rng).rng == rng,
        advanced(s, action, content, ids, rng).events.len() == 0,
{
}

} // verus!
