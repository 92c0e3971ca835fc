//! The stat aggregator: base stats, then the modifiers of every worn item
//! slot by slot, then every active buff in the order of activation.
//!
//! Every modifier adds to one number. Rates add as rates: three modifiers
//! of five percent make fifteen percent. Each sum is limited to what the
//! number's type holds.

use crate::ratio::{add_i32, portion, portion_of, sat_add, Ratio};
use crate::types::items::{Equipment, EquipmentModel, Item, ItemModel};
use crate::types::values::{
    BaseStats, Buff, BuffType, CharacterStats, Damage, ElementResistance, EquipmentSlot, Health,
    Mana, ModifierType,
};
use vstd::prelude::*;

verus! {

/// Everything that the aggregator resolves for one character.
#[derive(Debug, Clone, Copy, PartialEq, Eq, Structural)]
pub struct StatSheet {
    pub stats: CharacterStats,
    pub attributes: BaseStats,
    pub resistance: ElementResistance,
    pub skill_power: Ratio,
}

/// The sum of two rates, limited to what a rate holds.
pub open spec fn rate_sum(a: Ratio, b: Ratio) -> Ratio {
    Ratio(sat_add(a.0 as int, b.0 as int) as i32)
}

/// The sheet before any modifier: the base numbers and no skill power.
pub open spec fn base_sheet(
    attributes: BaseStats,
    stats: CharacterStats,
    resistance: ElementResistance,
) -> StatSheet {
    StatSheet { stats, attributes, resistance, skill_power: Ratio(0) }
}

/// The sheet with one modifier applied.
pub open spec fn with_modifier(sheet: StatSheet, modifier: ModifierType) -> StatSheet {
    let stats = sheet.stats;
    let attributes = sheet.attributes;
    match modifier {
        ModifierType::IncreaseHealth(v) => StatSheet {
            stats: CharacterStats {
                max_health: Health(sat_add(stats.max_health.0 as int, v as int) as i32),
                ..stats
            },
            ..sheet
        },
        ModifierType::LifeSteal(r) => StatSheet {
            stats: CharacterStats { life_steal: rate_sum(stats.life_steal, r), ..stats },
            ..sheet
        },
        ModifierType::CriticalChance(r) => StatSheet {
            stats: CharacterStats { critical_chance: rate_sum(stats.critical_chance, r), ..stats },
            ..sheet
        },
        ModifierType::CriticalDamage(r) => StatSheet {
            stats: CharacterStats { critical_damage: rate_sum(stats.critical_damage, r), ..stats },
            ..sheet
        },
        ModifierType::IncreaseMana(v) => StatSheet {
            stats: CharacterStats {
                max_mana: Mana(sat_add(stats.max_mana.0 as int, v as int) as i32),
                ..stats
            },
            ..sheet
        },
        ModifierType::ManaRegen(v) => StatSheet {
            stats: CharacterStats {
                mp_regen: Mana(sat_add(stats.mp_regen.0 as int, v as int) as i32),
                ..stats
            },
            ..sheet
        },
        ModifierType::SkillPower(r) => StatSheet {
            skill_power: rate_sum(sheet.skill_power, r),
            ..sheet
        },
        ModifierType::IncreaseStrength(v) => StatSheet {
            attributes: BaseStats {
                strength: sat_add(attributes.strength as int, v as int) as i32,
                ..attributes
            },
            ..sheet
        },
        ModifierType::IncreaseIntelligence(v) => StatSheet {
            attributes: BaseStats {
                intelligence: sat_add(attributes.intelligence as int, v as int) as i32,
                ..attributes
            },
            ..sheet
        },
        ModifierType::IncreaseDexterity(v) => StatSheet {
            attributes: BaseStats {
                dexterity: sat_add(attributes.dexterity as int, v as int) as i32,
                ..attributes
            },
            ..sheet
        },
        ModifierType::IncreaseVitality(v) => StatSheet {
            attributes: BaseStats {
                vitality: sat_add(attributes.vitality as int, v as int) as i32,
                ..attributes
            },
            ..sheet
        },
        ModifierType::ElementResistance { element, value } => StatSheet {
            resistance: sheet.resistance.raised(element, value),
            ..sheet
        },
        ModifierType::ElementModifier { element, multiplier } => StatSheet {
            stats: CharacterStats {
                element_modifier: stats.element_modifier.raised(element, multiplier),
                ..stats
            },
            ..sheet
        },
    }
}

/// The sheet with the modifiers applied from first to last.
pub open spec fn with_modifiers(sheet: StatSheet, modifiers: Seq<ModifierType>) -> StatSheet
    decreases modifiers.len(),
{
    if modifiers.len() == 0 {
        sheet
    } else {
        with_modifier(with_modifiers(sheet, modifiers.drop_last()), modifiers.last())
    }
}

/// The sheet with one buff applied. A damage buff adds its share of
/// `base_damage`, the character's damage before any modifier; a defence
/// buff adds to the resistance to every element.
pub open spec fn with_buff(sheet: StatSheet, base_damage: Damage, buff: BuffType) -> StatSheet {
    let stats = sheet.stats;
    match buff {
        BuffType::IncreaseStats(by) => StatSheet {
            attributes: sheet.attributes.plus(by),
            ..sheet
        },
        BuffType::IncreaseHealth(v) => StatSheet {
            stats: CharacterStats {
                max_health: Health(sat_add(stats.max_health.0 as int, v.0 as int) as i32),
                ..stats
            },
            ..sheet
        },
        BuffType::IncreaseMana(v) => StatSheet {
            stats: CharacterStats {
                max_mana: Mana(sat_add(stats.max_mana.0 as int, v.0 as int) as i32),
                ..stats
            },
            ..sheet
        },
        BuffType::IncreaseDamage(r) => StatSheet {
            stats: CharacterStats {
                base_damage: Damage(
                    sat_add(
                        stats.base_damage.0 as int,
                        portion(base_damage.0 as int, r.0 as int),
                    ) as i32,
                ),
                ..stats
            },
            ..sheet
        },
        BuffType::IncreaseDefense(r) => StatSheet {
            resistance: sheet.resistance.raised_all(r),
            ..sheet
        },
        BuffType::IncreaseCritical(r) => StatSheet {
            stats: CharacterStats { critical_chance: rate_sum(stats.critical_chance, r), ..stats },
            ..sheet
        },
        BuffType::IncreaseLifeSteal(r) => StatSheet {
            stats: CharacterStats { life_steal: rate_sum(stats.life_steal, r), ..stats },
            ..sheet
        },
        BuffType::ElementResistance { element, value } => StatSheet {
            resistance: sheet.resistance.raised(element, value),
            ..sheet
        },
    }
}

/// The sheet with the buffs applied from first to last.
pub open spec fn with_buffs(sheet: StatSheet, base_damage: Damage, buffs: Seq<Buff>) -> StatSheet
    decreases buffs.len(),
{
    if buffs.len() == 0 {
        sheet
    } else {
        with_buff(with_buffs(sheet, base_damage, buffs.drop_last()), base_damage, buffs.last().buff_type)
    }
}

/// The resolved sheet of a character: the base numbers, then the equipment's
/// modifiers, then the buffs.
pub open spec fn resolved_sheet(
    attributes: BaseStats,
    stats: CharacterStats,
    resistance: ElementResistance,
    equipment: EquipmentModel,
    buffs: Seq<Buff>,
) -> StatSheet {
    with_buffs(
        with_modifiers(base_sheet(attributes, stats, resistance), equipment.modifiers()),
        stats.base_damage,
        buffs,
    )
}

/// No resistance to any element.
pub open spec fn no_resistance() -> ElementResistance {
    ElementResistance {
        physical: Ratio(0),
        arcane: Ratio(0),
        fire: Ratio(0),
        lightning: Ratio(0),
        holy: Ratio(0),
    }
}

/// The resolved stats of a character.
pub open spec fn resolved(
    attributes: BaseStats,
    stats: CharacterStats,
    equipment: EquipmentModel,
    buffs: Seq<Buff>,
) -> CharacterStats {
    resolved_sheet(attributes, stats, no_resistance(), equipment, buffs).stats
}

/// The modifiers of an optional item.
pub open spec fn modifiers_of(item: Option<ItemModel>) -> Seq<ModifierType> {
    match item {
        Some(item) => item.modifiers(),
        None => Seq::empty(),
    }
}

/// Applies one modifier.
pub fn apply_modifier(sheet: StatSheet, modifier: ModifierType) -> (r: StatSheet)
    ensures
        r == with_modifier(sheet, modifier),
{
    let mut out = sheet;
    match modifier {
        ModifierType::IncreaseHealth(v) => {
            out.stats.max_health = Health(add_i32(sheet.stats.max_health.0, v));
        },
        ModifierType::LifeSteal(r) => {
            out.stats.life_steal = sheet.stats.life_steal.saturating_add(r);
        },
        ModifierType::CriticalChance(r) => {
            out.stats.critical_chance = sheet.stats.critical_chance.saturating_add(r);
        },
        ModifierType::CriticalDamage(r) => {
            out.stats.critical_damage = sheet.stats.critical_damage.saturating_add(r);
        },
        ModifierType::IncreaseMana(v) => {
            out.stats.max_mana = Mana(add_i32(sheet.stats.max_mana.0, v));
        },
        ModifierType::ManaRegen(v) => {
            out.stats.mp_regen = Mana(add_i32(sheet.stats.mp_regen.0, v));
        },
        ModifierType::SkillPower(r) => {
            out.skill_power = sheet.skill_power.saturating_add(r);
        },
        ModifierType::IncreaseStrength(v) => {
            out.attributes.strength = add_i32(sheet.attributes.strength, v);
        },
        ModifierType::IncreaseIntelligence(v) => {
            out.attributes.intelligence = add_i32(sheet.attributes.intelligence, v);
        },
        ModifierType::IncreaseDexterity(v) => {
            out.attributes.dexterity = add_i32(sheet.attributes.dexterity, v);
        },
        ModifierType::IncreaseVitality(v) => {
            out.attributes.vitality = add_i32(sheet.attributes.vitality, v);
        },
        ModifierType::ElementResistance { element, value } => {
            out.resistance = sheet.resistance.raise(element, value);
        },
        ModifierType::ElementModifier { element, multiplier } => {
            out.stats.element_modifier = sheet.stats.element_modifier.raise(element, multiplier);
        },
    }
    out
}

/// Applies the modifiers from first to last.
pub fn apply_modifiers(sheet: StatSheet, modifiers: &Vec<ModifierType>) -> (r: StatSheet)
    ensures
        r == with_modifiers(sheet, modifiers@),
{
    let mut out = sheet;
    let mut i: usize = 0;
    assert(modifiers@.take(0) =~= Seq::empty());
    while i < modifiers.len()
        invariant
            i <= modifiers.len(),
            out == with_modifiers(sheet, modifiers@.take(i as int)),
        decreases modifiers.len() - i,
    {
        proof {
            assert(modifiers@.take(i + 1).drop_last() =~= modifiers@.take(i as int));
            assert(modifiers@.take(i + 1).last() == modifiers@[i as int]);
        }
        out = apply_modifier(out, modifiers[i]);
        i = i + 1;
    }
    assert(modifiers@.take(i as int) =~= modifiers@);
    out
}

/// Applies the modifiers of what a slot holds: the base item's, then the
/// prefix's, then the suffix's.
pub fn apply_item(sheet: StatSheet, item: &Option<Item>) -> (r: StatSheet)
    ensures
        r == with_modifiers(sheet, modifiers_of(crate::types::items::slot_model(*item))),
{
    match item {
        Some(worn) => {
            let ghost base = worn@.base_item.base_modifiers;
            let after_base = apply_modifiers(sheet, &worn.base_item.base_modifiers);
            let after_prefix = match &worn.prefix {
                Some(prefix) => apply_modifiers(after_base, &prefix.modifiers),
                None => after_base,
            };
            let after_suffix = match &worn.suffix {
                Some(suffix) => apply_modifiers(after_prefix, &suffix.modifiers),
                None => after_prefix,
            };
            proof {
                let prefix_part = match worn@.prefix {
                    Some(prefix) => prefix.modifiers,
                    None => Seq::empty(),
                };
                let suffix_part = match worn@.suffix {
                    Some(suffix) => suffix.modifiers,
                    None => Seq::empty(),
                };
                assert(after_prefix == with_modifiers(after_base, prefix_part));
                assert(after_suffix == with_modifiers(after_prefix, suffix_part));
                lemma_with_modifiers_concat(sheet, base, prefix_part);
                lemma_with_modifiers_concat(sheet, base + prefix_part, suffix_part);
            }
            after_suffix
        },
        None => sheet,
    }
}

/// Applies one buff.
pub fn apply_buff(sheet: StatSheet, base_damage: Damage, buff: BuffType) -> (r: StatSheet)
    ensures
        r == with_buff(sheet, base_damage, buff),
{
    let mut out = sheet;
    match buff {
        BuffType::IncreaseStats(by) => {
            out.attributes = sheet.attributes.add(&by);
        },
        BuffType::IncreaseHealth(v) => {
            out.stats.max_health = Health(add_i32(sheet.stats.max_health.0, v.0));
        },
        BuffType::IncreaseMana(v) => {
            out.stats.max_mana = Mana(add_i32(sheet.stats.max_mana.0, v.0));
        },
        BuffType::IncreaseDamage(r) => {
            out.stats.base_damage = Damage(
                add_i32(sheet.stats.base_damage.0, portion_of(base_damage.0, r)),
            );
        },
        BuffType::IncreaseDefense(r) => {
            out.resistance = sheet.resistance.raise_all(r);
        },
        BuffType::IncreaseCritical(r) => {
            out.stats.critical_chance = sheet.stats.critical_chance.saturating_add(r);
        },
        BuffType::IncreaseLifeSteal(r) => {
            out.stats.life_steal = sheet.stats.life_steal.saturating_add(r);
        },
        BuffType::ElementResistance { element, value } => {
            out.resistance = sheet.resistance.raise(element, value);
        },
    }
    out
}

/// Applies the buffs from first to last.
pub fn apply_buffs(sheet: StatSheet, base_damage: Damage, buffs: &Vec<Buff>) -> (r: StatSheet)
    ensures
        r == with_buffs(sheet, base_damage, buffs@),
{
    let mut out = sheet;
    let mut i: usize = 0;
    assert(buffs@.take(0) =~= Seq::empty());
    while i < buffs.len()
        invariant
            i <= buffs.len(),
            out == with_buffs(sheet, base_damage, buffs@.take(i as int)),
        decreases buffs.len() - i,
    {
        proof {
            assert(buffs@.take(i + 1).drop_last() =~= buffs@.take(i as int));
            assert(buffs@.take(i + 1).last() == buffs@[i as int]);
        }
        out = apply_buff(out, base_damage, buffs[i].buff_type);
        i = i + 1;
    }
    assert(buffs@.take(i as int) =~= buffs@);
    out
}

/// Resolves the whole sheet of a character for the current turn.
pub fn resolve_sheet(
    base_attributes: &BaseStats,
    base_stats: &CharacterStats,
    base_resistance: &ElementResistance,
    equipment: &Equipment,
    active_buffs: &Vec<Buff>,
) -> (r: StatSheet)
    ensures
        r == resolved_sheet(
            *base_attributes,
            *base_stats,
            *base_resistance,
            equipment@,
            active_buffs@,
        ),
{
    let start = StatSheet {
        stats: *base_stats,
        attributes: *base_attributes,
        resistance: *base_resistance,
        skill_power: Ratio(0),
    };
    let ghost worn = equipment@;
    let s1 = apply_item(start, &equipment.main_hand);
    let s2 = apply_item(s1, &equipment.off_hand);
    let s3 = apply_item(s2, &equipment.helm);
    let s4 = apply_item(s3, &equipment.armor);
    let s5 = apply_item(s4, &equipment.gloves);
    let s6 = apply_item(s5, &equipment.boots);
    let s7 = apply_item(s6, &equipment.belt);
    let s8 = apply_item(s7, &equipment.ring1);
    let s9 = apply_item(s8, &equipment.ring2);
    let s10 = apply_item(s9, &equipment.amulet);
    proof {
        let m1 = worn.slot_modifiers(EquipmentSlot::MainHand);
        let m2 = m1 + worn.slot_modifiers(EquipmentSlot::OffHand);
        let m3 = m2 + worn.slot_modifiers(EquipmentSlot::Helm);
        let m4 = m3 + worn.slot_modifiers(EquipmentSlot::Armor);
        let m5 = m4 + worn.slot_modifiers(EquipmentSlot::Gloves);
        let m6 = m5 + worn.slot_modifiers(EquipmentSlot::Boots);
        let m7 = m6 + worn.slot_modifiers(EquipmentSlot::Belt);
        let m8 = m7 + worn.slot_modifiers(EquipmentSlot::Ring1);
        let m9 = m8 + worn.slot_modifiers(EquipmentSlot::Ring2);
        lemma_with_modifiers_concat(start, m1, worn.slot_modifiers(EquipmentSlot::OffHand));
        lemma_with_modifiers_concat(start, m2, worn.slot_modifiers(EquipmentSlot::Helm));
        lemma_with_modifiers_concat(start, m3, worn.slot_modifiers(EquipmentSlot::Armor));
        lemma_with_modifiers_concat(start, m4, worn.slot_modifiers(EquipmentSlot::Gloves));
        lemma_with_modifiers_concat(start, m5, worn.slot_modifiers(EquipmentSlot::Boots));
        lemma_with_modifiers_concat(start, m6, worn.slot_modifiers(EquipmentSlot::Belt));
        lemma_with_modifiers_concat(start, m7, worn.slot_modifiers(EquipmentSlot::Ring1));
        lemma_with_modifiers_concat(start, m8, worn.slot_modifiers(EquipmentSlot::Ring2));
        lemma_with_modifiers_concat(start, m9, worn.slot_modifiers(EquipmentSlot::Amulet));
    }
    apply_buffs(s10, base_stats.base_damage, active_buffs)
}

/// Resolves the stats of a character for the current turn. Nothing is
/// changed; without equipment and buffs the result is `base_stats`.
pub fn resolve(
    base_attributes: &BaseStats,
    base_stats: &CharacterStats,
    equipment: &Equipment,
    active_buffs: &Vec<Buff>,
) -> (r: CharacterStats)
    ensures
        r == resolved(*base_attributes, *base_stats, equipment@, active_buffs@),
{
    let none = ElementResistance::default();
    resolve_sheet(base_attributes, base_stats, &none, equipment, active_buffs).stats
}

/// Applying two runs of modifiers one after the other is applying them put
/// together.
pub proof fn lemma_with_modifiers_concat(
    sheet: StatSheet,
    a: Seq<ModifierType>,
    b: Seq<ModifierType>,
)
    ensures
        with_modifiers(with_modifiers(sheet, a), b) == with_modifiers(sheet, a + b),
    decreases b.len(),
{
    if b.len() == 0 {
        assert(a + b =~= a);
    } else {
        lemma_with_modifiers_concat(sheet, a, b.drop_last());
        assert((a + b).drop_last() =~= a + b.drop_last());
        assert((a + b).last() == b.last());
    }
}

/// Without equipment and without buffs the resolved sheet is the base
/// sheet, and the resolved stats are the base stats.
pub proof fn lemma_resolve_identity(
    attributes: BaseStats,
    stats: CharacterStats,
    resistance: ElementResistance,
)
    ensures
        resolved_sheet(attributes, stats, resistance, EquipmentModel::empty(), Seq::empty())
            == base_sheet(attributes, stats, resistance),
        resolved(attributes, stats, EquipmentModel::empty(), Seq::empty()) == stats,
{
    assert(EquipmentModel::empty().modifiers() =~= Seq::empty());
}

/// Rates add up: three critical-chance modifiers of the same rate raise the
/// chance by three times the rate, as long as the sum fits the type.
pub proof fn lemma_rates_add(sheet: StatSheet, rate: Ratio)
    requires
        i32::MIN <= sheet.stats.critical_chance.0 + 3 * rate.0 <= i32::MAX,
        i32::MIN <= sheet.stats.critical_chance.0 + rate.0 <= i32::MAX,
        i32::MIN <= sheet.stats.critical_chance.0 + 2 * rate.0 <= i32::MAX,
    ensures
        with_modifiers(
            sheet,
            seq![
                ModifierType::CriticalChance(rate),
                ModifierType::CriticalChance(rate),
                ModifierType::CriticalChance(rate),
            ],
        ).stats.critical_chance.0 == sheet.stats.critical_chance.0 + 3 * rate.0,
{
    let m = ModifierType::CriticalChance(rate);
    let three = seq![m, m, m];
    let two = seq![m, m];
    let one = seq![m];
    assert(three.drop_last() =~= two);
    assert(two.drop_last() =~= one);
    assert(one.drop_last() =~= Seq::<ModifierType>::empty());
    assert(with_modifiers(sheet, one.drop_last()) == sheet);
    assert(one.last() == m && two.last() == m && three.last() == m);
    assert(with_modifiers(sheet, one) == with_modifier(sheet, m));
    assert(with_modifiers(sheet, two) == with_modifier(with_modifiers(sheet, one), m));
    assert(with_modifiers(sheet, three) == with_modifier(with_modifiers(sheet, two), m));
}

} // verus!
