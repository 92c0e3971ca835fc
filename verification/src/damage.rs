//! The damage calculator: raw damage, the critical roll, the elemental
//! adjustment, rounding, and the life stolen.
//!
//! Raw damage is carried in basis points of one point of damage, so that a
//! result is rounded once, at the end.

use crate::ratio::{bound_roll, bounded_roll, clamp, round_div, Ratio, SCALE};
use crate::rng::Rng;
use crate::types::values::{
    BaseStats, CharacterStats, Damage, ElementResistance, ElementType, Health, WeaponScaling,
};
use vstd::arithmetic::div_mod::{lemma_div_is_ordered, lemma_div_multiples_vanish_quotient};
use vstd::prelude::*;

verus! {

/// `SCALE` to the fourth power: the unit of damage after the three
/// multiplications of a hit.
pub const HIT_UNIT: i128 = 10_000_000_000_000_000;

/// What a hit does.
#[derive(Debug, Clone, Copy, PartialEq, Eq, Structural)]
pub struct DamageOutcome {
    /// The damage dealt, never negative.
    pub damage: Damage,
    /// Whether the critical roll succeeded.
    pub is_critical: bool,
    /// The health that the attacker's life steal takes from the hit. The
    /// calculator reports it; applying it is the caller's part.
    pub life_steal: Health,
}

/// Raw damage in basis points: `base_power` plus `scaling_stat` times
/// `scaling_factor`.
pub open spec fn raw_damage(base_power: int, scaling_stat: int, scaling_factor: Ratio) -> int {
    base_power * SCALE as int + scaling_stat * scaling_factor.0 as int
}

/// Raw damage of a basic attack in basis points: `base_power` plus each
/// attribute times the weapon's factor for it, limited to what an `i64`
/// holds. Without a weapon scaling it is `base_power` alone.
pub open spec fn weapon_raw_damage(
    base_power: int,
    attributes: BaseStats,
    scaling: Option<WeaponScaling>,
) -> int {
    match scaling {
        Some(s) => clamp(
            base_power * SCALE as int + attributes.strength as int * s.strength.0 as int
                + attributes.intelligence as int * s.intelligence.0 as int
                + attributes.dexterity as int * s.dexterity.0 as int,
            i64::MIN as int,
            i64::MAX as int,
        ),
        None => base_power * SCALE as int,
    }
}

/// Whether `roll` is a critical hit for a chance of `critical_chance`: the
/// chance is limited to the range from nothing to one whole, and the roll
/// must lie below it.
pub open spec fn is_critical(critical_chance: Ratio, roll: int) -> bool {
    bounded_roll(roll) < critical_chance.unit()
}

/// The factor of the critical roll in basis points: one whole plus
/// `critical_damage` on a critical hit, one whole otherwise.
pub open spec fn critical_factor(critical_damage: Ratio, critical: bool) -> int {
    if critical {
        SCALE as int + critical_damage.0 as int
    } else {
        SCALE as int
    }
}

/// The damage of a hit: `raw` times the critical factor, times the
/// attacker's multiplier for the element, times what the defender's
/// resistance lets through, rounded to the nearest integer, never negative
/// and never more than an `i32` holds. The resistance counts as limited to
/// the range from nothing to one whole.
pub open spec fn final_damage(raw: int, critical_factor: int, modifier: Ratio, resistance: Ratio)
    -> int {
    clamp(
        round_div(
            raw * critical_factor * modifier.0 as int * (SCALE as int - resistance.unit()),
            HIT_UNIT as int,
        ),
        0,
        i32::MAX as int,
    )
}

/// The health that `life_steal` takes from `damage`, rounded to the nearest
/// integer, never negative and never more than an `i32` holds.
pub open spec fn life_steal_amount(damage: int, life_steal: Ratio) -> int {
    clamp(round_div(damage * life_steal.0 as int, SCALE as int), 0, i32::MAX as int)
}

/// What a hit with raw damage `raw` does when the critical roll is `roll`.
pub open spec fn outcome(
    attacker: CharacterStats,
    element: ElementType,
    raw: int,
    resistance: ElementResistance,
    roll: int,
) -> DamageOutcome {
    let critical = is_critical(attacker.critical_chance, roll);
    let damage = final_damage(
        raw,
        critical_factor(attacker.critical_damage, critical),
        attacker.element_modifier.of(element),
        resistance.of(element),
    );
    DamageOutcome {
        damage: Damage(damage as i32),
        is_critical: critical,
        life_steal: Health(life_steal_amount(damage, attacker.life_steal) as i32),
    }
}

/// Raw damage in basis points of a hit that scales with one stat.
pub fn scaled_raw(base_power: Damage, scaling_stat: i32, scaling_factor: Ratio) -> (r: i64)
    ensures
        r == raw_damage(base_power.0 as int, scaling_stat as int, scaling_factor),
{
    let base: i64 = (base_power.0 as i64) * 10_000;
    let scaled: i64 = crate::ratio::mul_i32(scaling_stat, scaling_factor.0);
    base + scaled
}

/// Raw damage in basis points of a basic attack.
pub fn weapon_raw(base_power: Damage, attributes: &BaseStats, scaling: &Option<WeaponScaling>)
    -> (r: i64)
    ensures
        r == weapon_raw_damage(base_power.0 as int, *attributes, *scaling),
{
    let base: i64 = (base_power.0 as i64) * 10_000;
    match scaling {
        Some(s) => {
            let by_strength: i64 = crate::ratio::mul_i32(attributes.strength, s.strength.0);
            let by_intelligence: i64 = crate::ratio::mul_i32(
                attributes.intelligence,
                s.intelligence.0,
            );
            let by_dexterity: i64 = crate::ratio::mul_i32(attributes.dexterity, s.dexterity.0);
            let sum: i128 = base as i128 + by_strength as i128 + by_intelligence as i128
                + by_dexterity as i128;
            if sum < i64::MIN as i128 {
                i64::MIN
            } else if sum > i64::MAX as i128 {
                i64::MAX
            } else {
                sum as i64
            }
        },
        None => base,
    }
}

/// The damage of a hit, from raw damage in basis points.
pub fn hit_damage(
    raw: i64,
    critical: bool,
    critical_damage: Ratio,
    modifier: Ratio,
    resistance: Ratio,
) -> (r: i32)
    ensures
        r == final_damage(
            raw as int,
            critical_factor(critical_damage, critical),
            modifier,
            resistance,
        ),
        r >= 0,
{
    let critical_factor: i64 = if critical {
        10_000 + critical_damage.0 as i64
    } else {
        10_000
    };
    let through: i128 = (SCALE - resistance.clamp_unit()) as i128;
    let ghost product = raw as int * critical_factor as int;
    assert(-0x8000_0000_0000_0000_0000_0000 <= product <= 0x8000_0000_0000_0000_0000_0000)
        by (nonlinear_arith)
        requires
            product == raw as int * critical_factor as int,
            -0x8000_0000_0000_0000 <= raw as int <= 0x8000_0000_0000_0000,
            -0x1_0000_0000 <= critical_factor as int <= 0x1_0000_0000,
    ;
    let amplified: i128 = (raw as i128) * (critical_factor as i128);
    assert(-0x4000_0000_0000_0000_0000_0000_0000_0000 <= amplified as int * modifier.0 as int
        <= 0x4000_0000_0000_0000_0000_0000_0000_0000) by (nonlinear_arith)
        requires
            -0x8000_0000_0000_0000_0000_0000 <= amplified as int
                <= 0x8000_0000_0000_0000_0000_0000,
            -0x8000_0000 <= modifier.0 as int <= 0x8000_0000,
    ;
    let adjusted: i128 = amplified * (modifier.0 as i128);
    let ghost exact = adjusted as int * through as int;
    assert(raw as int * critical_factor as int * modifier.0 as int * (SCALE as int
        - resistance.unit()) == exact);
    if adjusted <= 0 || through == 0 {
        assert(exact <= 0) by (nonlinear_arith)
            requires
                exact == adjusted as int * through as int,
                adjusted as int <= 0 || through as int == 0,
                through as int >= 0,
        ;
        assert(round_div(exact, HIT_UNIT as int) <= 0) by {
            if exact < 0 {
                assert((-exact + HIT_UNIT as int / 2) / (HIT_UNIT as int) >= 0);
            }
        }
        0
    } else if adjusted >= 21_474_836_480_000_000_000_000_000 {
        assert(exact >= 21_474_836_480_000_000_000_000_000) by (nonlinear_arith)
            requires
                exact == adjusted as int * through as int,
                adjusted as int >= 21_474_836_480_000_000_000_000_000,
                through as int >= 1,
        ;
        assert(round_div(exact, HIT_UNIT as int) >= 2_147_483_648) by {
            lemma_div_is_ordered(
                21_474_836_480_000_000_000_000_000,
                exact + HIT_UNIT as int / 2,
                HIT_UNIT as int,
            );
            assert(21_474_836_480_000_000_000_000_000int / 10_000_000_000_000_000
                == 2_147_483_648);
        }
        i32::MAX
    } else {
        assert(0 < exact <= 214_748_364_800_000_000_000_000_000_000) by (nonlinear_arith)
            requires
                exact == adjusted as int * through as int,
                0 < adjusted as int,
                (adjusted as int) < 21_474_836_480_000_000_000_000_000,
                1 <= through as int <= 10_000,
        ;
        let scaled: u128 = (adjusted * through) as u128;
        let rounded: u128 = (scaled + 5_000_000_000_000_000) / 10_000_000_000_000_000;
        if rounded > 2_147_483_647 {
            i32::MAX
        } else {
            rounded as i32
        }
    }
}

/// The health that `life_steal` takes from `damage`.
pub fn stolen_life(damage: i32, life_steal: Ratio) -> (r: i32)
    ensures
        r == life_steal_amount(damage as int, life_steal),
        r >= 0,
{
    let product: i64 = crate::ratio::mul_i32(damage, life_steal.0);
    if product <= 0 {
        assert(round_div(product as int, SCALE as int) <= 0) by {
            if product < 0 {
                assert((-(product as int) + SCALE as int / 2) / (SCALE as int) >= 0);
            }
        }
        0
    } else {
        let rounded: i64 = crate::ratio::round_div_i64(product, SCALE as i64);
        if rounded > i32::MAX as i64 {
            i32::MAX
        } else {
            rounded as i32
        }
    }
}

/// What a hit does when the critical roll is `roll`.
pub fn resolve_hit(
    attacker: &CharacterStats,
    element: ElementType,
    raw: i64,
    resistance: &ElementResistance,
    roll: u32,
) -> (r: DamageOutcome)
    ensures
        r == outcome(*attacker, element, raw as int, *resistance, roll as int),
        r.damage.0 >= 0,
        r.life_steal.0 >= 0,
{
    let critical = (bound_roll(roll) as i64) < (attacker.critical_chance.clamp_unit() as i64);
    let damage: i32 = hit_damage(
        raw,
        critical,
        attacker.critical_damage,
        attacker.element_modifier.get(element),
        resistance.get(element),
    );
    DamageOutcome {
        damage: Damage(damage),
        is_critical: critical,
        life_steal: Health(stolen_life(damage, attacker.life_steal)),
    }
}

/// Computes a hit from raw damage in basis points, drawing the critical
/// roll from `rng`. Exactly one roll is drawn.
pub fn compute_raw(
    attacker: &CharacterStats,
    element: ElementType,
    raw: i64,
    resistance: &ElementResistance,
    rng: &mut Rng,
) -> (r: DamageOutcome)
    ensures
        r == outcome(*attacker, element, raw as int, *resistance, old(rng).roll()),
        *final(rng) == old(rng).advanced(1),
        r.damage.0 >= 0,
        r.life_steal.0 >= 0,
{
    let roll: u32 = rng.next_roll();
    resolve_hit(attacker, element, raw, resistance, roll)
}

/// Computes a hit of `base_power` plus `scaling_stat` times
/// `scaling_factor`, drawing the critical roll from `rng`. Exactly one roll
/// is drawn.
pub fn compute(
    attacker: &CharacterStats,
    element: ElementType,
    base_power: Damage,
    scaling_stat: i32,
    scaling_factor: Ratio,
    resistance: &ElementResistance,
    rng: &mut Rng,
) -> (r: DamageOutcome)
    ensures
        r == outcome(
            *attacker,
            element,
            raw_damage(base_power.0 as int, scaling_stat as int, scaling_factor),
            *resistance,
            old(rng).roll(),
        ),
        *final(rng) == old(rng).advanced(1),
        r.damage.0 >= 0,
        r.life_steal.0 >= 0,
{
    let raw: i64 = scaled_raw(base_power, scaling_stat, scaling_factor);
    compute_raw(attacker, element, raw, resistance, rng)
}

/// Damage is never negative, and more resistance never means more damage:
/// of two resistances, the one that is larger once both are limited to the
/// range from nothing to one whole lets through no more than the other.
pub proof fn lemma_resistance_never_raises_damage(
    raw: int,
    critical_factor: int,
    modifier: Ratio,
    weaker: Ratio,
    stronger: Ratio,
)
    requires
        weaker.unit() <= stronger.unit(),
    ensures
        0 <= final_damage(raw, critical_factor, modifier, stronger) <= final_damage(
            raw,
            critical_factor,
            modifier,
            weaker,
        ),
{
    let amplified = raw * critical_factor * modifier.0 as int;
    let low = amplified * (SCALE as int - stronger.unit());
    let high = amplified * (SCALE as int - weaker.unit());
    let unit = HIT_UNIT as int;
    if amplified <= 0 {
        assert(low <= 0 && high <= 0) by (nonlinear_arith)
            requires
                amplified <= 0,
                low == amplified * (SCALE as int - stronger.unit()),
                high == amplified * (SCALE as int - weaker.unit()),
                SCALE as int - stronger.unit() >= 0,
                SCALE as int - weaker.unit() >= 0,
        ;
        lemma_round_div_sign(low, unit);
        lemma_round_div_sign(high, unit);
    } else {
        assert(0 <= low <= high) by (nonlinear_arith)
            requires
                amplified > 0,
                low == amplified * (SCALE as int - stronger.unit()),
                high == amplified * (SCALE as int - weaker.unit()),
                0 <= SCALE as int - stronger.unit() <= SCALE as int - weaker.unit(),
        ;
        lemma_div_is_ordered(low + unit / 2, high + unit / 2, unit);
    }
}

/// With the resistance limited to the range from nothing to one whole, a
/// hit deals no more than it deals against no resistance at all, that is
/// no more than raw damage times the critical factor times the elemental
/// modifier.
pub proof fn lemma_damage_bounded_by_unresisted(
    raw: int,
    critical_factor: int,
    modifier: Ratio,
    resistance: Ratio,
)
    ensures
        0 <= final_damage(raw, critical_factor, modifier, resistance) <= final_damage(
            raw,
            critical_factor,
            modifier,
            Ratio(0),
        ),
{
    lemma_resistance_never_raises_damage(raw, critical_factor, modifier, Ratio(0), resistance);
}

/// Against no resistance a hit deals raw damage times the critical factor
/// times the elemental modifier, brought from basis points to points,
/// rounded to the nearest integer, never negative and never more than an
/// `i32` holds.
pub proof fn lemma_unresisted_damage(raw: int, critical_factor: int, modifier: Ratio)
    ensures
        final_damage(raw, critical_factor, modifier, Ratio(0)) == clamp(
            round_div(raw * critical_factor * modifier.0 as int, 1_000_000_000_000),
            0,
            i32::MAX as int,
        ),
{
    let amplified = raw * critical_factor * modifier.0 as int;
    let exact = amplified * 10_000;
    assert(raw * critical_factor * modifier.0 as int * (SCALE as int - Ratio(0).unit()) == exact);
    if amplified >= 0 {
        lemma_div_multiples_vanish_quotient(
            10_000,
            amplified + 500_000_000_000,
            1_000_000_000_000,
        );
        assert(10_000 * (amplified + 500_000_000_000) == exact + HIT_UNIT as int / 2);
        assert(10_000 * 1_000_000_000_000 == HIT_UNIT as int);
    } else {
        lemma_round_div_sign(exact, HIT_UNIT as int);
        lemma_round_div_sign(amplified, 1_000_000_000_000);
    }
}

/// A resistance of one whole or more lets no damage through.
pub proof fn lemma_full_resistance_blocks(
    raw: int,
    critical_factor: int,
    modifier: Ratio,
    resistance: Ratio,
)
    requires
        resistance.0 >= SCALE,
    ensures
        final_damage(raw, critical_factor, modifier, resistance) == 0,
{
    assert(raw * critical_factor * modifier.0 as int * 0 == 0);
}

/// Rounding keeps the sign: what is not positive does not round to a
/// positive number, and what is not negative does not round to a negative
/// one.
pub proof fn lemma_round_div_sign(x: int, d: int)
    requires
        d > 0,
    ensures
        x <= 0 ==> round_div(x, d) <= 0,
        x >= 0 ==> round_div(x, d) >= 0,
{
    if x < 0 {
        lemma_div_is_ordered(0, -x + d / 2, d);
    } else {
        lemma_div_is_ordered(0, x + d / 2, d);
        if x == 0 {
            assert((d / 2) / d == 0) by (nonlinear_arith)
                requires
                    d > 0,
            ;
        }
    }
}

} // verus!
