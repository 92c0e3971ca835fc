//! Plain values of the data model: branded numbers, attributes, elements,
//! modifiers, timed effects and skills.

use crate::ids::{ItemId, MonsterId, SkillId};
use crate::ratio::{add_i32, sat_add, Ratio, SCALE};
use vstd::prelude::*;

verus! {

/// A character or item level.
#[derive(Debug, Clone, Copy, PartialEq, Eq, Hash, Structural)]
pub struct Level(pub u32);

impl Level {
    pub fn new(value: u32) -> (r: Self)
        ensures
            r.0 == value,
    {
        Self(value)
    }

    pub fn value(&self) -> (r: u32)
        ensures
            r == self.0,
    {
        self.0
    }
}

/// An amount of health.
#[derive(Debug, Clone, Copy, PartialEq, Eq, Hash, Structural)]
pub struct Health(pub i32);

impl Health {
    pub fn new(value: i32) -> (r: Self)
        ensures
            r.0 == value,
    {
        Self(value)
    }

    pub fn value(&self) -> (r: i32)
        ensures
            r == self.0,
    {
        self.0
    }
}

/// An amount of damage.
#[derive(Debug, Clone, Copy, PartialEq, Eq, Hash, Structural)]
pub struct Damage(pub i32);

impl Damage {
    pub fn new(value: i32) -> (r: Self)
        ensures
            r.0 == value,
    {
        Self(value)
    }

    pub fn value(&self) -> (r: i32)
        ensures
            r == self.0,
    {
        self.0
    }
}

/// An amount of mana.
#[derive(Debug, Clone, Copy, PartialEq, Eq, Hash, Structural)]
pub struct Mana(pub i32);

impl Mana {
    pub fn new(value: i32) -> (r: Self)
        ensures
            r.0 == value,
    {
        Self(value)
    }

    pub fn value(&self) -> (r: i32)
        ensures
            r == self.0,
    {
        self.0
    }
}

/// An amount of gold.
#[derive(Debug, Clone, Copy, PartialEq, Eq, Hash, Structural)]
pub struct Gold(pub u64);

impl Gold {
    pub fn new(value: u64) -> (r: Self)
        ensures
            r.0 == value,
    {
        Self(value)
    }

    pub fn value(&self) -> (r: u64)
        ensures
            r == self.0,
    {
        self.0
    }
}

/// An amount of experience.
#[derive(Debug, Clone, Copy, PartialEq, Eq, Hash, Structural)]
pub struct Experience(pub u64);

impl Experience {
    pub fn new(value: u64) -> (r: Self)
        ensures
            r.0 == value,
    {
        Self(value)
    }

    pub fn value(&self) -> (r: u64)
        ensures
            r == self.0,
    {
        self.0
    }
}

/// The four attributes of a character.
#[derive(Debug, Clone, Copy, PartialEq, Eq, Structural)]
pub struct BaseStats {
    pub strength: i32,
    pub intelligence: i32,
    pub dexterity: i32,
    pub vitality: i32,
}

impl BaseStats {
    /// The attributes with each of `other`'s added, every sum limited to
    /// what an `i32` holds.
    pub open spec fn plus(self, other: BaseStats) -> BaseStats {
        BaseStats {
            strength: sat_add(self.strength as int, other.strength as int) as i32,
            intelligence: sat_add(self.intelligence as int, other.intelligence as int) as i32,
            dexterity: sat_add(self.dexterity as int, other.dexterity as int) as i32,
            vitality: sat_add(self.vitality as int, other.vitality as int) as i32,
        }
    }

    /// The attributes with each of `other`'s added, every sum limited to
    /// what an `i32` holds.
    pub fn add(&self, other: &BaseStats) -> (r: BaseStats)
        ensures
            r == self.plus(*other),
    {
        BaseStats {
            strength: add_i32(self.strength, other.strength),
            intelligence: add_i32(self.intelligence, other.intelligence),
            dexterity: add_i32(self.dexterity, other.dexterity),
            vitality: add_i32(self.vitality, other.vitality),
        }
    }
}

/// The element of an attack.
#[derive(Debug, Clone, Copy, PartialEq, Eq, Hash, Structural)]
pub enum ElementType {
    Physical,
    Arcane,
    Fire,
    Lightning,
    Holy,
}

/// The share of incoming damage that a defender shrugs off, per element.
#[derive(Debug, Clone, Copy, PartialEq, Eq, Structural)]
pub struct ElementResistance {
    pub physical: Ratio,
    pub arcane: Ratio,
    pub fire: Ratio,
    pub lightning: Ratio,
    pub holy: Ratio,
}

impl Default for ElementResistance {
    /// No resistance to any element.
    fn default() -> (r: Self)
        ensures
            r == (ElementResistance {
                physical: Ratio(0),
                arcane: Ratio(0),
                fire: Ratio(0),
                lightning: Ratio(0),
                holy: Ratio(0),
            }),
    {
        Self {
            physical: Ratio(0),
            arcane: Ratio(0),
            fire: Ratio(0),
            lightning: Ratio(0),
            holy: Ratio(0),
        }
    }
}

impl ElementResistance {
    /// The resistance to `element`.
    pub open spec fn of(self, element: ElementType) -> Ratio {
        match element {
            ElementType::Physical => self.physical,
            ElementType::Arcane => self.arcane,
            ElementType::Fire => self.fire,
            ElementType::Lightning => self.lightning,
            ElementType::Holy => self.holy,
        }
    }

    /// The resistances with `value` added to the one for `element`.
    pub open spec fn raised(self, element: ElementType, value: Ratio) -> ElementResistance {
        let sum = Ratio(sat_add(self.of(element).0 as int, value.0 as int) as i32);
        match element {
            ElementType::Physical => ElementResistance { physical: sum, ..self },
            ElementType::Arcane => ElementResistance { arcane: sum, ..self },
            ElementType::Fire => ElementResistance { fire: sum, ..self },
            ElementType::Lightning => ElementResistance { lightning: sum, ..self },
            ElementType::Holy => ElementResistance { holy: sum, ..self },
        }
    }

    /// The resistances with `value` added to every element.
    pub open spec fn raised_all(self, value: Ratio) -> ElementResistance {
        self.raised(ElementType::Physical, value).raised(ElementType::Arcane, value).raised(
            ElementType::Fire,
            value,
        ).raised(ElementType::Lightning, value).raised(ElementType::Holy, value)
    }

    /// The resistance to `element`.
    pub fn get(&self, element: ElementType) -> (r: Ratio)
        ensures
            r == self.of(element),
    {
        match element {
            ElementType::Physical => self.physical,
            ElementType::Arcane => self.arcane,
            ElementType::Fire => self.fire,
            ElementType::Lightning => self.lightning,
            ElementType::Holy => self.holy,
        }
    }

    /// Adds `value` to the resistance to `element`.
    pub fn raise(&self, element: ElementType, value: Ratio) -> (r: ElementResistance)
        ensures
            r == self.raised(element, value),
    {
        let sum = self.get(element).saturating_add(value);
        match element {
            ElementType::Physical => ElementResistance { physical: sum, ..*self },
            ElementType::Arcane => ElementResistance { arcane: sum, ..*self },
            ElementType::Fire => ElementResistance { fire: sum, ..*self },
            ElementType::Lightning => ElementResistance { lightning: sum, ..*self },
            ElementType::Holy => ElementResistance { holy: sum, ..*self },
        }
    }

    /// Adds `value` to the resistance to every element.
    pub fn raise_all(&self, value: Ratio) -> (r: ElementResistance)
        ensures
            r == self.raised_all(value),
    {
        self.raise(ElementType::Physical, value).raise(ElementType::Arcane, value).raise(
            ElementType::Fire,
            value,
        ).raise(ElementType::Lightning, value).raise(ElementType::Holy, value)
    }
}

/// The multiplier that an attacker applies to outgoing damage, per element.
#[derive(Debug, Clone, Copy, PartialEq, Eq, Structural)]
pub struct ElementModifier {
    pub physical: Ratio,
    pub arcane: Ratio,
    pub fire: Ratio,
    pub lightning: Ratio,
    pub holy: Ratio,
}

impl Default for ElementModifier {
    /// Physical damage at full strength, no damage of any other element.
    fn default() -> (r: Self)
        ensures
            r == (ElementModifier {
                physical: Ratio(SCALE),
                arcane: Ratio(0),
                fire: Ratio(0),
                lightning: Ratio(0),
                holy: Ratio(0),
            }),
    {
        Self {
            physical: Ratio(SCALE),
            arcane: Ratio(0),
            fire: Ratio(0),
            lightning: Ratio(0),
            holy: Ratio(0),
        }
    }
}

impl ElementModifier {
    /// The multiplier for `element`.
    pub open spec fn of(self, element: ElementType) -> Ratio {
        match element {
            ElementType::Physical => self.physical,
            ElementType::Arcane => self.arcane,
            ElementType::Fire => self.fire,
            ElementType::Lightning => self.lightning,
            ElementType::Holy => self.holy,
        }
    }

    /// The multipliers with `value` added to the one for `element`.
    pub open spec fn raised(self, element: ElementType, value: Ratio) -> ElementModifier {
        let sum = Ratio(sat_add(self.of(element).0 as int, value.0 as int) as i32);
        match element {
            ElementType::Physical => ElementModifier { physical: sum, ..self },
            ElementType::Arcane => ElementModifier { arcane: sum, ..self },
            ElementType::Fire => ElementModifier { fire: sum, ..self },
            ElementType::Lightning => ElementModifier { lightning: sum, ..self },
            ElementType::Holy => ElementModifier { holy: sum, ..self },
        }
    }

    /// The multiplier for `element`.
    pub fn get(&self, element: ElementType) -> (r: Ratio)
        ensures
            r == self.of(element),
    {
        match element {
            ElementType::Physical => self.physical,
            ElementType::Arcane => self.arcane,
            ElementType::Fire => self.fire,
            ElementType::Lightning => self.lightning,
            ElementType::Holy => self.holy,
        }
    }

    /// Adds `value` to the multiplier for `element`.
    pub fn raise(&self, element: ElementType, value: Ratio) -> (r: ElementModifier)
        ensures
            r == self.raised(element, value),
    {
        let sum = self.get(element).saturating_add(value);
        match element {
            ElementType::Physical => ElementModifier { physical: sum, ..*self },
            ElementType::Arcane => ElementModifier { arcane: sum, ..*self },
            ElementType::Fire => ElementModifier { fire: sum, ..*self },
            ElementType::Lightning => ElementModifier { lightning: sum, ..*self },
            ElementType::Holy => ElementModifier { holy: sum, ..*self },
        }
    }
}

/// How rare an item is.
#[derive(Debug, Clone, Copy, PartialEq, Eq, Hash, Structural)]
pub enum ItemRarity {
    Common,
    Magic,
    Rare,
    Legendary,
}

/// One effect of an item or affix on its bearer.
#[derive(Debug, Clone, Copy, PartialEq, Eq, Structural)]
pub enum ModifierType {
    IncreaseHealth(i32),
    LifeSteal(Ratio),
    CriticalChance(Ratio),
    CriticalDamage(Ratio),
    IncreaseMana(i32),
    ManaRegen(i32),
    SkillPower(Ratio),
    IncreaseStrength(i32),
    IncreaseIntelligence(i32),
    IncreaseDexterity(i32),
    IncreaseVitality(i32),
    ElementResistance { element: ElementType, value: Ratio },
    ElementModifier { element: ElementType, multiplier: Ratio },
}

/// The kind of an item.
#[derive(Debug, Clone, Copy, PartialEq, Eq, Hash, Structural)]
pub enum ItemType {
    Weapon,
    Armor,
    Accessory,
}

/// The kind of a weapon.
#[derive(Debug, Clone, Copy, PartialEq, Eq, Hash, Structural)]
pub enum WeaponType {
    Sword,
    Axe,
    Staff,
    Bow,
    Dagger,
}

/// A tag that content attaches to a base item.
#[derive(Debug, Clone, Copy, PartialEq, Eq, Hash, Structural)]
pub enum ItemTag {
    Sword,
    Axe,
    Staff,
    Bow,
    Dagger,
    Helm,
    Gloves,
    Boots,
    Belt,
    Armor,
    Ring,
    Amulet,
    Shield,
}

/// A place on the character that holds at most one item.
#[derive(Debug, Clone, Copy, PartialEq, Eq, Hash, Structural)]
pub enum EquipmentSlot {
    MainHand,
    OffHand,
    Helm,
    Armor,
    Gloves,
    Boots,
    Belt,
    Ring1,
    Ring2,
    Amulet,
}

/// The class of a player character.
#[derive(Debug, Clone, Copy, PartialEq, Eq, Hash, Structural)]
pub enum PlayerClass {
    Warrior,
    Mage,
    Rogue,
    Paladin,
}

/// How much of each attribute a weapon adds to a basic attack.
#[derive(Debug, Clone, Copy, PartialEq, Eq, Structural)]
pub struct WeaponScaling {
    pub strength: Ratio,
    pub intelligence: Ratio,
    pub dexterity: Ratio,
}

/// The resolved combat numbers of a character.
#[derive(Debug, Clone, Copy, PartialEq, Eq, Structural)]
pub struct CharacterStats {
    pub max_health: Health,
    pub max_mana: Mana,
    pub base_damage: Damage,
    pub critical_chance: Ratio,
    pub critical_damage: Ratio,
    pub life_steal: Ratio,
    pub mp_regen: Mana,
    pub element_modifier: ElementModifier,
}

/// What a timed effect changes while it lasts.
#[derive(Debug, Clone, Copy, PartialEq, Eq, Structural)]
pub enum BuffType {
    IncreaseStats(BaseStats),
    IncreaseHealth(Health),
    IncreaseMana(Mana),
    IncreaseDamage(Ratio),
    IncreaseDefense(Ratio),
    IncreaseCritical(Ratio),
    IncreaseLifeSteal(Ratio),
    ElementResistance { element: ElementType, value: Ratio },
}

/// A timed effect on a character.
#[derive(Debug, PartialEq, Eq)]
pub struct Buff {
    pub id: String,
    pub name: String,
    pub buff_type: BuffType,
    pub duration: i32,
    pub remaining_turns: i32,
}

impl Clone for Buff {
    fn clone(&self) -> (r: Self)
        ensures
            r == *self,
    {
        Buff {
            id: self.id.clone(),
            name: self.name.clone(),
            buff_type: self.buff_type,
            duration: self.duration,
            remaining_turns: self.remaining_turns,
        }
    }
}

/// Whom a skill is aimed at.
#[derive(Debug, Clone, Copy, PartialEq, Eq, Hash, Structural)]
pub enum SkillTarget {
    SelfTarget,
    Enemy,
    AllEnemies,
}

/// How a skill comes into play.
#[derive(Debug, Clone, Copy, PartialEq, Eq, Hash, Structural)]
pub enum SkillType {
    Active,
    Passive,
    Aura,
}

/// One effect of a skill.
#[derive(Debug, Clone, Copy, PartialEq, Eq)]
pub enum SkillEffect {
    Damage { base_damage: Damage, scaling: Ratio, element: ElementType },
    Heal { base_heal: Health, scaling: Ratio },
    Buff { buff_type: BuffType, duration: i32 },
    Debuff { debuff_type: BuffType, duration: i32 },
    Summon { monster_id: MonsterId, duration: i32 },
}

/// A condition under which a skill may fire.
#[derive(Debug, Clone, Copy, PartialEq, Eq, Structural)]
pub enum SkillTriggerCondition {
    Always,
    OnCritical,
    OnKill,
    OnLowHealth(Ratio),
    OnHighHealth(Ratio),
    EveryNTurns(i32),
    OnBattleStart,
    OnBattleEnd,
}

/// What is happening when a skill is tried.
#[derive(Debug, Clone, Copy, PartialEq, Eq, Hash, Structural)]
pub enum TriggerEvent {
    TurnStart,
    Critical,
    Kill,
    BattleStart,
    BattleEnd,
}

/// The template of a skill. The effects apply in the order in which they
/// are declared; any one of the trigger conditions lets the skill fire.
#[derive(Debug, PartialEq, Eq)]
pub struct Skill {
    pub id: SkillId,
    pub name: String,
    pub description: String,
    pub skill_type: SkillType,
    pub mana_cost: Mana,
    pub cooldown: i32,
    pub target_type: SkillTarget,
    pub effects: Vec<SkillEffect>,
    pub trigger_conditions: Vec<SkillTriggerCondition>,
    pub required_level: Level,
    pub weapon_type: Option<WeaponType>,
}

/// What a [`Skill`] holds.
#[verifier::ext_equal]
pub struct SkillModel {
    pub id: SkillId,
    pub name: String,
    pub description: String,
    pub skill_type: SkillType,
    pub mana_cost: Mana,
    pub cooldown: i32,
    pub target_type: SkillTarget,
    pub effects: Seq<SkillEffect>,
    pub trigger_conditions: Seq<SkillTriggerCondition>,
    pub required_level: Level,
    pub weapon_type: Option<WeaponType>,
}

impl View for Skill {
    type V = SkillModel;

    open spec fn view(&self) -> SkillModel {
        SkillModel {
            id: self.id,
            name: self.name,
            description: self.description,
            skill_type: self.skill_type,
            mana_cost: self.mana_cost,
            cooldown: self.cooldown,
            target_type: self.target_type,
            effects: self.effects@,
            trigger_conditions: self.trigger_conditions@,
            required_level: self.required_level,
            weapon_type: self.weapon_type,
        }
    }
}

impl Clone for Skill {
    fn clone(&self) -> (r: Self)
        ensures
            r@ == self@,
    {
        let effects = self.effects.clone();
        let trigger_conditions = self.trigger_conditions.clone();
        assert(effects@ =~= self.effects@);
        assert(trigger_conditions@ =~= self.trigger_conditions@);
        Skill {
            id: self.id,
            name: self.name.clone(),
            description: self.description.clone(),
            skill_type: self.skill_type,
            mana_cost: self.mana_cost,
            cooldown: self.cooldown,
            target_type: self.target_type,
            effects,
            trigger_conditions,
            required_level: self.required_level,
            weapon_type: self.weapon_type,
        }
    }
}

/// What a sequence of skills holds.
pub open spec fn skill_models(skills: Seq<Skill>) -> Seq<SkillModel> {
    Seq::new(skills.len(), |i: int| skills[i]@)
}

/// The turns that are left for one skill, on a cooldown or on a trigger
/// timer.
#[derive(Debug, Clone, Copy, PartialEq, Eq)]
pub struct SkillTimer {
    pub skill: SkillId,
    pub turns: i32,
}

/// The standing of a monster.
#[derive(Debug, Clone, Copy, PartialEq, Eq, Hash, Structural)]
pub enum MonsterTier {
    Common,
    Elite,
    Rare,
    Boss,
    Legendary,
}

/// The relative weights with which a drop takes each rarity.
#[derive(Debug, Clone, Copy, PartialEq, Eq, Structural)]
pub struct RarityWeights {
    pub common: Ratio,
    pub magic: Ratio,
    pub rare: Ratio,
    pub legendary: Ratio,
}

/// One line of a loot table.
#[derive(Debug, Clone, Copy, PartialEq, Eq)]
pub struct LootEntry {
    pub base_item_id: ItemId,
    pub drop_chance: Ratio,
    pub rarity_weights: RarityWeights,
}

/// The state of a session.
#[derive(Debug, Clone, Copy, PartialEq, Eq, Hash, Structural)]
pub enum SessionState {
    InProgress,
    Paused,
    Completed,
}

/// What the player chooses to do in a turn.
#[derive(Debug, Clone, Copy, PartialEq, Eq)]
pub enum PlayerAction {
    BasicAttack,
    UseSkill { skill_id: SkillId, target: SkillTarget },
}

} // verus!
