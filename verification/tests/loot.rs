use combat_engine::content::{find_base_item, AffixPools, Content, Progression};
use combat_engine::loot::{
    draw_rolls, make_item, pick_index, pick_prefix, pick_rarity, pick_suffix, roll, roll_entry,
    EntryRolls, ROLLS_PER_ENTRY,
};
use combat_engine::ratio::Ratio;
use combat_engine::rng::Rng;
use combat_engine::types::{
    BaseItem, Experience, Item, ItemId, ItemPrefix, ItemRarity, ItemSuffix, ItemTag, ItemType,
    Level, LootEntry, ModifierType, PlayerClass, RarityWeights, WeaponScaling, WeaponType,
};
use uuid::Uuid;

fn item_id(n: u128) -> ItemId {
    ItemId::new(Uuid::from_u128(n))
}

fn base_item(n: u128, name: &str) -> BaseItem {
    BaseItem {
        id: item_id(n),
        name: String::from(name),
        item_type: ItemType::Weapon,
        tags: vec![ItemTag::Sword],
        required_level: Level::new(2),
        required_class: Some(vec![PlayerClass::Warrior, PlayerClass::Paladin]),
        base_modifiers: vec![ModifierType::IncreaseStrength(2)],
        weapon_type: Some(WeaponType::Sword),
        weapon_unique_skills: vec![],
        weapon_scaling: Some(WeaponScaling {
            strength: Ratio::new(8_000),
            intelligence: Ratio::zero(),
            dexterity: Ratio::new(2_000),
        }),
    }
}

fn prefix(name: &str) -> ItemPrefix {
    ItemPrefix { name: String::from(name), modifiers: vec![ModifierType::IncreaseHealth(10)] }
}

fn suffix(name: &str) -> ItemSuffix {
    ItemSuffix { name: String::from(name), modifiers: vec![ModifierType::IncreaseMana(10)] }
}

fn catalog() -> Content {
    Content {
        base_items: vec![base_item(1, "Blade"), base_item(2, "Cleaver"), base_item(3, "Wand")],
        affixes: AffixPools {
            prefixes: vec![prefix("Sturdy"), prefix("Keen"), prefix("Heavy"), prefix("Swift")],
            suffixes: vec![suffix("of the Owl"), suffix("of the Bear")],
            legendary_prefixes: vec![prefix("Ancient")],
            legendary_suffixes: vec![suffix("of Kings")],
        },
        monsters: vec![],
        progression: Progression {
            experience_per_level: Experience::new(10),
            level_thresholds: vec![],
            restore_on_level_up: false,
        },
    }
}

fn weights(common: i32, magic: i32, rare: i32, legendary: i32) -> RarityWeights {
    RarityWeights {
        common: Ratio::new(common),
        magic: Ratio::new(magic),
        rare: Ratio::new(rare),
        legendary: Ratio::new(legendary),
    }
}

fn entry(base: u128, chance: i32, w: RarityWeights) -> LootEntry {
    LootEntry { base_item_id: item_id(base), drop_chance: Ratio::new(chance), rarity_weights: w }
}

fn rolls(drop: u32, rarity: u32, side: u32, prefix: u32, suffix: u32) -> EntryRolls {
    EntryRolls { drop, rarity, side, prefix, suffix }
}

fn ids(n: usize) -> Vec<ItemId> {
    (0..n).map(|i| item_id(1_000 + i as u128)).collect()
}

#[test]
fn sure_common_entry_always_yields_one_common_item_without_affixes() {
    let content = catalog();
    let table = vec![entry(2, 10_000, weights(1, 0, 0, 0))];
    for seed in 0..300u64 {
        let mut rng = Rng::new(seed);
        let items = roll(&table, &content, Level::new(7), &ids(1), &mut rng);
        assert_eq!(items.len(), 1);
        assert_eq!(items[0].rarity, ItemRarity::Common);
        assert!(items[0].prefix.is_none());
        assert!(items[0].suffix.is_none());
        assert_eq!(items[0].id, item_id(1_000));
        assert_eq!(items[0].base_item, base_item(2, "Cleaver"));
        assert_eq!(items[0].level, Level::new(7));
    }
}

#[test]
fn empty_table_yields_nothing() {
    let mut rng = Rng::new(5);
    let items = roll(&vec![], &catalog(), Level::new(1), &ids(3), &mut rng);
    assert!(items.is_empty());
    assert_eq!(rng, Rng::new(5));
}

#[test]
fn table_without_chance_yields_nothing() {
    let table = vec![
        entry(1, 0, weights(1, 1, 1, 1)),
        entry(2, -500, weights(1, 0, 0, 0)),
        entry(3, 0, weights(0, 0, 0, 1)),
    ];
    for seed in 0..100u64 {
        let mut rng = Rng::new(seed);
        assert!(roll(&table, &catalog(), Level::new(1), &ids(3), &mut rng).is_empty());
    }
}

#[test]
fn every_entry_takes_five_rolls() {
    assert_eq!(ROLLS_PER_ENTRY, 5);
    let table = vec![
        entry(1, 10_000, weights(0, 0, 1, 0)),
        entry(2, 0, weights(1, 0, 0, 0)),
        entry(9, 10_000, weights(1, 0, 0, 0)),
        entry(3, 5_000, weights(1, 1, 1, 1)),
    ];
    let mut used = Rng::new(31);
    let mut twin = Rng::new(31);
    roll(&table, &catalog(), Level::new(1), &ids(4), &mut used);
    for _ in 0..20 {
        twin.next_roll();
    }
    assert_eq!(used, twin);
}

#[test]
fn table_roll_is_entry_rolls_in_order() {
    let content = catalog();
    let table = vec![
        entry(1, 6_000, weights(1, 1, 1, 1)),
        entry(2, 6_000, weights(1, 2, 3, 4)),
        entry(3, 6_000, weights(4, 3, 2, 1)),
    ];
    for seed in 0..200u64 {
        let mut rng = Rng::new(seed);
        let got = roll(&table, &content, Level::new(3), &ids(3), &mut rng);
        let mut twin = Rng::new(seed);
        let mut expected: Vec<Item> = vec![];
        for (i, e) in table.iter().enumerate() {
            let r = draw_rolls(&mut twin);
            if let Some(item) = roll_entry(e, Some(ids(3)[i]), &content, Level::new(3), &r) {
                expected.push(item);
            }
        }
        assert_eq!(got, expected);
    }
}

#[test]
fn removing_an_entry_leaves_the_outcome_of_the_others() {
    let content = catalog();
    let table = vec![
        entry(1, 7_000, weights(1, 1, 1, 1)),
        entry(2, 7_000, weights(1, 2, 3, 4)),
        entry(3, 7_000, weights(4, 3, 2, 1)),
    ];
    let given = ids(3);
    for seed in 0..200u64 {
        let mut rng = Rng::new(seed);
        let drawn: Vec<EntryRolls> = (0..3).map(|_| draw_rolls(&mut rng)).collect();
        let outcome = |keep: &[usize]| -> Vec<Item> {
            keep.iter()
                .filter_map(|&i| {
                    roll_entry(&table[i], Some(given[i]), &content, Level::new(4), &drawn[i])
                })
                .collect()
        };
        let all = outcome(&[0, 1, 2]);
        for removed in 0..3usize {
            let keep: Vec<usize> = (0..3).filter(|&i| i != removed).collect();
            let rest = outcome(&keep);
            let expected: Vec<Item> = all
                .iter()
                .filter(|item| item.id != given[removed])
                .cloned()
                .collect();
            assert_eq!(rest, expected);
        }
    }
}

#[test]
fn drop_roll_must_lie_below_the_chance() {
    let content = catalog();
    let e = entry(1, 2_500, weights(1, 0, 0, 0));
    let yes = roll_entry(&e, Some(item_id(50)), &content, Level::new(1), &rolls(2_499, 0, 0, 0, 0));
    let no = roll_entry(&e, Some(item_id(50)), &content, Level::new(1), &rolls(2_500, 0, 0, 0, 0));
    assert!(yes.is_some());
    assert!(no.is_none());
    let over = entry(1, 25_000, weights(1, 0, 0, 0));
    assert!(roll_entry(&over, Some(item_id(50)), &content, Level::new(1), &rolls(9_999, 0, 0, 0, 0))
        .is_some());
}

#[test]
fn entry_without_identifier_or_base_item_yields_nothing() {
    let content = catalog();
    let e = entry(1, 10_000, weights(1, 0, 0, 0));
    assert!(roll_entry(&e, None, &content, Level::new(1), &rolls(0, 0, 0, 0, 0)).is_none());
    let unknown = entry(77, 10_000, weights(1, 0, 0, 0));
    assert!(roll_entry(&unknown, Some(item_id(50)), &content, Level::new(1), &rolls(0, 0, 0, 0, 0))
        .is_none());
    let mut rng = Rng::new(9);
    let table = vec![e, e, e];
    let items = roll(&table, &content, Level::new(1), &ids(2), &mut rng);
    assert_eq!(items.len(), 2);
    assert_eq!(items[0].id, item_id(1_000));
    assert_eq!(items[1].id, item_id(1_001));
}

#[test]
fn entry_without_weights_yields_nothing() {
    let content = catalog();
    let e = entry(1, 10_000, weights(0, 0, 0, 0));
    assert!(roll_entry(&e, Some(item_id(50)), &content, Level::new(1), &rolls(0, 0, 0, 0, 0))
        .is_none());
    let negative = entry(1, 10_000, weights(-5, -1, 0, -9));
    assert!(roll_entry(&negative, Some(item_id(50)), &content, Level::new(1), &rolls(0, 0, 0, 0, 0))
        .is_none());
    assert_eq!(pick_rarity(&weights(0, 0, 0, 0), 1_234), None);
}

#[test]
fn weights_are_relative() {
    let even = weights(1, 1, 1, 1);
    assert_eq!(pick_rarity(&even, 0), Some(ItemRarity::Common));
    assert_eq!(pick_rarity(&even, 2_499), Some(ItemRarity::Common));
    assert_eq!(pick_rarity(&even, 2_500), Some(ItemRarity::Magic));
    assert_eq!(pick_rarity(&even, 4_999), Some(ItemRarity::Magic));
    assert_eq!(pick_rarity(&even, 5_000), Some(ItemRarity::Rare));
    assert_eq!(pick_rarity(&even, 7_500), Some(ItemRarity::Legendary));
    assert_eq!(pick_rarity(&even, 9_999), Some(ItemRarity::Legendary));
    let scaled = weights(7_000, 7_000, 7_000, 7_000);
    for roll in [0u32, 2_499, 2_500, 4_999, 5_000, 7_499, 7_500, 9_999] {
        assert_eq!(pick_rarity(&scaled, roll), pick_rarity(&even, roll));
    }
    let skewed = weights(6, 3, 1, 0);
    assert_eq!(pick_rarity(&skewed, 5_999), Some(ItemRarity::Common));
    assert_eq!(pick_rarity(&skewed, 6_000), Some(ItemRarity::Magic));
    assert_eq!(pick_rarity(&skewed, 8_999), Some(ItemRarity::Magic));
    assert_eq!(pick_rarity(&skewed, 9_000), Some(ItemRarity::Rare));
    assert_eq!(pick_rarity(&skewed, 9_999), Some(ItemRarity::Rare));
}

#[test]
fn rarity_without_weight_is_never_selected() {
    let cases = [
        (weights(0, 1, 0, 1), [false, true, false, true]),
        (weights(1, 0, 0, 0), [true, false, false, false]),
        (weights(0, 0, 0, 5), [false, false, false, true]),
        (weights(-4, 2, 3, 0), [false, true, true, false]),
        (weights(i32::MAX, 0, i32::MAX, 0), [true, false, true, false]),
    ];
    for (w, allowed) in cases {
        let mut seen = [false; 4];
        for roll in 0..10_000u32 {
            let at = match pick_rarity(&w, roll).unwrap() {
                ItemRarity::Common => 0,
                ItemRarity::Magic => 1,
                ItemRarity::Rare => 2,
                ItemRarity::Legendary => 3,
            };
            assert!(allowed[at]);
            seen[at] = true;
        }
        assert_eq!(seen, allowed);
    }
}

#[test]
fn roll_selects_position_in_pool() {
    assert_eq!(pick_index(4, 0), 0);
    assert_eq!(pick_index(4, 2_499), 0);
    assert_eq!(pick_index(4, 2_500), 1);
    assert_eq!(pick_index(4, 9_999), 3);
    assert_eq!(pick_index(1, 9_999), 0);
    assert_eq!(pick_index(usize::MAX, 9_999), (usize::MAX as u128 * 9_999 / 10_000) as usize);
    let pools = catalog().affixes;
    assert_eq!(pick_prefix(&pools.prefixes, 5_000), Some(prefix("Heavy")));
    assert_eq!(pick_suffix(&pools.suffixes, 4_999), Some(suffix("of the Owl")));
    assert_eq!(pick_suffix(&pools.suffixes, 5_000), Some(suffix("of the Bear")));
    assert_eq!(pick_prefix(&vec![], 5_000), None);
    assert_eq!(pick_suffix(&vec![], 0), None);
}

#[test]
fn rarity_decides_the_affixes() {
    let content = catalog();
    let base = base_item(1, "Blade");
    let level = Level::new(9);
    let r = rolls(0, 0, 4_999, 2_500, 5_000);
    let common = make_item(&base, item_id(5), ItemRarity::Common, &content.affixes, level, &r);
    assert_eq!((common.prefix, common.suffix), (None, None));
    let magic = make_item(&base, item_id(5), ItemRarity::Magic, &content.affixes, level, &r);
    assert_eq!((magic.prefix, magic.suffix), (Some(prefix("Keen")), None));
    let other = rolls(0, 0, 5_000, 2_500, 5_000);
    let magic = make_item(&base, item_id(5), ItemRarity::Magic, &content.affixes, level, &other);
    assert_eq!((magic.prefix, magic.suffix), (None, Some(suffix("of the Bear"))));
    let rare = make_item(&base, item_id(5), ItemRarity::Rare, &content.affixes, level, &r);
    assert_eq!((rare.prefix, rare.suffix), (Some(prefix("Keen")), Some(suffix("of the Bear"))));
    let legendary =
        make_item(&base, item_id(5), ItemRarity::Legendary, &content.affixes, level, &r);
    assert_eq!(
        (legendary.prefix, legendary.suffix),
        (Some(prefix("Ancient")), Some(suffix("of Kings")))
    );
    assert_eq!(legendary.rarity, ItemRarity::Legendary);
    assert_eq!(legendary.level, level);
    assert_eq!(legendary.id, item_id(5));
    assert_eq!(legendary.base_item, base);
}

#[test]
fn empty_pools_give_no_affix() {
    let mut content = catalog();
    content.affixes = AffixPools {
        prefixes: vec![],
        suffixes: vec![],
        legendary_prefixes: vec![],
        legendary_suffixes: vec![],
    };
    let e = entry(1, 10_000, weights(0, 0, 1, 0));
    let item = roll_entry(&e, Some(item_id(50)), &content, Level::new(1), &rolls(0, 0, 0, 0, 0))
        .unwrap();
    assert_eq!(item.rarity, ItemRarity::Rare);
    assert!(item.prefix.is_none() && item.suffix.is_none());
}

#[test]
fn first_base_item_with_the_identifier_is_found() {
    let mut content = catalog();
    content.base_items.push(base_item(2, "Second Cleaver"));
    assert_eq!(find_base_item(&content.base_items, &item_id(1)), 0);
    assert_eq!(find_base_item(&content.base_items, &item_id(2)), 1);
    assert_eq!(find_base_item(&content.base_items, &item_id(3)), 2);
    assert_eq!(find_base_item(&content.base_items, &item_id(4)), 4);
    assert_eq!(find_base_item(&vec![], &item_id(1)), 0);
}

#[test]
fn drawn_rolls_are_the_next_five() {
    let mut used = Rng::new(314);
    let mut twin = Rng::new(314);
    let r = draw_rolls(&mut used);
    let expected = rolls(
        twin.next_roll(),
        twin.next_roll(),
        twin.next_roll(),
        twin.next_roll(),
        twin.next_roll(),
    );
    assert_eq!(r, expected);
    assert_eq!(used, twin);
}

#[test]
fn roll_beyond_the_scale_counts_as_the_highest_roll() {
    let even = weights(1, 1, 1, 0);
    assert_eq!(pick_rarity(&even, 10_000), pick_rarity(&even, 9_999));
    assert_eq!(pick_rarity(&even, u32::MAX), Some(ItemRarity::Rare));
    assert_eq!(pick_index(4, 10_000), 3);
    assert_eq!(pick_index(4, u32::MAX), 3);
    assert_eq!(pick_index(0, 5), 0);
    let content = catalog();
    let sure = entry(1, 10_000, weights(1, 0, 0, 0));
    let item = roll_entry(
        &sure,
        Some(item_id(50)),
        &content,
        Level::new(1),
        &rolls(u32::MAX, u32::MAX, u32::MAX, u32::MAX, u32::MAX),
    );
    assert_eq!(item.unwrap().rarity, ItemRarity::Common);
    let magic = make_item(
        &base_item(1, "Blade"),
        item_id(5),
        ItemRarity::Magic,
        &content.affixes,
        Level::new(1),
        &rolls(0, 0, 70_000, 0, 70_000),
    );
    assert_eq!((magic.prefix, magic.suffix), (None, Some(suffix("of the Bear"))));
}
