//! The loot generator: for every entry of a loot table, on its own, the
//! drop roll, the rarity and the affixes.
//!
//! Every entry takes five rolls, whether it drops or not, so that what an
//! entry yields depends on nothing but the entry, its identifier and its
//! own rolls.

use crate::content::{
    base_item_position, find_base_item, prefix_models, suffix_models, AffixPools, AffixPoolsModel,
    Content, ContentModel,
};
use crate::ids::ItemId;
use crate::ratio::{bound_roll, bounded_roll, Ratio, SCALE};
use crate::rng::{lemma_advanced_sum, Rng};
use crate::types::items::{
    item_models, AffixModel, BaseItem, BaseItemModel, Item, ItemModel, ItemPrefix, ItemSuffix,
};
use crate::types::values::{ItemRarity, Level, LootEntry, RarityWeights};
use vstd::prelude::*;

verus! {

/// The number of rolls that every entry of a loot table takes.
pub const ROLLS_PER_ENTRY: usize = 5;

/// The rolls of one entry.
#[derive(Debug, Clone, Copy, PartialEq, Eq, Structural)]
pub struct EntryRolls {
    /// Against the entry's drop chance.
    pub drop: u32,
    /// Among the rarities, by their weights.
    pub rarity: u32,
    /// For a magic item: the lower half picks a prefix, the upper a suffix.
    pub side: u32,
    /// Among the prefixes of the pool.
    pub prefix: u32,
    /// Among the suffixes of the pool.
    pub suffix: u32,
}

/// One entry with the identifier that its item would get, if one was
/// supplied, and its rolls.
pub struct Draw {
    pub entry: LootEntry,
    pub id: Option<ItemId>,
    pub rolls: EntryRolls,
}

/// A weight as it counts: a negative one counts as none.
pub open spec fn weight(w: Ratio) -> int {
    if w.0 > 0 {
        w.0 as int
    } else {
        0
    }
}

/// The sum of the four weights as they count.
pub open spec fn total_weight(w: RarityWeights) -> int {
    weight(w.common) + weight(w.magic) + weight(w.rare) + weight(w.legendary)
}

/// The rarity that `roll` selects. The weights are relative: each rarity
/// takes the share of the rolls that its weight has in the sum. Without any
/// weight no rarity is selected.
pub open spec fn rarity_for(w: RarityWeights, roll: int) -> Option<ItemRarity> {
    let point = bounded_roll(roll) * total_weight(w) / SCALE as int;
    if total_weight(w) == 0 {
        None
    } else if point < weight(w.common) {
        Some(ItemRarity::Common)
    } else if point < weight(w.common) + weight(w.magic) {
        Some(ItemRarity::Magic)
    } else if point < weight(w.common) + weight(w.magic) + weight(w.rare) {
        Some(ItemRarity::Rare)
    } else {
        Some(ItemRarity::Legendary)
    }
}

/// The position that `roll` selects among `len` choices.
pub open spec fn pick(len: int, roll: int) -> int {
    bounded_roll(roll) * len / SCALE as int
}

/// The affix that `roll` selects from `pool`, none from an empty pool.
pub open spec fn affix_for(pool: Seq<AffixModel>, roll: int) -> Option<AffixModel> {
    if pool.len() == 0 {
        None
    } else {
        Some(pool[pick(pool.len() as int, roll)])
    }
}

/// The item that an entry drops. A common item has no affix; a magic item
/// has a prefix or a suffix; a rare item has both; a legendary item has
/// both, from the legendary pools.
pub open spec fn rolled_item(
    base: BaseItemModel,
    id: ItemId,
    rarity: ItemRarity,
    affixes: AffixPoolsModel,
    level: Level,
    rolls: EntryRolls,
) -> ItemModel {
    let (prefix, suffix) = match rarity {
        ItemRarity::Common => (None, None),
        ItemRarity::Magic => if bounded_roll(rolls.side as int) < SCALE / 2 {
            (affix_for(affixes.prefixes, rolls.prefix as int), None)
        } else {
            (None, affix_for(affixes.suffixes, rolls.suffix as int))
        },
        ItemRarity::Rare => (
            affix_for(affixes.prefixes, rolls.prefix as int),
            affix_for(affixes.suffixes, rolls.suffix as int),
        ),
        ItemRarity::Legendary => (
            affix_for(affixes.legendary_prefixes, rolls.prefix as int),
            affix_for(affixes.legendary_suffixes, rolls.suffix as int),
        ),
    };
    ItemModel { id, base_item: base, rarity, prefix, suffix, level }
}

/// What one entry yields: an item where the drop roll lies below the drop
/// chance (limited to the range from nothing to one whole), an identifier
/// was supplied, the catalog holds the base item and a rarity is selected;
/// nothing otherwise.
pub open spec fn entry_drop(draw: Draw, content: ContentModel, level: Level) -> Option<ItemModel> {
    let at = base_item_position(content.base_items, draw.entry.base_item_id);
    if bounded_roll(draw.rolls.drop as int) < draw.entry.drop_chance.unit() && draw.id.is_some()
        && at
        < content.base_items.len() {
        match rarity_for(draw.entry.rarity_weights, draw.rolls.rarity as int) {
            Some(rarity) => Some(
                rolled_item(
                    content.base_items[at],
                    draw.id.unwrap(),
                    rarity,
                    content.affixes,
                    level,
                    draw.rolls,
                ),
            ),
            None => None,
        }
    } else {
        None
    }
}

/// What a run of entries yields, entry by entry in order.
pub open spec fn drops(draws: Seq<Draw>, content: ContentModel, level: Level) -> Seq<ItemModel>
    decreases draws.len(),
{
    if draws.len() == 0 {
        Seq::empty()
    } else {
        let rest = drops(draws.drop_last(), content, level);
        match entry_drop(draws.last(), content, level) {
            Some(item) => rest.push(item),
            None => rest,
        }
    }
}

/// The rolls that entry number `i` takes from a generator.
pub open spec fn rolls_at(rng: Rng, i: nat) -> EntryRolls {
    EntryRolls {
        drop: rng.roll_at(5 * i) as u32,
        rarity: rng.roll_at(5 * i + 1) as u32,
        side: rng.roll_at(5 * i + 2) as u32,
        prefix: rng.roll_at(5 * i + 3) as u32,
        suffix: rng.roll_at(5 * i + 4) as u32,
    }
}

/// The identifier for entry number `i`: the one supplied at that position.
pub open spec fn id_at(ids: Seq<ItemId>, i: int) -> Option<ItemId> {
    if 0 <= i < ids.len() {
        Some(ids[i])
    } else {
        None
    }
}

/// The entries of a table with their identifiers and their rolls.
pub open spec fn draws_of(table: Seq<LootEntry>, ids: Seq<ItemId>, rng: Rng) -> Seq<Draw> {
    Seq::new(
        table.len(),
        |i: int| Draw { entry: table[i], id: id_at(ids, i), rolls: rolls_at(rng, i as nat) },
    )
}

/// What an optional item holds.
pub open spec fn dropped_model(item: Option<Item>) -> Option<ItemModel> {
    match item {
        Some(item) => Some(item@),
        None => None,
    }
}

/// What an optional prefix holds.
pub open spec fn prefix_model(prefix: Option<ItemPrefix>) -> Option<AffixModel> {
    match prefix {
        Some(prefix) => Some(prefix@),
        None => None,
    }
}

/// What an optional suffix holds.
pub open spec fn suffix_model(suffix: Option<ItemSuffix>) -> Option<AffixModel> {
    match suffix {
        Some(suffix) => Some(suffix@),
        None => None,
    }
}

/// A weight as it counts.
fn counted(w: Ratio) -> (r: u64)
    ensures
        r == weight(w),
        r <= i32::MAX,
{
    if w.0 > 0 {
        w.0 as u64
    } else {
        0
    }
}

/// Selects a rarity by the weights.
pub fn pick_rarity(weights: &RarityWeights, roll: u32) -> (r: Option<ItemRarity>)
    ensures
        r == rarity_for(*weights, roll as int),
{
    let common: u64 = counted(weights.common);
    let magic: u64 = counted(weights.magic);
    let rare: u64 = counted(weights.rare);
    let legendary: u64 = counted(weights.legendary);
    let total: u64 = common + magic + rare + legendary;
    if total == 0 {
        None
    } else {
        let counted: u32 = bound_roll(roll);
        assert(counted as int * total as int <= 9_999 * 0x2_0000_0000) by (nonlinear_arith)
            requires
                0 <= counted as int <= 9_999,
                0 <= total as int <= 0x2_0000_0000,
        ;
        let point: u128 = (counted as u128) * (total as u128) / 10_000;
        if point < common as u128 {
            Some(ItemRarity::Common)
        } else if point < (common + magic) as u128 {
            Some(ItemRarity::Magic)
        } else if point < (common + magic + rare) as u128 {
            Some(ItemRarity::Rare)
        } else {
            Some(ItemRarity::Legendary)
        }
    }
}

/// Selects a position among `len` choices.
pub fn pick_index(len: usize, roll: u32) -> (r: usize)
    ensures
        r == pick(len as int, roll as int),
        len > 0 ==> r < len,
{
    let counted: u32 = bound_roll(roll);
    assert(0 <= counted as int * len as int <= 9_999 * len as int) by (nonlinear_arith)
        requires
            0 <= counted as int <= 9_999,
            len as int >= 0,
    ;
    let product: u128 = (counted as u128) * (len as u128);
    let at: u128 = product / 10_000;
    assert(at <= len);
    at as usize
}

/// Selects a prefix from the pool, none from an empty pool.
pub fn pick_prefix(pool: &Vec<ItemPrefix>, roll: u32) -> (r: Option<ItemPrefix>)
    ensures
        prefix_model(r) == affix_for(prefix_models(pool@), roll as int),
{
    if pool.len() == 0 {
        None
    } else {
        let at = pick_index(pool.len(), roll);
        Some(pool[at].clone())
    }
}

/// Selects a suffix from the pool, none from an empty pool.
pub fn pick_suffix(pool: &Vec<ItemSuffix>, roll: u32) -> (r: Option<ItemSuffix>)
    ensures
        suffix_model(r) == affix_for(suffix_models(pool@), roll as int),
{
    if pool.len() == 0 {
        None
    } else {
        let at = pick_index(pool.len(), roll);
        Some(pool[at].clone())
    }
}

/// Makes the item that an entry drops.
pub fn make_item(
    base: &BaseItem,
    id: ItemId,
    rarity: ItemRarity,
    affixes: &AffixPools,
    level: Level,
    rolls: &EntryRolls,
) -> (r: Item)
    ensures
        r@ == rolled_item(base@, id, rarity, affixes@, level, *rolls),
{
    let mut prefix: Option<ItemPrefix> = None;
    let mut suffix: Option<ItemSuffix> = None;
    match rarity {
        ItemRarity::Common => {},
        ItemRarity::Magic => {
            if bound_roll(rolls.side) < 5_000 {
                prefix = pick_prefix(&affixes.prefixes, rolls.prefix);
            } else {
                suffix = pick_suffix(&affixes.suffixes, rolls.suffix);
            }
        },
        ItemRarity::Rare => {
            prefix = pick_prefix(&affixes.prefixes, rolls.prefix);
            suffix = pick_suffix(&affixes.suffixes, rolls.suffix);
        },
        ItemRarity::Legendary => {
            prefix = pick_prefix(&affixes.legendary_prefixes, rolls.prefix);
            suffix = pick_suffix(&affixes.legendary_suffixes, rolls.suffix);
        },
    }
    Item { id, base_item: base.clone(), rarity, prefix, suffix, level }
}

/// Decides what one entry yields from its rolls.
pub fn roll_entry(
    entry: &LootEntry,
    id: Option<ItemId>,
    content: &Content,
    level: Level,
    rolls: &EntryRolls,
) -> (r: Option<Item>)
    ensures
        dropped_model(r) == entry_drop(Draw { entry: *entry, id, rolls: *rolls }, content@, level),
{
    if (bound_roll(rolls.drop) as i64) >= (entry.drop_chance.clamp_unit() as i64) {
        return None;
    }
    let at = find_base_item(&content.base_items, &entry.base_item_id);
    if at >= content.base_items.len() {
        return None;
    }
    match id {
        Some(id) => match pick_rarity(&entry.rarity_weights, rolls.rarity) {
            Some(rarity) => Some(
                make_item(&content.base_items[at], id, rarity, &content.affixes, level, rolls),
            ),
            None => None,
        },
        None => None,
    }
}

/// Draws the five rolls of one entry.
pub fn draw_rolls(rng: &mut Rng) -> (r: EntryRolls)
    ensures
        r == rolls_at(*old(rng), 0),
        *final(rng) == old(rng).advanced(5),
{
    let ghost start = *rng;
    let drop = rng.next_roll();
    let rarity = rng.next_roll();
    let side = rng.next_roll();
    let prefix = rng.next_roll();
    let suffix = rng.next_roll();
    proof {
        assert(start.advanced(0) == start);
        lemma_advanced_sum(start, 1, 1);
        lemma_advanced_sum(start, 2, 1);
        lemma_advanced_sum(start, 3, 1);
        lemma_advanced_sum(start, 4, 1);
    }
    EntryRolls { drop, rarity, side, prefix, suffix }
}

/// Rolls the loot of a table. Every entry is decided on its own, from five
/// rolls of its own; entry number `i` gets the identifier `item_ids[i]`,
/// and an entry without one yields nothing. Every item has the level
/// `level`. An empty table yields nothing.
pub fn roll(
    loot_table: &Vec<LootEntry>,
    content: &Content,
    level: Level,
    item_ids: &Vec<ItemId>,
    rng: &mut Rng,
) -> (r: Vec<Item>)
    ensures
        item_models(r@) == drops(draws_of(loot_table@, item_ids@, *old(rng)), content@, level),
        *final(rng) == old(rng).advanced(5 * loot_table.len() as nat),
        r.len() <= loot_table.len(),
{
    let ghost start = *rng;
    let ghost all = draws_of(loot_table@, item_ids@, start);
    let mut items: Vec<Item> = Vec::new();
    let mut i: usize = 0;
    proof {
        assert(all.take(0) =~= Seq::empty());
        assert(item_models(items@) =~= Seq::empty());
        assert(start.advanced(0) == start);
    }
    while i < loot_table.len()
        invariant
            i <= loot_table.len(),
            items.len() <= i,
            all == draws_of(loot_table@, item_ids@, start),
            *rng == start.advanced(5 * i as nat),
            item_models(items@) == drops(all.take(i as int), content@, level),
        decreases loot_table.len() - i,
    {
        let ghost now = *rng;
        let rolls = draw_rolls(rng);
        let id = if i < item_ids.len() {
            Some(item_ids[i])
        } else {
            None
        };
        proof {
            lemma_advanced_sum(start, 5 * i as nat, 0);
            lemma_advanced_sum(start, 5 * i as nat, 1);
            lemma_advanced_sum(start, 5 * i as nat, 2);
            lemma_advanced_sum(start, 5 * i as nat, 3);
            lemma_advanced_sum(start, 5 * i as nat, 4);
            lemma_advanced_sum(start, 5 * i as nat, 5);
            assert(rolls == rolls_at(start, i as nat));
            assert(all.take(i + 1).drop_last() =~= all.take(i as int));
            assert(all.take(i + 1).last() == Draw { entry: loot_table@[i as int], id, rolls });
        }
        let ghost before = items@;
        match roll_entry(&loot_table[i], id, content, level, &rolls) {
            Some(item) => {
                items.push(item);
                assert(item_models(items@) =~= item_models(before).push(item@));
            },
            None => {},
        }
        i = i + 1;
    }
    assert(all.take(i as int) =~= all);
    items
}

/// What a run of entries yields is what its first part yields followed by
/// what the rest yields.
pub proof fn lemma_drops_concat(a: Seq<Draw>, b: Seq<Draw>, content: ContentModel, level: Level)
    ensures
        drops(a + b, content, level) == drops(a, content, level) + drops(b, content, level),
    decreases b.len(),
{
    if b.len() == 0 {
        assert(a + b =~= a);
        assert(drops(a, content, level) + drops(b, content, level) =~= drops(a, content, level));
    } else {
        assert((a + b).drop_last() =~= a + b.drop_last());
        assert((a + b).last() == b.last());
        lemma_drops_concat(a, b.drop_last(), content, level);
        match entry_drop(b.last(), content, level) {
            Some(item) => {
                assert(drops(a, content, level) + drops(b.drop_last(), content, level).push(item)
                    =~= (drops(a, content, level) + drops(b.drop_last(), content, level)).push(
                    item,
                ));
            },
            None => {},
        }
    }
}

/// What one entry yields, as a run of none or one item.
pub open spec fn drop_of(draw: Draw, content: ContentModel, level: Level) -> Seq<ItemModel> {
    match entry_drop(draw, content, level) {
        Some(item) => seq![item],
        None => Seq::empty(),
    }
}

/// The entries of a table are independent: what the table yields is what
/// the entries before entry `i` yield, then what entry `i` yields, then
/// what the entries after it yield; and with entry `i` taken out, together
/// with its identifier and its rolls, the others yield what they yielded
/// with it.
pub proof fn lemma_entries_are_independent(
    draws: Seq<Draw>,
    content: ContentModel,
    level: Level,
    i: int,
)
    requires
        0 <= i < draws.len(),
    ensures
        drops(draws, content, level) == drops(draws.take(i), content, level) + drop_of(
            draws[i],
            content,
            level,
        ) + drops(draws.skip(i + 1), content, level),
        drops(draws.remove(i), content, level) == drops(draws.take(i), content, level) + drops(
            draws.skip(i + 1),
            content,
            level,
        ),
{
    let before = draws.take(i);
    let one = seq![draws[i]];
    let after = draws.skip(i + 1);
    assert(draws =~= before + one + after);
    assert(draws.remove(i) =~= before + after);
    lemma_drops_concat(before + one, after, content, level);
    lemma_drops_concat(before, one, content, level);
    lemma_drops_concat(before, after, content, level);
    assert(one.drop_last() =~= Seq::<Draw>::empty());
    assert(one.last() == draws[i]);
    assert(drops(Seq::<Draw>::empty(), content, level) =~= Seq::<ItemModel>::empty());
    assert(drops(one, content, level) =~= drop_of(draws[i], content, level));
}

/// With one generator for the whole table, the entries before an entry
/// that is taken out, together with its identifier, keep their identifiers
/// and their rolls, and so what they yield.
pub proof fn lemma_removal_keeps_earlier_draws(
    table: Seq<LootEntry>,
    ids: Seq<ItemId>,
    rng: Rng,
    i: int,
)
    requires
        0 <= i < table.len(),
        i < ids.len(),
    ensures
        draws_of(table.remove(i), ids.remove(i), rng).take(i) == draws_of(table, ids, rng).take(
            i,
        ),
{
    let with = draws_of(table, ids, rng).take(i);
    let without = draws_of(table.remove(i), ids.remove(i), rng).take(i);
    assert forall|k: int| 0 <= k < i implies without[k] == with[k] by {
        assert(table.remove(i)[k] == table[k]);
        assert(ids.remove(i)[k] == ids[k]);
    }
    assert(without =~= with);
}

/// A rarity without weight is never selected.
pub proof fn lemma_weightless_rarity_is_never_selected(w: RarityWeights, roll: int)
    requires
        0 <= roll,
    ensures
        rarity_for(w, roll) == Some(ItemRarity::Common) ==> w.common.0 > 0,
        rarity_for(w, roll) == Some(ItemRarity::Magic) ==> w.magic.0 > 0,
        rarity_for(w, roll) == Some(ItemRarity::Rare) ==> w.rare.0 > 0,
        rarity_for(w, roll) == Some(ItemRarity::Legendary) ==> w.legendary.0 > 0,
        rarity_for(w, roll).is_none() <==> total_weight(w) == 0,
{
    let total = total_weight(w);
    let counted = bounded_roll(roll);
    if total > 0 {
        assert(0 <= counted * total / 10_000 < total) by (nonlinear_arith)
            requires
                0 <= counted < 10_000,
                total > 0,
        ;
    }
}

/// An entry that always drops and whose weight lies on the common rarity
/// alone yields exactly one common item without affixes, whatever the
/// rolls, provided that an identifier was supplied and the catalog holds
/// the base item.
pub proof fn lemma_sure_common_drop(draw: Draw, content: ContentModel, level: Level)
    requires
        draw.entry.drop_chance.0 >= SCALE,
        draw.entry.rarity_weights.common.0 > 0,
        draw.entry.rarity_weights.magic.0 <= 0,
        draw.entry.rarity_weights.rare.0 <= 0,
        draw.entry.rarity_weights.legendary.0 <= 0,
        draw.id.is_some(),
        base_item_position(content.base_items, draw.entry.base_item_id) < content.base_items.len(),
    ensures
        entry_drop(draw, content, level) == Some(
            ItemModel {
                id: draw.id.unwrap(),
                base_item: content.base_items[base_item_position(
                    content.base_items,
                    draw.entry.base_item_id,
                )],
                rarity: ItemRarity::Common,
                prefix: None,
                suffix: None,
                level,
            },
        ),
{
    lemma_weightless_rarity_is_never_selected(draw.entry.rarity_weights, draw.rolls.rarity as int);
}

} // verus!
