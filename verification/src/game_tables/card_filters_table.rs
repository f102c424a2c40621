//! Builds card filters from the rows of the card filters table.
use std::collections::HashMap;
use vstd::prelude::*;

use crate::adventure::{
    CardFilter, CardFilterView, CardSubtype, CardType, Flag, FlagSet, Rarity, Side,
    UpgradedStatus,
};
use crate::game_tables::csv_datatypes::CardFilterRow;
use crate::game_tables::TableError;

verus! {

broadcast use vstd::std_specs::hash::group_hash_axioms;

/// Whether the row's columns select the given upgrade status.
pub open spec fn row_selects_upgraded(row: CardFilterRow, status: UpgradedStatus) -> bool {
    match status {
        UpgradedStatus::Default => row.upgraded_no,
        UpgradedStatus::Upgraded => row.upgraded_yes,
    }
}

/// Whether the row's columns select the given rarity.
pub open spec fn row_selects_rarity(row: CardFilterRow, rarity: Rarity) -> bool {
    match rarity {
        Rarity::Common => row.rarity_common,
        Rarity::Uncommon => row.rarity_uncommon,
        Rarity::Rare => row.rarity_rare,
        Rarity::Basic => row.rarity_basic,
        Rarity::Identity => row.rarity_identity,
        Rarity::NoRarity => row.rarity_none,
    }
}

/// Whether the row's columns select the given card type.
pub open spec fn row_selects_card_type(row: CardFilterRow, card_type: CardType) -> bool {
    match card_type {
        CardType::Riftcaller => row.type_riftcaller,
        CardType::Chapter => row.type_chapter,
        CardType::GameModifier => row.type_game_modifier,
        CardType::Sigil => row.type_sigil,
        CardType::Scheme => row.type_scheme,
        CardType::Spell => row.type_spell,
        CardType::Ritual => row.type_ritual,
        CardType::Evocation => row.type_evocation,
        CardType::Ally => row.type_ally,
        CardType::Project => row.type_project,
        CardType::Artifact => row.type_artifact,
        CardType::Minion => row.type_minion,
    }
}

/// Whether the row's columns select the given side.
pub open spec fn row_selects_side(row: CardFilterRow, side: Side) -> bool {
    match side {
        Side::Covenant => row.side_covenant,
        Side::Riftcaller => row.side_riftcaller,
    }
}

/// Whether the row's columns select the given subtype.
pub open spec fn row_selects_subtype(row: CardFilterRow, subtype: CardSubtype) -> bool {
    match subtype {
        CardSubtype::Weapon => row.subtype_weapon,
    }
}

/// The filter described by a row: its operator, and in each category exactly
/// the values whose column is set.
pub open spec fn filter_of_row(row: CardFilterRow) -> CardFilterView {
    CardFilterView {
        category_operator: row.category_operator,
        upgraded: Set::new(|s: UpgradedStatus| row_selects_upgraded(row, s)),
        rarity: Set::new(|r: Rarity| row_selects_rarity(row, r)),
        card_types: Set::new(|t: CardType| row_selects_card_type(row, t)),
        sides: Set::new(|s: Side| row_selects_side(row, s)),
        card_subtypes: Set::new(|s: CardSubtype| row_selects_subtype(row, s)),
    }
}

/// The filters described by the rows, keyed by filter id; where several rows
/// share an id the last of them wins.
pub open spec fn filters_by_id(rows: Seq<CardFilterRow>) -> Map<u32, CardFilterView>
    decreases rows.len(),
{
    if rows.len() == 0 {
        Map::empty()
    } else {
        filters_by_id(rows.drop_last()).insert(rows.last().id, filter_of_row(rows.last()))
    }
}

/// The rows imported so far, from which card filters are built.
pub struct CardFilterTable {
    rows: Vec<CardFilterRow>,
}

impl View for CardFilterTable {
    type V = Seq<CardFilterRow>;

    closed spec fn view(&self) -> Seq<CardFilterRow> {
        self.rows@
    }
}

impl CardFilterTable {
    /// A table holding no rows.
    pub fn new() -> (res: CardFilterTable)
        ensures
            res@ == Seq::<CardFilterRow>::empty(),
    {
        CardFilterTable { rows: Vec::new() }
    }

    /// Removes every imported row.
    pub fn clear(&mut self)
        ensures
            final(self)@ == Seq::<CardFilterRow>::empty(),
    {
        self.rows.clear();
    }

    /// Adds a row after those already imported.
    pub fn import_row(&mut self, row: CardFilterRow)
        ensures
            final(self)@ == old(self)@.push(row),
    {
        self.rows.push(row);
    }

    /// Builds the card filter of every imported row, keyed by filter id.
    pub fn build(&self) -> (res: Result<HashMap<u32, CardFilter>, TableError>)
        ensures
            res matches Ok(m) && m@.map_values(|f: CardFilter| f@) == filters_by_id(self@),
    {
        let mut result: HashMap<u32, CardFilter> = HashMap::new();
        let n = self.rows.len();
        let mut i: usize = 0;
        while i < n
            invariant
                n == self.rows@.len(),
                i <= n,
                result@.map_values(|f: CardFilter| f@) == filters_by_id(self.rows@.take(i as int)),
            decreases n - i,
        {
            let row = &self.rows[i];
            let filter = build_filter(row);
            let ghost before = result@;
            result.insert(row.id, filter);
            proof {
                let rows_i = self.rows@.take(i as int);
                let rows_next = self.rows@.take(i + 1);
                assert(rows_next.drop_last() =~= rows_i);
                assert(result@.map_values(|f: CardFilter| f@) =~= before.map_values(
                    |f: CardFilter| f@,
                ).insert(row.id, filter_of_row(*row)));
            }
            i = i + 1;
        }
        assert(self.rows@.take(n as int) =~= self.rows@);
        Ok(result)
    }
}

/// The card filter described by `row`.
pub fn build_filter(row: &CardFilterRow) -> (res: CardFilter)
    ensures
        res@ == filter_of_row(*row),
{
    let mut result = CardFilter::new(row.category_operator);
    insert(&mut result.upgraded, row.upgraded_no, UpgradedStatus::Default);
    insert(&mut result.upgraded, row.upgraded_yes, UpgradedStatus::Upgraded);
    insert(&mut result.rarity, row.rarity_common, Rarity::Common);
    insert(&mut result.rarity, row.rarity_uncommon, Rarity::Uncommon);
    insert(&mut result.rarity, row.rarity_rare, Rarity::Rare);
    insert(&mut result.rarity, row.rarity_basic, Rarity::Basic);
    insert(&mut result.rarity, row.rarity_identity, Rarity::Identity);
    insert(&mut result.rarity, row.rarity_none, Rarity::NoRarity);
    insert(&mut result.card_types, row.type_riftcaller, CardType::Riftcaller);
    insert(&mut result.card_types, row.type_chapter, CardType::Chapter);
    insert(&mut result.card_types, row.type_game_modifier, CardType::GameModifier);
    insert(&mut result.card_types, row.type_sigil, CardType::Sigil);
    insert(&mut result.card_types, row.type_scheme, CardType::Scheme);
    insert(&mut result.card_types, row.type_spell, CardType::Spell);
    insert(&mut result.card_types, row.type_ritual, CardType::Ritual);
    insert(&mut result.card_types, row.type_evocation, CardType::Evocation);
    insert(&mut result.card_types, row.type_ally, CardType::Ally);
    insert(&mut result.card_types, row.type_project, CardType::Project);
    insert(&mut result.card_types, row.type_artifact, CardType::Artifact);
    insert(&mut result.card_types, row.type_minion, CardType::Minion);
    insert(&mut result.sides, row.side_covenant, Side::Covenant);
    insert(&mut result.sides, row.side_riftcaller, Side::Riftcaller);
    insert(&mut result.card_subtypes, row.subtype_weapon, CardSubtype::Weapon);
    let ghost expected = filter_of_row(*row);
    assert(result.upgraded@ =~= expected.upgraded);
    assert(result.rarity@ =~= expected.rarity);
    assert(result.card_types@ =~= expected.card_types);
    assert(result.sides@ =~= expected.sides);
    assert(result.card_subtypes@ =~= expected.card_subtypes);
    result
}

/// Adds `flag` to `set` when `value` is true.
pub fn insert<T: Flag>(set: &mut FlagSet<T>, value: bool, flag: T)
    ensures
        final(set)@ == (if value {
            old(set)@.insert(flag)
        } else {
            old(set)@
        }),
{
    if value {
        set.insert(flag);
    }
}

/// Each column of a card filter row selects the value it is named for, and
/// only that value: the filter built from the row holds a card type, rarity,
/// side, upgrade status or subtype exactly when that value's column is set.
pub proof fn lemma_filter_columns_select_their_values(row: CardFilterRow)
    ensures
        filter_of_row(row).card_types.contains(CardType::Riftcaller) == row.type_riftcaller,
        filter_of_row(row).card_types.contains(CardType::Chapter) == row.type_chapter,
        filter_of_row(row).card_types.contains(CardType::GameModifier) == row.type_game_modifier,
        filter_of_row(row).card_types.contains(CardType::Sigil) == row.type_sigil,
        filter_of_row(row).card_types.contains(CardType::Scheme) == row.type_scheme,
        filter_of_row(row).card_types.contains(CardType::Spell) == row.type_spell,
        filter_of_row(row).card_types.contains(CardType::Ritual) == row.type_ritual,
        filter_of_row(row).card_types.contains(CardType::Evocation) == row.type_evocation,
        filter_of_row(row).card_types.contains(CardType::Ally) == row.type_ally,
        filter_of_row(row).card_types.contains(CardType::Project) == row.type_project,
        filter_of_row(row).card_types.contains(CardType::Artifact) == row.type_artifact,
        filter_of_row(row).card_types.contains(CardType::Minion) == row.type_minion,
        filter_of_row(row).rarity.contains(Rarity::Common) == row.rarity_common,
        filter_of_row(row).rarity.contains(Rarity::Uncommon) == row.rarity_uncommon,
        filter_of_row(row).rarity.contains(Rarity::Rare) == row.rarity_rare,
        filter_of_row(row).rarity.contains(Rarity::Basic) == row.rarity_basic,
        filter_of_row(row).rarity.contains(Rarity::Identity) == row.rarity_identity,
        filter_of_row(row).rarity.contains(Rarity::NoRarity) == row.rarity_none,
        filter_of_row(row).sides.contains(Side::Covenant) == row.side_covenant,
        filter_of_row(row).sides.contains(Side::Riftcaller) == row.side_riftcaller,
        filter_of_row(row).upgraded.contains(UpgradedStatus::Default) == row.upgraded_no,
        filter_of_row(row).upgraded.contains(UpgradedStatus::Upgraded) == row.upgraded_yes,
        filter_of_row(row).card_subtypes.contains(CardSubtype::Weapon) == row.subtype_weapon,
        filter_of_row(row).category_operator == row.category_operator,
{
}

} // verus!
