//! Builds narrative events from the rows of the narrative events and
//! narrative event details tables.
use std::collections::HashMap;
use vstd::prelude::*;

use crate::adventure::{
    AdventureEffect, AdventureEffectData, AdventureEffectKind, CardFilterId, CardName, Coins,
    DeckCardAction, DeckCardEffect, NarrativeChoiceId, NarrativeEventChoice,
    NarrativeEventChoiceView, NarrativeEventData, NarrativeEventDataView, NarrativeEventId, Sprite,
};
use crate::game_tables::csv_datatypes::{
    NarrativeEventDetailsRow, NarrativeEventEntryKind, NarrativeEventRow,
};
use crate::game_tables::TableError;

verus! {

broadcast use vstd::std_specs::hash::group_hash_axioms;

/// The quantity a row gives, which must be present.
pub open spec fn quantity_of(quantity: Option<u32>) -> Result<u32, TableError> {
    match quantity {
        Some(q) => Ok(q),
        None => Err(TableError::MissingQuantity),
    }
}

/// The deck card action a row gives, which must be present.
pub open spec fn deck_card_action_of(action: Option<DeckCardAction>) -> Result<
    DeckCardAction,
    TableError,
> {
    match action {
        Some(a) => Ok(a),
        None => Err(TableError::MissingDeckCardAction),
    }
}

/// The card filter a row names, which must be present.
pub open spec fn card_filter_of(id: Option<u32>) -> Result<CardFilterId, TableError> {
    match id {
        Some(v) => Ok(CardFilterId { value: v }),
        None => Err(TableError::MissingCardFilterId),
    }
}

/// The card a row names, which must be present.
pub open spec fn card_name_of(name: Option<CardName>) -> Result<CardName, TableError> {
    match name {
        Some(n) => Ok(n),
        None => Err(TableError::MissingCardName),
    }
}

/// The effect of kind `kind` described by `row`. Each kind reads the columns
/// it needs, failing on the first missing one: the card filter before the
/// deck card action.
pub open spec fn effect_of_row(row: NarrativeEventDetailsRow, kind: AdventureEffectKind) -> Result<
    AdventureEffect,
    TableError,
> {
    let filter = card_filter_of(row.card_filter_id);
    let action = deck_card_action_of(row.deck_card_action);
    let quantity = quantity_of(row.quantity);
    let times = match row.quantity {
        Some(q) => q,
        None => 1,
    };
    match kind {
        AdventureEffectKind::Draft => match filter {
            Ok(f) => Ok(AdventureEffect::Draft(f)),
            Err(e) => Err(e),
        },
        AdventureEffectKind::Shop => match filter {
            Ok(f) => Ok(AdventureEffect::Shop(f)),
            Err(e) => Err(e),
        },
        AdventureEffectKind::NarrativeEvent => Err(TableError::UnsupportedEffect),
        AdventureEffectKind::Battle => Ok(AdventureEffect::Battle),
        AdventureEffectKind::GainCoins => match quantity {
            Ok(q) => Ok(AdventureEffect::GainCoins(Coins(q))),
            Err(e) => Err(e),
        },
        AdventureEffectKind::LoseCoins => match quantity {
            Ok(q) => Ok(AdventureEffect::LoseCoins(Coins(q))),
            Err(e) => Err(e),
        },
        AdventureEffectKind::LoseAllCoins => Ok(AdventureEffect::LoseAllCoins),
        AdventureEffectKind::GainArcanite => match quantity {
            Ok(q) => Ok(AdventureEffect::GainArcanite(q)),
            Err(e) => Err(e),
        },
        AdventureEffectKind::PickCardForEffect => match (filter, action) {
            (Err(e), _) => Err(e),
            (Ok(_), Err(e)) => Err(e),
            (Ok(f), Ok(a)) => Ok(
                AdventureEffect::PickCardForEffect(
                    f,
                    DeckCardEffect { action: a, cost: None, times },
                ),
            ),
        },
        AdventureEffectKind::KnownRandomCardEffect => match (filter, action) {
            (Err(e), _) => Err(e),
            (Ok(_), Err(e)) => Err(e),
            (Ok(f), Ok(a)) => Ok(AdventureEffect::KnownRandomCardEffect(f, a)),
        },
        AdventureEffectKind::UnknownRandomCardEffect => match (filter, action) {
            (Err(e), _) => Err(e),
            (Ok(_), Err(e)) => Err(e),
            (Ok(f), Ok(a)) => Ok(AdventureEffect::UnknownRandomCardEffect(f, a)),
        },
        AdventureEffectKind::ApplyCardEffectToAllMatching => match (filter, action) {
            (Err(e), _) => Err(e),
            (Ok(_), Err(e)) => Err(e),
            (Ok(f), Ok(a)) => Ok(AdventureEffect::ApplyCardEffectToAllMatching(f, a)),
        },
        AdventureEffectKind::AddMapTiles => match quantity {
            Ok(q) => Ok(AdventureEffect::AddMapTiles(q)),
            Err(e) => Err(e),
        },
        AdventureEffectKind::AddDraftTiles => match quantity {
            Ok(q) => Ok(AdventureEffect::AddDraftTiles(q)),
            Err(e) => Err(e),
        },
        AdventureEffectKind::AddNarrativeTiles => match quantity {
            Ok(q) => Ok(AdventureEffect::AddNarrativeTiles(q)),
            Err(e) => Err(e),
        },
        AdventureEffectKind::GainKnownFixedCard => match card_name_of(row.card_name) {
            Ok(n) => Ok(AdventureEffect::GainKnownFixedCard(n, times)),
            Err(e) => Err(e),
        },
        AdventureEffectKind::GainKnownRandomCard => match filter {
            Ok(f) => Ok(AdventureEffect::GainKnownRandomCard(f, times)),
            Err(e) => Err(e),
        },
        AdventureEffectKind::GainUnknownRandomCard => match filter {
            Ok(f) => Ok(AdventureEffect::GainUnknownRandomCard(f, times)),
            Err(e) => Err(e),
        },
        AdventureEffectKind::PickCardToLose => match filter {
            Ok(f) => Ok(AdventureEffect::PickCardToLose(f, times)),
            Err(e) => Err(e),
        },
        AdventureEffectKind::LoseKnownRandomCard => match filter {
            Ok(f) => Ok(AdventureEffect::LoseKnownRandomCard(f, times)),
            Err(e) => Err(e),
        },
        AdventureEffectKind::LoseUnknownRandomCard => match filter {
            Ok(f) => Ok(AdventureEffect::LoseUnknownRandomCard(f, times)),
            Err(e) => Err(e),
        },
    }
}

/// The effect described by `row` together with the row's description.
pub open spec fn effect_data_of_row(row: NarrativeEventDetailsRow, kind: AdventureEffectKind) -> Result<
    AdventureEffectData,
    TableError,
> {
    match effect_of_row(row, kind) {
        Ok(effect) => Ok(AdventureEffectData { effect, description: row.description }),
        Err(e) => Err(e),
    }
}

/// Whether a detail row contributes an effect of the given kind to the given
/// choice.
pub open spec fn is_effect_row(
    row: NarrativeEventDetailsRow,
    choice_id: u32,
    kind: NarrativeEventEntryKind,
) -> bool {
    row.choice_id == Some(choice_id) && row.entry_kind == kind && row.effect_kind is Some
}

/// The effects of the given kind for the given choice, in the order of the
/// rows, failing with the error of the first row whose effect cannot be built.
pub open spec fn effects_of(
    details: Seq<NarrativeEventDetailsRow>,
    choice_id: u32,
    kind: NarrativeEventEntryKind,
) -> Result<Seq<AdventureEffectData>, TableError>
    decreases details.len(),
{
    if details.len() == 0 {
        Ok(Seq::empty())
    } else {
        match effects_of(details.drop_last(), choice_id, kind) {
            Err(e) => Err(e),
            Ok(s) => {
                let row = details.last();
                if is_effect_row(row, choice_id, kind) {
                    match effect_data_of_row(row, row.effect_kind.unwrap()) {
                        Ok(x) => Ok(s.push(x)),
                        Err(e) => Err(e),
                    }
                } else {
                    Ok(s)
                }
            },
        }
    }
}

/// The detail rows of the event `id`.
pub open spec fn details_of_event(details: Seq<NarrativeEventDetailsRow>, id: u32) -> Seq<
    NarrativeEventDetailsRow,
> {
    details.filter(of_event(id))
}

/// Selects the detail rows of the event `id`.
pub open spec fn of_event(id: u32) -> spec_fn(NarrativeEventDetailsRow) -> bool {
    |row: NarrativeEventDetailsRow| row.id == id
}

/// Selects the detail rows of the given kind.
pub open spec fn of_kind(kind: NarrativeEventEntryKind) -> spec_fn(NarrativeEventDetailsRow) -> bool {
    |row: NarrativeEventDetailsRow| row.entry_kind == kind
}

/// Selects the detail rows of the given kind for the given choice.
pub open spec fn of_choice(kind: NarrativeEventEntryKind, choice_id: u32) -> spec_fn(
    NarrativeEventDetailsRow,
) -> bool {
    |row: NarrativeEventDetailsRow| row.entry_kind == kind && row.choice_id == Some(choice_id)
}

/// The detail rows of the given kind.
pub open spec fn rows_of_kind(
    details: Seq<NarrativeEventDetailsRow>,
    kind: NarrativeEventEntryKind,
) -> Seq<NarrativeEventDetailsRow> {
    details.filter(of_kind(kind))
}

/// The detail rows of the given kind for the given choice.
pub open spec fn rows_of_choice(
    details: Seq<NarrativeEventDetailsRow>,
    kind: NarrativeEventEntryKind,
    choice_id: u32,
) -> Seq<NarrativeEventDetailsRow> {
    details.filter(of_choice(kind, choice_id))
}

/// The only row among `rows`, or the error reporting how many there are.
pub open spec fn single_row(rows: Seq<NarrativeEventDetailsRow>, kind: NarrativeEventEntryKind) -> Result<
    NarrativeEventDetailsRow,
    TableError,
> {
    if rows.len() == 1 {
        Ok(rows[0])
    } else {
        Err(TableError::WrongEntryCount { kind, count: rows.len() as usize })
    }
}

/// Returns the detail rows of the event `id`, in table order.
pub fn find_details(details: &[NarrativeEventDetailsRow], id: NarrativeEventId) -> (res: Vec<
    NarrativeEventDetailsRow,
>)
    ensures
        res@ == details_of_event(details@, id.value),
{
    let ghost pred = of_event(id.value);
    let mut res: Vec<NarrativeEventDetailsRow> = Vec::new();
    let n = details.len();
    let mut i: usize = 0;
    while i < n
        invariant
            n == details@.len(),
            i <= n,
            res@ == details@.take(i as int).filter(pred),
            pred == of_event(id.value),
        decreases n - i,
    {
        let row = &details[i];
        if row.id == id.value {
            res.push(row.clone());
        }
        proof {
            assert(pred(*row) == (row.id == id.value));
            assert(details@.take(i + 1) =~= details@.take(i as int).push(*row));
            details@.take(i as int).lemma_filter_push(*row, pred);
        }
        i = i + 1;
    }
    assert(details@.take(n as int) =~= details@);
    res
}

/// Returns the single detail row of the given kind, failing unless there is
/// exactly one.
pub fn find_entry(details: &[NarrativeEventDetailsRow], kind: NarrativeEventEntryKind) -> (res:
    Result<NarrativeEventDetailsRow, TableError>)
    ensures
        res == single_row(rows_of_kind(details@, kind), kind),
{
    let ghost pred = of_kind(kind);
    let mut rows: Vec<NarrativeEventDetailsRow> = Vec::new();
    let n = details.len();
    let mut i: usize = 0;
    while i < n
        invariant
            n == details@.len(),
            i <= n,
            rows@ == details@.take(i as int).filter(pred),
            pred == of_kind(kind),
        decreases n - i,
    {
        let row = &details[i];
        if row.entry_kind == kind {
            rows.push(row.clone());
        }
        proof {
            assert(pred(*row) == (row.entry_kind == kind));
            assert(details@.take(i + 1) =~= details@.take(i as int).push(*row));
            details@.take(i as int).lemma_filter_push(*row, pred);
        }
        i = i + 1;
    }
    assert(details@.take(n as int) =~= details@);
    if rows.len() == 1 {
        Ok(rows[0].clone())
    } else {
        Err(TableError::WrongEntryCount { kind, count: rows.len() })
    }
}

/// Returns the single detail row of the given kind for the given choice,
/// failing unless there is exactly one.
pub fn find_choice_entry(
    details: &[NarrativeEventDetailsRow],
    kind: NarrativeEventEntryKind,
    id: NarrativeChoiceId,
) -> (res: Result<NarrativeEventDetailsRow, TableError>)
    ensures
        res == single_row(rows_of_choice(details@, kind, id.value), kind),
{
    let ghost pred = of_choice(kind, id.value);
    let mut rows: Vec<NarrativeEventDetailsRow> = Vec::new();
    let n = details.len();
    let mut i: usize = 0;
    while i < n
        invariant
            n == details@.len(),
            i <= n,
            rows@ == details@.take(i as int).filter(pred),
            pred == of_choice(kind, id.value),
        decreases n - i,
    {
        let row = &details[i];
        let matches_choice = match row.choice_id {
            Some(c) => c == id.value,
            None => false,
        };
        if row.entry_kind == kind && matches_choice {
            rows.push(row.clone());
        }
        proof {
            assert(pred(*row) == (row.entry_kind == kind && matches_choice));
            assert(details@.take(i + 1) =~= details@.take(i as int).push(*row));
            details@.take(i as int).lemma_filter_push(*row, pred);
        }
        i = i + 1;
    }
    assert(details@.take(n as int) =~= details@);
    if rows.len() == 1 {
        Ok(rows[0].clone())
    } else {
        Err(TableError::WrongEntryCount { kind, count: rows.len() })
    }
}

/// The quantity column, which must be present.
pub fn resolve_quantity(quantity: Option<u32>) -> (res: Result<u32, TableError>)
    ensures
        res == quantity_of(quantity),
{
    match quantity {
        Some(q) => Ok(q),
        None => Err(TableError::MissingQuantity),
    }
}

/// The deck card action column, which must be present.
pub fn resolve_deck_card_action(action: Option<DeckCardAction>) -> (res: Result<
    DeckCardAction,
    TableError,
>)
    ensures
        res == deck_card_action_of(action),
{
    match action {
        Some(a) => Ok(a),
        None => Err(TableError::MissingDeckCardAction),
    }
}

/// The card filter column, which must be present.
pub fn resolve_card_filter(id: Option<u32>) -> (res: Result<CardFilterId, TableError>)
    ensures
        res == card_filter_of(id),
{
    match id {
        Some(v) => Ok(CardFilterId::new(v)),
        None => Err(TableError::MissingCardFilterId),
    }
}

/// The card name column, which must be present.
pub fn resolve_card_name(name: Option<CardName>) -> (res: Result<CardName, TableError>)
    ensures
        res == card_name_of(name),
{
    match name {
        Some(n) => Ok(n),
        None => Err(TableError::MissingCardName),
    }
}

/// The quantity column, or one when it is empty.
fn times_of(quantity: Option<u32>) -> (res: u32)
    ensures
        res == (match quantity {
            Some(q) => q,
            None => 1,
        }),
{
    match quantity {
        Some(q) => q,
        None => 1,
    }
}

/// Builds the effect of kind `kind` described by `row`.
pub fn build_effect(row: &NarrativeEventDetailsRow, kind: AdventureEffectKind) -> (res: Result<
    AdventureEffectData,
    TableError,
>)
    ensures
        res == effect_data_of_row(*row, kind),
{
    let effect = match kind {
        AdventureEffectKind::Draft => AdventureEffect::Draft(
            resolve_card_filter(row.card_filter_id)?,
        ),
        AdventureEffectKind::Shop => AdventureEffect::Shop(
            resolve_card_filter(row.card_filter_id)?,
        ),
        AdventureEffectKind::NarrativeEvent => {
            return Err(TableError::UnsupportedEffect);
        },
        AdventureEffectKind::Battle => AdventureEffect::Battle,
        AdventureEffectKind::GainCoins => AdventureEffect::GainCoins(
            Coins(resolve_quantity(row.quantity)?),
        ),
        AdventureEffectKind::LoseCoins => AdventureEffect::LoseCoins(
            Coins(resolve_quantity(row.quantity)?),
        ),
        AdventureEffectKind::LoseAllCoins => AdventureEffect::LoseAllCoins,
        AdventureEffectKind::GainArcanite => AdventureEffect::GainArcanite(
            resolve_quantity(row.quantity)?,
        ),
        AdventureEffectKind::PickCardForEffect => {
            let filter = resolve_card_filter(row.card_filter_id)?;
            let action = resolve_deck_card_action(row.deck_card_action)?;
            AdventureEffect::PickCardForEffect(
                filter,
                DeckCardEffect { action, cost: None, times: times_of(row.quantity) },
            )
        },
        AdventureEffectKind::KnownRandomCardEffect => {
            let filter = resolve_card_filter(row.card_filter_id)?;
            let action = resolve_deck_card_action(row.deck_card_action)?;
            AdventureEffect::KnownRandomCardEffect(filter, action)
        },
        AdventureEffectKind::UnknownRandomCardEffect => {
            let filter = resolve_card_filter(row.card_filter_id)?;
            let action = resolve_deck_card_action(row.deck_card_action)?;
            AdventureEffect::UnknownRandomCardEffect(filter, action)
        },
        AdventureEffectKind::ApplyCardEffectToAllMatching => {
            let filter = resolve_card_filter(row.card_filter_id)?;
            let action = resolve_deck_card_action(row.deck_card_action)?;
            AdventureEffect::ApplyCardEffectToAllMatching(filter, action)
        },
        AdventureEffectKind::AddMapTiles => AdventureEffect::AddMapTiles(
            resolve_quantity(row.quantity)?,
        ),
        AdventureEffectKind::AddDraftTiles => AdventureEffect::AddDraftTiles(
            resolve_quantity(row.quantity)?,
        ),
        AdventureEffectKind::AddNarrativeTiles => AdventureEffect::AddNarrativeTiles(
            resolve_quantity(row.quantity)?,
        ),
        AdventureEffectKind::GainKnownFixedCard => AdventureEffect::GainKnownFixedCard(
            resolve_card_name(row.card_name)?,
            times_of(row.quantity),
        ),
        AdventureEffectKind::GainKnownRandomCard => AdventureEffect::GainKnownRandomCard(
            resolve_card_filter(row.card_filter_id)?,
            times_of(row.quantity),
        ),
        AdventureEffectKind::GainUnknownRandomCard => AdventureEffect::GainUnknownRandomCard(
            resolve_card_filter(row.card_filter_id)?,
            times_of(row.quantity),
        ),
        AdventureEffectKind::PickCardToLose => AdventureEffect::PickCardToLose(
            resolve_card_filter(row.card_filter_id)?,
            times_of(row.quantity),
        ),
        AdventureEffectKind::LoseKnownRandomCard => AdventureEffect::LoseKnownRandomCard(
            resolve_card_filter(row.card_filter_id)?,
            times_of(row.quantity),
        ),
        AdventureEffectKind::LoseUnknownRandomCard => AdventureEffect::LoseUnknownRandomCard(
            resolve_card_filter(row.card_filter_id)?,
            times_of(row.quantity),
        ),
    };
    Ok(AdventureEffectData { effect, description: row.description.clone() })
}

/// Once the effects of a prefix of the rows fail, the effects of all the rows
/// fail with the same error.
proof fn lemma_effects_error_persists(
    details: Seq<NarrativeEventDetailsRow>,
    choice_id: u32,
    kind: NarrativeEventEntryKind,
    j: int,
)
    requires
        0 <= j <= details.len(),
        effects_of(details.take(j), choice_id, kind) is Err,
    ensures
        effects_of(details, choice_id, kind) == effects_of(details.take(j), choice_id, kind),
    decreases details.len(),
{
    if j == details.len() {
        assert(details.take(j) =~= details);
    } else {
        let prefix = details.drop_last();
        assert(prefix.take(j) =~= details.take(j));
        lemma_effects_error_persists(prefix, choice_id, kind, j);
    }
}

/// Builds the effects of the given kind for choice `choice_id`, in table
/// order.
pub fn effect_list(
    details: &[NarrativeEventDetailsRow],
    choice_id: u32,
    kind: NarrativeEventEntryKind,
) -> (res: Result<Vec<AdventureEffectData>, TableError>)
    ensures
        match res {
            Ok(v) => effects_of(details@, choice_id, kind) == Ok::<
                Seq<AdventureEffectData>,
                TableError,
            >(v@),
            Err(e) => effects_of(details@, choice_id, kind) == Err::<
                Seq<AdventureEffectData>,
                TableError,
            >(e),
        },
{
    let mut result: Vec<AdventureEffectData> = Vec::new();
    let n = details.len();
    let mut i: usize = 0;
    while i < n
        invariant
            n == details@.len(),
            i <= n,
            effects_of(details@.take(i as int), choice_id, kind) == Ok::<
                Seq<AdventureEffectData>,
                TableError,
            >(result@),
        decreases n - i,
    {
        let row = &details[i];
        proof {
            assert(details@.take(i + 1).drop_last() =~= details@.take(i as int));
        }
        let matches_choice = match row.choice_id {
            Some(c) => c == choice_id,
            None => false,
        };
        if matches_choice && row.entry_kind == kind {
            if let Some(effect_kind) = row.effect_kind {
                match build_effect(row, effect_kind) {
                    Ok(data) => {
                        result.push(data);
                    },
                    Err(e) => {
                        proof {
                            lemma_effects_error_persists(details@, choice_id, kind, i + 1);
                        }
                        return Err(e);
                    },
                }
            }
        }
        i = i + 1;
    }
    assert(details@.take(n as int) =~= details@);
    Ok(result)
}

/// The choice numbers named by some detail row.
pub open spec fn choice_id_set(details: Seq<NarrativeEventDetailsRow>) -> Set<u32> {
    Set::new(|c: u32| exists|i: int| 0 <= i < details.len() && details[i].choice_id == Some(c))
}

/// Whether every element of `s` is smaller than the elements after it.
pub open spec fn strictly_increasing(s: Seq<u32>) -> bool {
    forall|i: int, j: int| 0 <= i < j < s.len() ==> s[i] < s[j]
}

/// The choice numbers named by some detail row, in increasing order.
pub open spec fn sorted_choice_ids(details: Seq<NarrativeEventDetailsRow>) -> Seq<u32> {
    choose|s: Seq<u32>| strictly_increasing(s) && s.to_set() == choice_id_set(details)
}

/// Two increasing sequences holding the same elements are equal.
pub proof fn lemma_increasing_unique(a: Seq<u32>, b: Seq<u32>)
    requires
        strictly_increasing(a),
        strictly_increasing(b),
        a.to_set() == b.to_set(),
    ensures
        a == b,
    decreases a.len(),
{
    if a.len() == 0 {
        if b.len() > 0 {
            assert(b.to_set().contains(b[0]));
        }
        assert(a =~= b);
    } else {
        assert(a.to_set().contains(a[0]));
        assert(b.len() > 0);
        assert(b.to_set().contains(b[0]));
        let j = choose|j: int| 0 <= j < b.len() && b[j] == a[0];
        let k = choose|k: int| 0 <= k < a.len() && a[k] == b[0];
        assert(a[0] <= a[k]);
        assert(b[0] <= b[j]);
        assert(a[0] == b[0]);
        let ta = a.drop_first();
        let tb = b.drop_first();
        assert forall|x: u32| ta.to_set().contains(x) implies tb.to_set().contains(x) by {
            let i = choose|i: int| 0 <= i < ta.len() && ta[i] == x;
            assert(a[i + 1] == x);
            assert(a.to_set().contains(x));
            let l = choose|l: int| 0 <= l < b.len() && b[l] == x;
            assert(l != 0);
            assert(tb[l - 1] == x);
        }
        assert forall|x: u32| tb.to_set().contains(x) implies ta.to_set().contains(x) by {
            let i = choose|i: int| 0 <= i < tb.len() && tb[i] == x;
            assert(b[i + 1] == x);
            assert(b.to_set().contains(x));
            let l = choose|l: int| 0 <= l < a.len() && a[l] == x;
            assert(l != 0);
            assert(ta[l - 1] == x);
        }
        assert(ta.to_set() =~= tb.to_set());
        lemma_increasing_unique(ta, tb);
        assert(a =~= seq![a[0]] + ta);
        assert(b =~= seq![b[0]] + tb);
    }
}

/// Returns the choice numbers named by the detail rows, each once, in
/// increasing order.
pub fn all_choice_ids(details: &[NarrativeEventDetailsRow]) -> (res: Vec<u32>)
    ensures
        strictly_increasing(res@),
        res@.to_set() == choice_id_set(details@),
        res@ == sorted_choice_ids(details@),
{
    let mut res: Vec<u32> = Vec::new();
    let n = details.len();
    let mut i: usize = 0;
    assert(res@.to_set() =~= choice_id_set(details@.take(0)));
    while i < n
        invariant
            n == details@.len(),
            i <= n,
            strictly_increasing(res@),
            res@.to_set() == choice_id_set(details@.take(i as int)),
        decreases n - i,
    {
        let ghost before = res@;
        let ghost prefix = details@.take(i as int);
        let ghost next = details@.take(i + 1);
        assert forall|k: int| 0 <= k < i implies next[k] == prefix[k] by {}
        assert(next[i as int] == details@[i as int]);
        if let Some(c) = details[i].choice_id {
            let mut p: usize = 0;
            while p < res.len() && res[p] < c
                invariant
                    p <= res@.len(),
                    res@ == before,
                    forall|k: int| 0 <= k < p ==> res@[k] < c,
                decreases res@.len() - p,
            {
                p = p + 1;
            }
            assert forall|x: u32| choice_id_set(next).contains(x) <==> (choice_id_set(prefix).contains(x) || x == c) by {
                if choice_id_set(next).contains(x) {
                    let l = choose|l: int| 0 <= l < next.len() && next[l].choice_id == Some(x);
                    if l < i {
                        assert(prefix[l].choice_id == Some(x));
                    }
                }
                if choice_id_set(prefix).contains(x) {
                    let l = choose|l: int| 0 <= l < prefix.len() && prefix[l].choice_id == Some(x);
                    assert(next[l].choice_id == Some(x));
                }
                if x == c {
                    assert(next[i as int].choice_id == Some(x));
                }
            }
            assert(before.to_set() == choice_id_set(prefix));
            if p < res.len() && res[p] == c {
                assert(res@ == before);
                assert(before.to_set().contains(c));
                assert forall|x: u32| res@.to_set().contains(x) <==> (before.to_set().contains(x) || x == c) by {}
                assert(res@.to_set() =~= choice_id_set(next));
            } else {
                res.insert(p, c);
                assert forall|a: int, b: int| 0 <= a < b < res@.len() implies res@[a] < res@[b] by {
                    if b < p {
                    } else if b == p {
                    } else if a < p {
                        assert(res@[b] == before[b - 1]);
                    } else if a == p {
                        assert(res@[b] == before[b - 1]);
                        assert(before[p as int] > c);
                        if b - 1 > p {
                            assert(before[p as int] < before[b - 1]);
                        }
                    } else {
                        assert(res@[a] == before[a - 1]);
                        assert(res@[b] == before[b - 1]);
                    }
                }
                assert forall|x: u32| res@.to_set().contains(x) <==> choice_id_set(next).contains(x) by {
                    if res@.to_set().contains(x) {
                        let l = choose|l: int| 0 <= l < res@.len() && res@[l] == x;
                        if l < p {
                            assert(before[l] == x);
                        } else if l > p {
                            assert(before[l - 1] == x);
                        }
                    }
                    if before.to_set().contains(x) {
                        let l = choose|l: int| 0 <= l < before.len() && before[l] == x;
                        if l < p {
                            assert(res@[l] == x);
                        } else {
                            assert(res@[l + 1] == x);
                        }
                    }
                    if x == c {
                        assert(res@[p as int] == c);
                    }
                    assert(res@.to_set().contains(x) <==> (before.to_set().contains(x) || x == c));
                    assert(before.to_set().contains(x) <==> choice_id_set(prefix).contains(x));
                    assert(choice_id_set(next).contains(x) <==> (choice_id_set(prefix).contains(x) || x == c));
                }
                assert(res@.to_set() =~= choice_id_set(next));
            }
            assert(res@.to_set() =~= choice_id_set(next));
        } else {
            assert forall|x: u32| choice_id_set(next).contains(x) <==> choice_id_set(prefix).contains(x) by {
                if choice_id_set(next).contains(x) {
                    let l = choose|l: int| 0 <= l < next.len() && next[l].choice_id == Some(x);
                    if l < i {
                        assert(prefix[l].choice_id == Some(x));
                    }
                }
                if choice_id_set(prefix).contains(x) {
                    let l = choose|l: int| 0 <= l < prefix.len() && prefix[l].choice_id == Some(x);
                    assert(next[l].choice_id == Some(x));
                }
            }
            assert(res@.to_set() =~= choice_id_set(next));
        }
        i = i + 1;
    }
    assert(details@.take(n as int) =~= details@);
    proof {
        let s = sorted_choice_ids(details@);
        lemma_increasing_unique(s, res@);
    }
    res
}

/// The choice `choice_id` described by the detail rows of an event: its
/// choice row gives the description and required skill, its outcome row the
/// result, and its cost and reward rows the effects. Fails with the first
/// error in that order.
pub open spec fn choice_of(details: Seq<NarrativeEventDetailsRow>, choice_id: u32) -> Result<
    NarrativeEventChoiceView,
    TableError,
> {
    match single_row(
        rows_of_choice(details, NarrativeEventEntryKind::Choice, choice_id),
        NarrativeEventEntryKind::Choice,
    ) {
        Err(e) => Err(e),
        Ok(choice) => match single_row(
            rows_of_choice(details, NarrativeEventEntryKind::Outcome, choice_id),
            NarrativeEventEntryKind::Outcome,
        ) {
            Err(e) => Err(e),
            Ok(outcome) => match effects_of(details, choice_id, NarrativeEventEntryKind::Cost) {
                Err(e) => Err(e),
                Ok(costs) => match effects_of(details, choice_id, NarrativeEventEntryKind::Reward) {
                    Err(e) => Err(e),
                    Ok(rewards) => Ok(
                        NarrativeEventChoiceView {
                            choice_description: choice.description,
                            result_description: outcome.description,
                            skill: choice.required_skill,
                            costs,
                            rewards,
                        },
                    ),
                },
            },
        },
    }
}

/// The choices numbered by `ids`, keyed by number, failing with the error of
/// the first choice that cannot be built.
pub open spec fn choices_of(details: Seq<NarrativeEventDetailsRow>, ids: Seq<u32>) -> Result<
    Map<u32, NarrativeEventChoiceView>,
    TableError,
>
    decreases ids.len(),
{
    if ids.len() == 0 {
        Ok(Map::empty())
    } else {
        match choices_of(details, ids.drop_last()) {
            Err(e) => Err(e),
            Ok(m) => match choice_of(details, ids.last()) {
                Err(e) => Err(e),
                Ok(c) => Ok(m.insert(ids.last(), c)),
            },
        }
    }
}

/// The narrative event of `row`, described by the detail rows with its id:
/// its image, the description of its single introduction row, and its
/// choices in increasing order of number.
pub open spec fn event_of(row: NarrativeEventRow, details: Seq<NarrativeEventDetailsRow>) -> Result<
    NarrativeEventDataView,
    TableError,
> {
    let rows = details_of_event(details, row.id);
    match single_row(
        rows_of_kind(rows, NarrativeEventEntryKind::Introduction),
        NarrativeEventEntryKind::Introduction,
    ) {
        Err(e) => Err(e),
        Ok(intro) => match choices_of(rows, sorted_choice_ids(rows)) {
            Err(e) => Err(e),
            Ok(choices) => Ok(
                NarrativeEventDataView {
                    image: Sprite { address: row.image_path },
                    description: intro.description,
                    choices,
                },
            ),
        },
    }
}

/// The narrative events of the rows keyed by event id, the last row winning
/// where several share an id, failing with the error of the first event that
/// cannot be built.
pub open spec fn events_of(
    rows: Seq<NarrativeEventRow>,
    details: Seq<NarrativeEventDetailsRow>,
) -> Result<Map<u32, NarrativeEventDataView>, TableError>
    decreases rows.len(),
{
    if rows.len() == 0 {
        Ok(Map::empty())
    } else {
        match events_of(rows.drop_last(), details) {
            Err(e) => Err(e),
            Ok(m) => match event_of(rows.last(), details) {
                Err(e) => Err(e),
                Ok(event) => Ok(m.insert(rows.last().id, event)),
            },
        }
    }
}

/// Builds the choice `choice_id` from the detail rows of an event.
pub fn build_choice(details: &[NarrativeEventDetailsRow], choice_id: u32) -> (res: Result<
    (NarrativeChoiceId, NarrativeEventChoice),
    TableError,
>)
    ensures
        match res {
            Ok((id, choice)) => id.value == choice_id && choice_of(details@, choice_id) == Ok::<
                NarrativeEventChoiceView,
                TableError,
            >(choice@),
            Err(e) => choice_of(details@, choice_id) == Err::<NarrativeEventChoiceView, TableError>(
                e,
            ),
        },
{
    let id = NarrativeChoiceId::new(choice_id);
    let choice_description = find_choice_entry(details, NarrativeEventEntryKind::Choice, id)?.description;
    let result_description = find_choice_entry(details, NarrativeEventEntryKind::Outcome, id)?.description;
    let skill = find_choice_entry(details, NarrativeEventEntryKind::Choice, id)?.required_skill;
    let costs = effect_list(details, choice_id, NarrativeEventEntryKind::Cost)?;
    let rewards = effect_list(details, choice_id, NarrativeEventEntryKind::Reward)?;
    Ok((id, NarrativeEventChoice { choice_description, result_description, skill, costs, rewards }))
}

proof fn lemma_choices_error_persists(
    details: Seq<NarrativeEventDetailsRow>,
    ids: Seq<u32>,
    j: int,
)
    requires
        0 <= j <= ids.len(),
        choices_of(details, ids.take(j)) is Err,
    ensures
        choices_of(details, ids) == choices_of(details, ids.take(j)),
    decreases ids.len(),
{
    if j == ids.len() {
        assert(ids.take(j) =~= ids);
    } else {
        assert(ids.drop_last().take(j) =~= ids.take(j));
        lemma_choices_error_persists(details, ids.drop_last(), j);
    }
}

proof fn lemma_events_error_persists(
    rows: Seq<NarrativeEventRow>,
    details: Seq<NarrativeEventDetailsRow>,
    j: int,
)
    requires
        0 <= j <= rows.len(),
        events_of(rows.take(j), details) is Err,
    ensures
        events_of(rows, details) == events_of(rows.take(j), details),
    decreases rows.len(),
{
    if j == rows.len() {
        assert(rows.take(j) =~= rows);
    } else {
        assert(rows.drop_last().take(j) =~= rows.take(j));
        lemma_events_error_persists(rows.drop_last(), details, j);
    }
}

/// Builds every choice of an event from its detail rows, keyed by number.
fn build_choices(details: &[NarrativeEventDetailsRow]) -> (res: Result<
    HashMap<u32, NarrativeEventChoice>,
    TableError,
>)
    ensures
        match res {
            Ok(m) => choices_of(details@, sorted_choice_ids(details@)) == Ok::<
                Map<u32, NarrativeEventChoiceView>,
                TableError,
            >(m@.map_values(|c: NarrativeEventChoice| c@)),
            Err(e) => choices_of(details@, sorted_choice_ids(details@)) == Err::<
                Map<u32, NarrativeEventChoiceView>,
                TableError,
            >(e),
        },
{
    let ids = all_choice_ids(details);
    let mut result: HashMap<u32, NarrativeEventChoice> = HashMap::new();
    let n = ids.len();
    let mut i: usize = 0;
    assert(result@.map_values(|c: NarrativeEventChoice| c@) =~= Map::empty());
    while i < n
        invariant
            n == ids@.len(),
            i <= n,
            ids@ == sorted_choice_ids(details@),
            choices_of(details@, ids@.take(i as int)) == Ok::<
                Map<u32, NarrativeEventChoiceView>,
                TableError,
            >(result@.map_values(|c: NarrativeEventChoice| c@)),
        decreases n - i,
    {
        proof {
            assert(ids@.take(i + 1).drop_last() =~= ids@.take(i as int));
        }
        match build_choice(details, ids[i]) {
            Ok((id, choice)) => {
                let ghost before = result@;
                result.insert(id.value, choice);
                assert(result@.map_values(|c: NarrativeEventChoice| c@) =~= before.map_values(
                    |c: NarrativeEventChoice| c@,
                ).insert(ids@[i as int], choice@));
            },
            Err(e) => {
                proof {
                    lemma_choices_error_persists(details@, ids@, i + 1);
                }
                return Err(e);
            },
        }
        i = i + 1;
    }
    assert(ids@.take(n as int) =~= ids@);
    Ok(result)
}

/// Builds every narrative event from the event rows and their detail rows,
/// keyed by event id.
pub fn build(rows: Vec<NarrativeEventRow>, details: Vec<NarrativeEventDetailsRow>) -> (res: Result<
    HashMap<u32, NarrativeEventData>,
    TableError,
>)
    ensures
        match res {
            Ok(m) => events_of(rows@, details@) == Ok::<
                Map<u32, NarrativeEventDataView>,
                TableError,
            >(m@.map_values(|e: NarrativeEventData| e@)),
            Err(e) => events_of(rows@, details@) == Err::<
                Map<u32, NarrativeEventDataView>,
                TableError,
            >(e),
        },
{
    let mut result: HashMap<u32, NarrativeEventData> = HashMap::new();
    let n = rows.len();
    let mut i: usize = 0;
    assert(result@.map_values(|e: NarrativeEventData| e@) =~= Map::empty());
    while i < n
        invariant
            n == rows@.len(),
            i <= n,
            events_of(rows@.take(i as int), details@) == Ok::<
                Map<u32, NarrativeEventDataView>,
                TableError,
            >(result@.map_values(|e: NarrativeEventData| e@)),
        decreases n - i,
    {
        proof {
            assert(rows@.take(i + 1).drop_last() =~= rows@.take(i as int));
        }
        let row = &rows[i];
        let id = NarrativeEventId::new(row.id);
        let event_details = find_details(details.as_slice(), id);
        let intro = match find_entry(event_details.as_slice(), NarrativeEventEntryKind::Introduction) {
            Ok(entry) => entry,
            Err(e) => {
                proof {
                    lemma_events_error_persists(rows@, details@, i + 1);
                }
                return Err(e);
            },
        };
        let choices = match build_choices(event_details.as_slice()) {
            Ok(choices) => choices,
            Err(e) => {
                proof {
                    lemma_events_error_persists(rows@, details@, i + 1);
                }
                return Err(e);
            },
        };
        let data = NarrativeEventData {
            image: Sprite { address: row.image_path.clone() },
            description: intro.description,
            choices,
        };
        let ghost before = result@;
        result.insert(id.value, data);
        assert(result@.map_values(|e: NarrativeEventData| e@) =~= before.map_values(
            |e: NarrativeEventData| e@,
        ).insert(row.id, data@));
        i = i + 1;
    }
    assert(rows@.take(n as int) =~= rows@);
    Ok(result)
}

/// The kind of an effect: the kind of table row that describes it.
pub open spec fn kind_of_effect(effect: AdventureEffect) -> AdventureEffectKind {
    match effect {
        AdventureEffect::Draft(_) => AdventureEffectKind::Draft,
        AdventureEffect::Shop(_) => AdventureEffectKind::Shop,
        AdventureEffect::Battle => AdventureEffectKind::Battle,
        AdventureEffect::GainCoins(_) => AdventureEffectKind::GainCoins,
        AdventureEffect::LoseCoins(_) => AdventureEffectKind::LoseCoins,
        AdventureEffect::LoseAllCoins => AdventureEffectKind::LoseAllCoins,
        AdventureEffect::GainArcanite(_) => AdventureEffectKind::GainArcanite,
        AdventureEffect::PickCardForEffect(_, _) => AdventureEffectKind::PickCardForEffect,
        AdventureEffect::KnownRandomCardEffect(_, _) => AdventureEffectKind::KnownRandomCardEffect,
        AdventureEffect::UnknownRandomCardEffect(_, _) => AdventureEffectKind::UnknownRandomCardEffect,
        AdventureEffect::ApplyCardEffectToAllMatching(_, _) => AdventureEffectKind::ApplyCardEffectToAllMatching,
        AdventureEffect::AddMapTiles(_) => AdventureEffectKind::AddMapTiles,
        AdventureEffect::AddDraftTiles(_) => AdventureEffectKind::AddDraftTiles,
        AdventureEffect::AddNarrativeTiles(_) => AdventureEffectKind::AddNarrativeTiles,
        AdventureEffect::GainKnownFixedCard(_, _) => AdventureEffectKind::GainKnownFixedCard,
        AdventureEffect::GainKnownRandomCard(_, _) => AdventureEffectKind::GainKnownRandomCard,
        AdventureEffect::GainUnknownRandomCard(_, _) => AdventureEffectKind::GainUnknownRandomCard,
        AdventureEffect::PickCardToLose(_, _) => AdventureEffectKind::PickCardToLose,
        AdventureEffect::LoseKnownRandomCard(_, _) => AdventureEffectKind::LoseKnownRandomCard,
        AdventureEffect::LoseUnknownRandomCard(_, _) => AdventureEffectKind::LoseUnknownRandomCard,
    }
}

/// An effect built from a row is of the kind asked for, and carries the
/// row's description; narrative events are never built as effects.
pub proof fn lemma_built_effect_has_its_kind(row: NarrativeEventDetailsRow, kind: AdventureEffectKind)
    ensures
        effect_data_of_row(row, kind) matches Ok(data) ==> kind_of_effect(data.effect) == kind
            && data.description == row.description,
        kind == AdventureEffectKind::NarrativeEvent ==> effect_data_of_row(row, kind) is Err,
{
}

/// The amounts a row gives are the row's quantity: coins gained or lost,
/// arcanite gained and tiles added all equal it, and a row without a
/// quantity builds none of these effects.
pub proof fn lemma_built_effect_amounts(row: NarrativeEventDetailsRow)
    ensures
        row.quantity matches Some(q) ==> {
            &&& effect_of_row(row, AdventureEffectKind::GainCoins) == Ok::<
                AdventureEffect,
                TableError,
            >(AdventureEffect::GainCoins(Coins(q)))
            &&& effect_of_row(row, AdventureEffectKind::LoseCoins) == Ok::<
                AdventureEffect,
                TableError,
            >(AdventureEffect::LoseCoins(Coins(q)))
            &&& effect_of_row(row, AdventureEffectKind::GainArcanite) == Ok::<
                AdventureEffect,
                TableError,
            >(AdventureEffect::GainArcanite(q))
            &&& effect_of_row(row, AdventureEffectKind::AddMapTiles) == Ok::<
                AdventureEffect,
                TableError,
            >(AdventureEffect::AddMapTiles(q))
            &&& effect_of_row(row, AdventureEffectKind::AddDraftTiles) == Ok::<
                AdventureEffect,
                TableError,
            >(AdventureEffect::AddDraftTiles(q))
            &&& effect_of_row(row, AdventureEffectKind::AddNarrativeTiles) == Ok::<
                AdventureEffect,
                TableError,
            >(AdventureEffect::AddNarrativeTiles(q))
        },
        row.quantity is None ==> {
            &&& effect_of_row(row, AdventureEffectKind::GainCoins) == Err::<
                AdventureEffect,
                TableError,
            >(TableError::MissingQuantity)
            &&& effect_of_row(row, AdventureEffectKind::LoseCoins) == Err::<
                AdventureEffect,
                TableError,
            >(TableError::MissingQuantity)
        },
{
}

} // verus!
