//! Builds the game's data tables (card filters and narrative events) from
//! the rows of their CSV sources.
use std::collections::HashMap;
use vstd::prelude::*;

use crate::adventure::{
    CardFilter, CardFilterId, CardFilterView, NarrativeEventData, NarrativeEventDataView,
    NarrativeEventId,
};
use crate::game_tables::card_filters_table::{filters_by_id, CardFilterTable};
use crate::game_tables::csv_datatypes::{
    CardFilterRow, NarrativeEventDetailsRow, NarrativeEventEntryKind, NarrativeEventRow,
};
use crate::game_tables::narrative_events_table::events_of;

pub mod card_filters_table;
pub mod csv_datatypes;
pub mod narrative_events_table;

verus! {

/// Why a table could not be built.
#[derive(Clone, Copy, Debug, PartialEq, Eq, Structural)]
pub enum TableError {
    /// A row whose effect needs a quantity has none.
    MissingQuantity,
    /// A row whose effect needs a deck card action has none.
    MissingDeckCardAction,
    /// A row whose effect needs a card filter has none.
    MissingCardFilterId,
    /// A row whose effect needs a card name has none.
    MissingCardName,
    /// A row names an effect kind which narrative events cannot have.
    UnsupportedEffect,
    /// Exactly one row of the given kind was expected but `count` were found.
    WrongEntryCount { kind: NarrativeEventEntryKind, count: usize },
}

broadcast use vstd::std_specs::hash::group_hash_axioms;

/// The card filters and narrative events of the game, keyed by id.
pub struct GameTables {
    pub card_filters: HashMap<u32, CardFilter>,
    pub narrative_events: HashMap<u32, NarrativeEventData>,
}

impl GameTables {
    /// The card filters keyed by id.
    pub open spec fn filters(&self) -> Map<u32, CardFilterView> {
        self.card_filters@.map_values(|f: CardFilter| f@)
    }

    /// The narrative events keyed by id.
    pub open spec fn events(&self) -> Map<u32, NarrativeEventDataView> {
        self.narrative_events@.map_values(|e: NarrativeEventData| e@)
    }

    /// Builds the tables from the rows of the card filters, narrative events
    /// and narrative event details tables.
    pub fn initialize(
        card_filters: Vec<CardFilterRow>,
        narrative_events: Vec<NarrativeEventRow>,
        narrative_event_details: Vec<NarrativeEventDetailsRow>,
    ) -> (res: Result<GameTables, TableError>)
        ensures
            match res {
                Ok(tables) => tables.filters() == filters_by_id(card_filters@) && events_of(
                    narrative_events@,
                    narrative_event_details@,
                ) == Ok::<Map<u32, NarrativeEventDataView>, TableError>(tables.events()),
                Err(e) => events_of(narrative_events@, narrative_event_details@) == Err::<
                    Map<u32, NarrativeEventDataView>,
                    TableError,
                >(e),
            },
    {
        let mut table = CardFilterTable::new();
        let ghost rows = card_filters@;
        for row in iter: card_filters
            invariant
                iter.seq() == rows,
                table@ == rows.take(iter.index()),
        {
            proof {
                assert(rows.take(iter.index() + 1) =~= rows.take(iter.index()).push(row));
            }
            table.import_row(row);
        }
        assert(rows.take(rows.len() as int) =~= rows);
        let filters = match table.build() {
            Ok(filters) => filters,
            Err(e) => {
                return Err(e);
            },
        };
        let events = narrative_events_table::build(narrative_events, narrative_event_details)?;
        Ok(GameTables { card_filters: filters, narrative_events: events })
    }

    /// The card filter with the given id, which must exist.
    pub fn card_filter(&self, id: CardFilterId) -> (res: &CardFilter)
        requires
            self.card_filters@.contains_key(id.value),
        ensures
            *res == self.card_filters@[id.value],
    {
        self.card_filters.get(&id.value).unwrap()
    }

    /// The narrative event with the given id, which must exist.
    pub fn narrative_event(&self, id: NarrativeEventId) -> (res: &NarrativeEventData)
        requires
            self.narrative_events@.contains_key(id.value),
        ensures
            *res == self.narrative_events@[id.value],
    {
        self.narrative_events.get(&id.value).unwrap()
    }
}

} // verus!
