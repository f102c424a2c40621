# spelldawn

Client-side logic of the Spelldawn card game, written in Verus: every
function in `src/` carries a contract that Verus proves.

- `src/protos` — the client protocol's enumerations (wire names and numbers,
  with a proof that each decodes back to itself) and the messages the
  library builds.
- `src/adventure.rs`, `src/game_tables` — adventure data, and the building of
  card filters and narrative events from the rows of the game's CSV tables.
- `src/deck_editor.rs` — deck edits, with laws on undoing an edit and on the
  invariants every edit keeps.
- `src/raid_state.rs` — the decisions of the raid state machine.
- `src/delegates.rs` — the registry of card delegates, with the law that
  removing a card's delegates undoes adding them.
- `src/positions.rs`, `src/position_overrides.rs`, `src/display.rs`,
  `src/prompt_labels.rs` — where objects are displayed, which animations and
  controls are shown, and the text of prompts.
- `src/element_names.rs`, `src/logging.rs`, `src/text.rs` — element names,
  log tags and the text utilities they use.

`app/` holds what talks to the outside world: reading the CSV tables and
installing the log subscriber. `tests/` exercises the library on concrete
values.
