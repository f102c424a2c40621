//! Positions which prompts, raids and the opening hand impose on game
//! objects, overriding where the objects would otherwise be displayed.
use vstd::prelude::*;

use crate::adventure::Side;
use crate::display::{player_name, spec_player_name, DisplayPreference};
use crate::positions::{
    character, client_item_location, client_room_location, deck, discard, display_shelf, item,
    offscreen, room, scoring, spec_room_identifier, ItemLocation, RoomLocation,
};
use crate::positions::{
    card_browser, card_browser_target_position, card_choice_browser, for_ability, for_card,
    for_sorting_key, hand, hand_storage, raid, revealed_cards, staging, CardId, GameObjectId,
};
use crate::protos::game_enums::{GameCharacterFacingDirection, PlayerName};
use crate::protos::messages::{
    ObjectPositionCharacter, ObjectPositionDeck, ObjectPositionDiscardPile, ObjectPositionItem,
    ObjectPositionOffscreen, ObjectPositionRiftcallers, ObjectPositionRoom, ObjectPositionScoring,
};
use crate::protos::messages::{
    ObjectPosition, ObjectPositionBrowser, ObjectPositionBrowserDragTarget,
    ObjectPositionCardChoiceBrowser, ObjectPositionHand, ObjectPositionHandStorage,
    ObjectPositionRaid, ObjectPositionRevealedCards, ObjectPositionStaging, Position,
};
use crate::protos::game_enums::RevealedCardsBrowserSize;
use crate::raid_state::RoomId;

verus! {

/// Where the cards chosen in a card selector go.
#[derive(Clone, Copy, Debug, PartialEq, Eq, Structural)]
pub enum SelectorPromptTarget {
    DiscardPile,
    DeckTop,
    DeckShuffled,
}

/// The cards a button prompt refers to: the card the prompt is about, if
/// any, and for each choice the card it is anchored to, if any.
#[derive(Debug)]
pub struct ButtonPromptCards {
    pub context_card: Option<CardId>,
    pub anchor_cards: Vec<Option<CardId>>,
}

/// The cards of a card selector: those still to choose from and those
/// chosen, each in display order, and where the chosen cards go.
#[derive(Debug)]
pub struct CardSelectorCards {
    pub target: SelectorPromptTarget,
    pub unchosen_subjects: Vec<CardId>,
    pub chosen_subjects: Vec<CardId>,
}

/// The prompt a player is currently shown, with the cards it refers to.
#[derive(Debug)]
pub enum CurrentPrompt {
    ButtonPrompt(ButtonPromptCards),
    CardSelector(CardSelectorCards),
    /// Browses the cards which may be played.
    PlayCardBrowser(Vec<CardId>),
    PriorityPrompt,
    RoomSelector,
}

/// What the raid display shows: nothing, the defenders of the target room
/// (the given minions), or the cards being accessed.
#[derive(Debug)]
pub enum RaidDisplayState {
    NoDisplay,
    Defenders(Vec<CardId>),
    Access,
}

/// A raid as the display sees it: its target, what the raid display shows,
/// and the cards that can appear in it.
#[derive(Debug)]
pub struct RaidScene {
    pub target: RoomId,
    pub display: RaidDisplayState,
    /// The cards occupying the target room.
    pub occupants: Vec<CardId>,
    /// The cards in the Covenant player's hand.
    pub covenant_hand: Vec<CardId>,
    /// The cards in the Covenant player's discard pile.
    pub covenant_discard: Vec<CardId>,
    /// The cards accessed so far.
    pub accessed: Vec<CardId>,
}

/// The phase of the game, as far as position overrides depend on it.
#[derive(Clone, Copy, Debug, PartialEq, Eq, Structural)]
pub enum PhaseView {
    /// Opening hands are being decided on; `user_has_decided` tells whether
    /// the user has made their decision.
    ResolveMulligans { user_has_decided: bool },
    Play,
    GameOver,
}

/// The index of the first occurrence of `x` in `s`, if any.
pub open spec fn first_position<T>(s: Seq<T>, x: T) -> Option<int>
    decreases s.len(),
{
    if s.len() == 0 {
        None
    } else if s[0] == x {
        Some(0)
    } else {
        match first_position(s.drop_first(), x) {
            Some(i) => Some(i + 1),
            None => None,
        }
    }
}

/// When none of the first `i` elements of `s` is `x`, the first occurrence
/// of `x` in `s` is that in `s.skip(i)`, shifted by `i`.
proof fn lemma_first_position_skip<T>(s: Seq<T>, x: T, i: int)
    requires
        0 <= i <= s.len(),
        forall|j: int| 0 <= j < i ==> s[j] != x,
    ensures
        first_position(s, x) == match first_position(s.skip(i), x) {
            Some(k) => Some(k + i),
            None => None::<int>,
        },
    decreases i,
{
    if i > 0 {
        assert(s[0] != x);
        let t = s.drop_first();
        assert forall|j: int| 0 <= j < i - 1 implies t[j] != x by {
            assert(t[j] == s[j + 1]);
        }
        lemma_first_position_skip(t, x, i - 1);
        assert(t.skip(i - 1) =~= s.skip(i));
    } else {
        assert(s.skip(0) =~= s);
    }
}

/// The index of the first occurrence of `card` in `cards`.
fn first_card_index(cards: &Vec<CardId>, card: CardId) -> (res: Option<usize>)
    ensures
        match res {
            Some(i) => i < cards@.len() && first_position(cards@, card) == Some(i as int),
            None => first_position(cards@, card) is None,
        },
{
    let n = cards.len();
    let mut i: usize = 0;
    while i < n
        invariant
            n == cards@.len(),
            i <= n,
            forall|j: int| 0 <= j < i ==> cards@[j] != card,
        decreases n - i,
    {
        if cards[i] == card {
            proof {
                lemma_first_position_skip(cards@, card, i as int);
                assert(cards@.skip(i as int)[0] == card);
            }
            return Some(i);
        }
        i = i + 1;
    }
    proof {
        lemma_first_position_skip(cards@, card, n as int);
        assert(cards@.skip(n as int).len() == 0);
    }
    None
}

/// The index of the first occurrence of `id` in `objects`.
fn first_object_index(objects: &Vec<GameObjectId>, id: GameObjectId) -> (res: Option<usize>)
    ensures
        match res {
            Some(i) => first_position(objects@, id) == Some(i as int),
            None => first_position(objects@, id) is None,
        },
{
    let n = objects.len();
    let mut i: usize = 0;
    while i < n
        invariant
            n == objects@.len(),
            i <= n,
            forall|j: int| 0 <= j < i ==> objects@[j] != id,
        decreases n - i,
    {
        if objects[i] == id {
            proof {
                lemma_first_position_skip(objects@, id, i as int);
                assert(objects@.skip(i as int)[0] == id);
            }
            return Some(i);
        }
        i = i + 1;
    }
    proof {
        lemma_first_position_skip(objects@, id, n as int);
        assert(objects@.skip(n as int).len() == 0);
    }
    None
}

/// Whether one of the choices of a button prompt is anchored to `card`.
fn anchors_card(anchors: &Vec<Option<CardId>>, card: CardId) -> (res: bool)
    ensures
        res == anchors@.contains(Some(card)),
{
    let n = anchors.len();
    let mut i: usize = 0;
    while i < n
        invariant
            n == anchors@.len(),
            i <= n,
            forall|j: int| 0 <= j < i ==> anchors@[j] != Some(card),
        decreases n - i,
    {
        if let Some(c) = anchors[i] {
            if c == card {
                assert(anchors@[i as int] == Some(card));
                return true;
            }
        }
        i = i + 1;
    }
    false
}

/// Whether `cards` holds `card`.
fn holds_card(cards: &Vec<CardId>, card: CardId) -> (res: bool)
    ensures
        res == cards@.contains(card),
{
    let n = cards.len();
    let mut i: usize = 0;
    while i < n
        invariant
            n == cards@.len(),
            i <= n,
            forall|j: int| 0 <= j < i ==> cards@[j] != card,
        decreases n - i,
    {
        if cards[i] == card {
            assert(cards@[i as int] == card);
            return true;
        }
        i = i + 1;
    }
    false
}

/// The position of a card with the given sorting key, in front of objects
/// sharing the key.
pub open spec fn card_at(sorting_key: u32, position: Position) -> ObjectPosition {
    ObjectPosition {
        position: Some(position),
        sorting_key: (sorting_key + 1) as u32,
        sorting_subkey: 0,
    }
}

/// The position of the subject with index `index` in a card selector.
pub open spec fn selector_slot(index: int, position: Position) -> ObjectPosition {
    ObjectPosition { sorting_key: (10 + index) as u32, sorting_subkey: 0, position: Some(position) }
}

/// Whether position overrides are switched off: while the player views the
/// arena, browses cards to play or selects a room.
pub open spec fn spec_overrides_disabled(
    preference: Option<DisplayPreference>,
    prompt: Option<CurrentPrompt>,
) -> bool {
    ||| preference == Some(DisplayPreference::ShowArenaView(true))
    ||| (prompt matches Some(CurrentPrompt::PlayCardBrowser(_)))
    ||| (prompt matches Some(CurrentPrompt::RoomSelector))
}

/// Whether position overrides are switched off: while the player views the
/// arena, browses cards to play or selects a room.
pub fn overrides_disabled(preference: Option<DisplayPreference>, prompt: &Option<CurrentPrompt>) -> (res:
    bool)
    ensures
        res == spec_overrides_disabled(preference, *prompt),
{
    if let Some(DisplayPreference::ShowArenaView(true)) = preference {
        return true;
    }
    match prompt {
        Some(CurrentPrompt::PlayCardBrowser(_)) => true,
        Some(CurrentPrompt::RoomSelector) => true,
        _ => false,
    }
}

/// Whether the selector lists of a prompt are short enough for their
/// indices, offset by ten, to be sorting keys.
pub open spec fn selector_fits(prompt: Option<CurrentPrompt>) -> bool {
    prompt matches Some(CurrentPrompt::CardSelector(s)) ==> s.unchosen_subjects@.len() + 10
        <= u32::MAX && s.chosen_subjects@.len() + 10 <= u32::MAX
}

/// The position the user's current prompt gives a card with the given
/// sorting key: the card a button prompt is about goes to the card browser
/// and the cards its choices are anchored to go to the choice browser; the
/// subjects of a card selector line up in the browser, or once chosen at its
/// drag target, in display order; the cards which may be played stay in
/// their owner's hand; and otherwise the user's hand is set aside while a
/// card selector, card browser or room selector is shown.
pub open spec fn spec_prompt_override(
    prompt: Option<CurrentPrompt>,
    preference: Option<DisplayPreference>,
    card: CardId,
    sorting_key: u32,
    in_user_hand: bool,
    owner: PlayerName,
) -> Option<ObjectPosition> {
    let disabled = spec_overrides_disabled(preference, prompt);
    let stored = if in_user_hand {
        Some(card_at(sorting_key, Position::HandStorage(ObjectPositionHandStorage {})))
    } else {
        None
    };
    match prompt {
        None => None,
        Some(CurrentPrompt::ButtonPrompt(b)) => if disabled {
            None
        } else if b.context_card == Some(card) {
            Some(card_at(sorting_key, Position::Browser(ObjectPositionBrowser {})))
        } else if b.anchor_cards@.contains(Some(card)) {
            Some(card_at(sorting_key, Position::CardChoiceBrowser(ObjectPositionCardChoiceBrowser {})))
        } else {
            None
        },
        Some(CurrentPrompt::CardSelector(s)) => if disabled {
            None
        } else {
            match first_position(s.unchosen_subjects@, card) {
                Some(i) => Some(selector_slot(i, Position::Browser(ObjectPositionBrowser {}))),
                None => match first_position(s.chosen_subjects@, card) {
                    Some(i) => Some(
                        selector_slot(
                            i,
                            Position::BrowserDragTarget(ObjectPositionBrowserDragTarget {}),
                        ),
                    ),
                    None => stored,
                },
            }
        },
        Some(CurrentPrompt::PlayCardBrowser(cards)) => if cards@.contains(card) {
            Some(card_at(sorting_key, Position::Hand(ObjectPositionHand { owner: owner.spec_value() })))
        } else {
            stored
        },
        Some(CurrentPrompt::PriorityPrompt) => None,
        Some(CurrentPrompt::RoomSelector) => stored,
    }
}

/// The position the user's current prompt gives a card, as
/// [spec_prompt_override] describes. `owner` names the player who owns the
/// card, and `in_user_hand` tells whether it is in the user's hand.
pub fn prompt_position_override(
    prompt: &Option<CurrentPrompt>,
    preference: Option<DisplayPreference>,
    card: CardId,
    sorting_key: u32,
    in_user_hand: bool,
    owner: PlayerName,
) -> (res: Option<ObjectPosition>)
    requires
        sorting_key < u32::MAX,
        selector_fits(*prompt),
    ensures
        res == spec_prompt_override(*prompt, preference, card, sorting_key, in_user_hand, owner),
{
    let disabled = overrides_disabled(preference, prompt);
    let stored = if in_user_hand {
        Some(for_card(sorting_key, hand_storage()))
    } else {
        None
    };
    match prompt {
        None => None,
        Some(CurrentPrompt::ButtonPrompt(b)) => {
            if disabled {
                None
            } else if b.context_card == Some(card) {
                Some(for_card(sorting_key, card_browser()))
            } else if anchors_card(&b.anchor_cards, card) {
                Some(for_card(sorting_key, card_choice_browser()))
            } else {
                None
            }
        },
        Some(CurrentPrompt::CardSelector(s)) => {
            if disabled {
                return None;
            }
            if let Some(i) = first_card_index(&s.unchosen_subjects, card) {
                Some(
                    ObjectPosition {
                        sorting_key: 10 + i as u32,
                        sorting_subkey: 0,
                        position: Some(card_browser()),
                    },
                )
            } else if let Some(i) = first_card_index(&s.chosen_subjects, card) {
                Some(
                    ObjectPosition {
                        sorting_key: 10 + i as u32,
                        sorting_subkey: 0,
                        position: Some(card_browser_target_position()),
                    },
                )
            } else {
                stored
            }
        },
        Some(CurrentPrompt::PlayCardBrowser(cards)) => {
            if holds_card(cards, card) {
                Some(for_card(sorting_key, hand(owner)))
            } else {
                stored
            }
        },
        Some(CurrentPrompt::PriorityPrompt) => None,
        Some(CurrentPrompt::RoomSelector) => stored,
    }
}

/// The position the opponent's current prompt gives a card: a button prompt
/// about the card shows it in the card browser.
pub open spec fn spec_opponent_prompt_override(
    opponent_prompt: Option<CurrentPrompt>,
    card: CardId,
    sorting_key: u32,
) -> Option<ObjectPosition> {
    match opponent_prompt {
        Some(CurrentPrompt::ButtonPrompt(b)) => if b.context_card == Some(card) {
            Some(card_at(sorting_key, Position::Browser(ObjectPositionBrowser {})))
        } else {
            None
        },
        _ => None,
    }
}

/// The position the opponent's current prompt gives a card.
pub fn opponent_prompt_position_override(
    opponent_prompt: &Option<CurrentPrompt>,
    card: CardId,
    sorting_key: u32,
) -> (res: Option<ObjectPosition>)
    requires
        sorting_key < u32::MAX,
    ensures
        res == spec_opponent_prompt_override(*opponent_prompt, card, sorting_key),
{
    if let Some(CurrentPrompt::ButtonPrompt(b)) = opponent_prompt {
        if b.context_card == Some(card) {
            return Some(for_card(sorting_key, card_browser()));
        }
    }
    None
}

/// The object standing for the pile that the cards chosen in a card
/// selector go to.
pub open spec fn selector_target_object(target: SelectorPromptTarget, user_side: Side) -> GameObjectId {
    match target {
        SelectorPromptTarget::DiscardPile => GameObjectId::DiscardPile(user_side),
        SelectorPromptTarget::DeckTop => GameObjectId::Deck(user_side),
        SelectorPromptTarget::DeckShuffled => GameObjectId::Deck(user_side),
    }
}

/// The objects the raid browser shows while the defenders of a room are
/// displayed: the Covenant object standing for the target room (its deck
/// for the vault, its character for the sanctum, its discard pile for the
/// crypts), then the room's occupants, then its defenders, and last the
/// Riftcaller character.
pub open spec fn spec_raid_browser(target: RoomId, occupants: Seq<CardId>, defenders: Seq<CardId>) -> Seq<
    GameObjectId,
> {
    let room = match target {
        RoomId::Vault => seq![GameObjectId::Deck(Side::Covenant)],
        RoomId::Sanctum => seq![GameObjectId::Character(Side::Covenant)],
        RoomId::Crypts => seq![GameObjectId::DiscardPile(Side::Covenant)],
        _ => Seq::empty(),
    };
    room + occupants.map_values(|c: CardId| GameObjectId::CardId(c)) + defenders.map_values(
        |c: CardId| GameObjectId::CardId(c),
    ) + seq![GameObjectId::Character(Side::Riftcaller)]
}

/// Appends each card of `cards`, as a game object, to `objects`.
fn push_cards(objects: &mut Vec<GameObjectId>, cards: &Vec<CardId>)
    ensures
        final(objects)@ == old(objects)@ + cards@.map_values(|c: CardId| GameObjectId::CardId(c)),
{
    let n = cards.len();
    let mut i: usize = 0;
    let ghost start = objects@;
    while i < n
        invariant
            n == cards@.len(),
            i <= n,
            objects@ == start + cards@.take(i as int).map_values(
                |c: CardId| GameObjectId::CardId(c),
            ),
        decreases n - i,
    {
        objects.push(GameObjectId::CardId(cards[i]));
        proof {
            assert(cards@.take(i + 1).map_values(|c: CardId| GameObjectId::CardId(c)) =~= cards@.take(
                i as int,
            ).map_values(|c: CardId| GameObjectId::CardId(c)).push(GameObjectId::CardId(cards@[i as int])));
        }
        i = i + 1;
    }
    assert(cards@.take(n as int) =~= cards@);
}

/// The objects the raid browser shows while the defenders of the target
/// room are displayed, as [spec_raid_browser] describes.
pub fn raid_browser(target: RoomId, occupants: &Vec<CardId>, defenders: &Vec<CardId>) -> (res: Vec<
    GameObjectId,
>)
    ensures
        res@ == spec_raid_browser(target, occupants@, defenders@),
{
    let mut result: Vec<GameObjectId> = Vec::new();
    match target {
        RoomId::Vault => {
            result.push(GameObjectId::Deck(Side::Covenant));
        },
        RoomId::Sanctum => {
            result.push(GameObjectId::Character(Side::Covenant));
        },
        RoomId::Crypts => {
            result.push(GameObjectId::DiscardPile(Side::Covenant));
        },
        _ => {},
    }
    let ghost room = result@;
    push_cards(&mut result, occupants);
    push_cards(&mut result, defenders);
    result.push(GameObjectId::Character(Side::Riftcaller));
    proof {
        let occ = occupants@.map_values(|c: CardId| GameObjectId::CardId(c));
        let def = defenders@.map_values(|c: CardId| GameObjectId::CardId(c));
        assert(result@ =~= room + occ + def + seq![GameObjectId::Character(Side::Riftcaller)]);
    }
    result
}

/// The objects the raid browser shows while cards are accessed: the
/// Covenant hand when raiding the sanctum, its discard pile when raiding the
/// crypts, and otherwise the accessed cards.
pub open spec fn spec_raid_access_browser(raid: RaidScene) -> Seq<GameObjectId> {
    let cards = match raid.target {
        RoomId::Sanctum => raid.covenant_hand@,
        RoomId::Crypts => raid.covenant_discard@,
        _ => raid.accessed@,
    };
    cards.map_values(|c: CardId| GameObjectId::CardId(c))
}

/// The objects the raid browser shows while cards are accessed, as
/// [spec_raid_access_browser] describes.
pub fn raid_access_browser(raid: &RaidScene) -> (res: Vec<GameObjectId>)
    ensures
        res@ == spec_raid_access_browser(*raid),
{
    let mut result: Vec<GameObjectId> = Vec::new();
    let cards = match raid.target {
        RoomId::Sanctum => &raid.covenant_hand,
        RoomId::Crypts => &raid.covenant_discard,
        _ => &raid.accessed,
    };
    push_cards(&mut result, cards);
    assert(result@ =~= spec_raid_access_browser(*raid));
    result
}

/// The position of `id` in a browser at `position` showing `browser`, keyed
/// by its first index there.
pub open spec fn spec_browser_position(id: GameObjectId, position: Position, browser: Seq<GameObjectId>) -> Option<
    ObjectPosition,
> {
    match first_position(browser, id) {
        Some(i) => Some(ObjectPosition { sorting_key: i as u32, sorting_subkey: 0, position: Some(position) }),
        None => None,
    }
}

/// Whether the lists of a raid are short enough for every index in its
/// browsers to be a sorting key.
pub open spec fn raid_fits(raid: RaidScene) -> bool {
    &&& raid.occupants@.len() + match raid.display {
        RaidDisplayState::Defenders(d) => d@.len(),
        _ => 0,
    } + 2 <= u32::MAX
    &&& raid.covenant_hand@.len() <= u32::MAX
    &&& raid.covenant_discard@.len() <= u32::MAX
    &&& raid.accessed@.len() <= u32::MAX
}

/// Whether the raid, if any, fits as [raid_fits] describes.
pub open spec fn optional_raid_fits(raid: Option<RaidScene>) -> bool {
    match raid {
        Some(r) => raid_fits(r),
        None => true,
    }
}

/// The position a raid gives an object: its place in the raid browser
/// while the defenders are displayed, or in the card browser while cards
/// are accessed.
pub open spec fn spec_raid_override(raid: Option<RaidScene>, id: GameObjectId) -> Option<ObjectPosition> {
    match raid {
        None => None,
        Some(r) => match r.display {
            RaidDisplayState::NoDisplay => None,
            RaidDisplayState::Defenders(defenders) => spec_browser_position(
                id,
                Position::Raid(ObjectPositionRaid {}),
                spec_raid_browser(r.target, r.occupants@, defenders@),
            ),
            RaidDisplayState::Access => spec_browser_position(
                id,
                Position::Browser(ObjectPositionBrowser {}),
                spec_raid_access_browser(r),
            ),
        },
    }
}

/// The position of `id` in a browser showing `browser`.
fn position_in_browser(id: GameObjectId, position: Position, browser: &Vec<GameObjectId>) -> (res:
    Option<ObjectPosition>)
    requires
        browser@.len() <= u32::MAX,
    ensures
        res == spec_browser_position(id, position, browser@),
{
    match first_object_index(browser, id) {
        Some(i) => Some(ObjectPosition { sorting_key: i as u32, sorting_subkey: 0, position: Some(position) }),
        None => None,
    }
}

/// The position a raid gives an object, as [spec_raid_override] describes.
pub fn raid_position_override(raid: &Option<RaidScene>, id: GameObjectId) -> (res: Option<
    ObjectPosition,
>)
    requires
        optional_raid_fits(*raid),
    ensures
        res == spec_raid_override(*raid, id),
{
    match raid {
        None => None,
        Some(r) => match &r.display {
            RaidDisplayState::NoDisplay => None,
            RaidDisplayState::Defenders(defenders) => {
                let browser = raid_browser(r.target, &r.occupants, defenders);
                position_in_browser(id, self::raid(), &browser)
            },
            RaidDisplayState::Access => {
                let browser = raid_access_browser(r);
                position_in_browser(id, card_browser(), &browser)
            },
        },
    }
}

/// The position given to a deck, discard pile or character: a card
/// selector's target pile is its drag target, and otherwise the raid
/// decides.
pub open spec fn spec_non_card_override(
    prompt: Option<CurrentPrompt>,
    user_side: Side,
    raid: Option<RaidScene>,
    id: GameObjectId,
) -> Option<ObjectPosition> {
    match prompt {
        Some(CurrentPrompt::CardSelector(s)) => if id == selector_target_object(s.target, user_side) {
            Some(
                ObjectPosition {
                    sorting_key: 1,
                    sorting_subkey: 0,
                    position: Some(Position::BrowserDragTarget(ObjectPositionBrowserDragTarget {})),
                },
            )
        } else {
            spec_raid_override(raid, id)
        },
        _ => spec_raid_override(raid, id),
    }
}

/// The position given to a deck, discard pile or character, as
/// [spec_non_card_override] describes.
pub fn non_card_position_override(
    prompt: &Option<CurrentPrompt>,
    user_side: Side,
    raid: &Option<RaidScene>,
    id: GameObjectId,
) -> (res: Option<ObjectPosition>)
    requires
        optional_raid_fits(*raid),
    ensures
        res == spec_non_card_override(*prompt, user_side, *raid, id),
{
    if let Some(CurrentPrompt::CardSelector(s)) = prompt {
        let target = match s.target {
            SelectorPromptTarget::DiscardPile => GameObjectId::DiscardPile(user_side),
            SelectorPromptTarget::DeckTop => GameObjectId::Deck(user_side),
            SelectorPromptTarget::DeckShuffled => GameObjectId::Deck(user_side),
        };
        if id == target {
            return Some(for_sorting_key(0, card_browser_target_position()));
        }
    }
    raid_position_override(raid, id)
}

/// The position of a card in the user's opening hand while they have not
/// yet decided whether to keep it: the large revealed cards browser.
pub open spec fn spec_opening_hand_override(user_has_decided: bool, in_user_hand: bool, sorting_key: u32) -> Option<
    ObjectPosition,
> {
    if !user_has_decided && in_user_hand {
        Some(
            card_at(
                sorting_key,
                Position::Revealed(
                    ObjectPositionRevealedCards { size: RevealedCardsBrowserSize::Large.spec_value() },
                ),
            ),
        )
    } else {
        None
    }
}

/// The position of a card in the user's opening hand, as
/// [spec_opening_hand_override] describes.
pub fn opening_hand_position_override(user_has_decided: bool, in_user_hand: bool, sorting_key: u32) -> (res:
    Option<ObjectPosition>)
    requires
        sorting_key < u32::MAX,
    ensures
        res == spec_opening_hand_override(user_has_decided, in_user_hand, sorting_key),
{
    if !user_has_decided && in_user_hand {
        Some(for_card(sorting_key, revealed_cards(true)))
    } else {
        None
    }
}

/// The position overriding where a card is displayed: that of the user's
/// prompt first; then, unless overrides are switched off, that of the
/// opponent's prompt, and last that of the phase -- the opening hand while
/// mulligans are resolved, the raid during play.
pub open spec fn spec_position_override(
    prompt: Option<CurrentPrompt>,
    opponent_prompt: Option<CurrentPrompt>,
    preference: Option<DisplayPreference>,
    phase: PhaseView,
    raid: Option<RaidScene>,
    card: CardId,
    sorting_key: u32,
    in_user_hand: bool,
    owner: PlayerName,
) -> Option<ObjectPosition> {
    match spec_prompt_override(prompt, preference, card, sorting_key, in_user_hand, owner) {
        Some(o) => Some(o),
        None => if spec_overrides_disabled(preference, prompt) {
            None
        } else {
            match spec_opponent_prompt_override(opponent_prompt, card, sorting_key) {
                Some(o) => Some(o),
                None => match phase {
                    PhaseView::ResolveMulligans { user_has_decided } => spec_opening_hand_override(
                        user_has_decided,
                        in_user_hand,
                        sorting_key,
                    ),
                    PhaseView::Play => spec_raid_override(raid, GameObjectId::CardId(card)),
                    PhaseView::GameOver => None,
                },
            }
        },
    }
}

/// The position overriding where a card is displayed, as
/// [spec_position_override] describes.
pub fn position_override(
    prompt: &Option<CurrentPrompt>,
    opponent_prompt: &Option<CurrentPrompt>,
    preference: Option<DisplayPreference>,
    phase: PhaseView,
    raid: &Option<RaidScene>,
    card: CardId,
    sorting_key: u32,
    in_user_hand: bool,
    owner: PlayerName,
) -> (res: Option<ObjectPosition>)
    requires
        sorting_key < u32::MAX,
        selector_fits(*prompt),
        optional_raid_fits(*raid),
    ensures
        res == spec_position_override(
            *prompt,
            *opponent_prompt,
            preference,
            phase,
            *raid,
            card,
            sorting_key,
            in_user_hand,
            owner,
        ),
{
    if let Some(o) = prompt_position_override(
        prompt,
        preference,
        card,
        sorting_key,
        in_user_hand,
        owner,
    ) {
        return Some(o);
    }
    if overrides_disabled(preference, prompt) {
        return None;
    }
    if let Some(o) = opponent_prompt_position_override(opponent_prompt, card, sorting_key) {
        return Some(o);
    }
    match phase {
        PhaseView::ResolveMulligans { user_has_decided } => opening_hand_position_override(
            user_has_decided,
            in_user_hand,
            sorting_key,
        ),
        PhaseView::Play => raid_position_override(raid, GameObjectId::CardId(card)),
        PhaseView::GameOver => None,
    }
}

/// Whether a card's display position is overridden, as by a raid browser or
/// a prompt (see [spec_position_override]).
pub fn has_position_override(
    prompt: &Option<CurrentPrompt>,
    opponent_prompt: &Option<CurrentPrompt>,
    preference: Option<DisplayPreference>,
    phase: PhaseView,
    raid: &Option<RaidScene>,
    card: CardId,
    sorting_key: u32,
    in_user_hand: bool,
    owner: PlayerName,
) -> (res: bool)
    requires
        sorting_key < u32::MAX,
        selector_fits(*prompt),
        optional_raid_fits(*raid),
    ensures
        res == spec_position_override(
            *prompt,
            *opponent_prompt,
            preference,
            phase,
            *raid,
            card,
            sorting_key,
            in_user_hand,
            owner,
        ) is Some,
{
    position_override(
        prompt,
        opponent_prompt,
        preference,
        phase,
        raid,
        card,
        sorting_key,
        in_user_hand,
        owner,
    ).is_some()
}

/// The direction a player's character faces: while the defenders of a room
/// are displayed in the raid browser (and the player is not viewing the
/// arena), the Riftcaller faces right and the Covenant, when its sanctum is
/// raided, left; otherwise the user's character faces up and the
/// opponent's down.
pub open spec fn spec_facing_direction(
    raid: Option<RaidScene>,
    preference: Option<DisplayPreference>,
    user_side: Side,
    side: Side,
) -> GameCharacterFacingDirection {
    let default = if user_side == side {
        GameCharacterFacingDirection::Up
    } else {
        GameCharacterFacingDirection::Down
    };
    match raid {
        Some(r) => if (r.display matches RaidDisplayState::Defenders(_)) && preference != Some(
            DisplayPreference::ShowArenaView(true),
        ) {
            if side == Side::Riftcaller {
                GameCharacterFacingDirection::Right
            } else if r.target == RoomId::Sanctum {
                GameCharacterFacingDirection::Left
            } else {
                default
            }
        } else {
            default
        },
        None => default,
    }
}

/// The direction a player's character faces, as [spec_facing_direction]
/// describes.
pub fn character_facing_direction_for_side(
    raid: &Option<RaidScene>,
    preference: Option<DisplayPreference>,
    user_side: Side,
    side: Side,
) -> (res: GameCharacterFacingDirection)
    ensures
        res == spec_facing_direction(*raid, preference, user_side, side),
{
    if let Some(r) = raid {
        let defenders_shown = match r.display {
            RaidDisplayState::Defenders(_) => true,
            _ => false,
        };
        let arena_view = match preference {
            Some(DisplayPreference::ShowArenaView(true)) => true,
            _ => false,
        };
        if defenders_shown && !arena_view {
            if side == Side::Riftcaller {
                return GameCharacterFacingDirection::Right;
            }
            if side == Side::Covenant && r.target == RoomId::Sanctum {
                return GameCharacterFacingDirection::Left;
            }
        }
    }
    if user_side == side {
        GameCharacterFacingDirection::Up
    } else {
        GameCharacterFacingDirection::Down
    }
}

/// Where a card just played by `side` is shown: cards played by the
/// opponent, and spells, go to the staging area; the user's other cards go
/// straight to `destination`.
pub fn played_position(user_side: Side, side: Side, is_spell: bool, destination: Option<Position>) -> (res:
    Option<Position>)
    ensures
        res == (if user_side != side || is_spell {
            Some(Position::Staging(ObjectPositionStaging {}))
        } else {
            destination
        }),
{
    if user_side != side || is_spell {
        Some(staging())
    } else {
        destination
    }
}

/// The position of an ability card: in the staging area while the ability
/// is being activated, and otherwise in the hand of its owner.
pub fn ability_card_position(
    is_current_ability: bool,
    card_sorting_key: u32,
    ability_index: u32,
    owner: PlayerName,
) -> (res: ObjectPosition)
    requires
        card_sorting_key < u32::MAX,
        ability_index <= u32::MAX - 2,
    ensures
        res == (ObjectPosition {
            position: Some(
                if is_current_ability {
                    Position::Staging(ObjectPositionStaging {})
                } else {
                    Position::Hand(ObjectPositionHand { owner: owner.spec_value() })
                },
            ),
            sorting_key: (card_sorting_key + 1) as u32,
            sorting_subkey: (ability_index + 2) as u32,
        }),
{
    let position = if is_current_ability {
        staging()
    } else {
        hand(owner)
    };
    for_ability(card_sorting_key, ability_index, position)
}

/// Where a card of the user's card selector can be dragged: a card still to
/// choose to the browser's drag target, a chosen card back to the large
/// revealed cards browser.
pub open spec fn spec_move_target(prompt: Option<CurrentPrompt>, card: CardId, sorting_key: u32) -> Option<
    ObjectPosition,
> {
    match prompt {
        Some(CurrentPrompt::CardSelector(s)) => if s.unchosen_subjects@.contains(card) {
            Some(card_at(sorting_key, Position::BrowserDragTarget(ObjectPositionBrowserDragTarget {})))
        } else if s.chosen_subjects@.contains(card) {
            Some(
                card_at(
                    sorting_key,
                    Position::Revealed(
                        ObjectPositionRevealedCards { size: RevealedCardsBrowserSize::Large.spec_value() },
                    ),
                ),
            )
        } else {
            None
        },
        _ => None,
    }
}

/// Where a card of the user's card selector can be dragged, as
/// [spec_move_target] describes.
pub fn move_target(prompt: &Option<CurrentPrompt>, card: CardId, sorting_key: u32) -> (res: Option<
    ObjectPosition,
>)
    requires
        sorting_key < u32::MAX,
    ensures
        res == spec_move_target(*prompt, card, sorting_key),
{
    match prompt {
        Some(CurrentPrompt::CardSelector(s)) => {
            if holds_card(&s.unchosen_subjects, card) {
                Some(for_card(sorting_key, card_browser_target_position()))
            } else if holds_card(&s.chosen_subjects, card) {
                Some(for_card(sorting_key, revealed_cards(true)))
            } else {
                None
            }
        },
        _ => None,
    }
}

/// Where a card is in the game, as far as where it is displayed depends on
/// it.
#[derive(Clone, Copy, Debug, PartialEq, Eq, Structural)]
pub enum CardPosition {
    Room(RoomId, RoomLocation),
    ArenaItem(ItemLocation),
    Hand(Side),
    DeckTop(Side),
    DiscardPile(Side),
    Scored(Side),
    Identity(Side),
    Scoring,
    /// Being played by the player on the given side.
    Played(Side),
    /// In a deck, at a place not yet known.
    DeckUnknown,
    GameModifier,
    Sigil(Side),
    Banished,
}

/// Where a card at `position` is displayed for the player on `user_side`.
/// `played` is where a card being played displays: [played_position] of
/// its player, whether it is a spell, and the display of where it goes.
/// `stacked_behind` is the position behind the card whose play banished
/// it, when that play is the card's latest.
pub open spec fn spec_adapt_position(
    user_side: Side,
    position: CardPosition,
    played: Option<Position>,
    stacked_behind: Option<Position>,
) -> Option<Position> {
    match position {
        CardPosition::Room(room_id, location) => Some(
            Position::Room(
                ObjectPositionRoom {
                    room_id: spec_room_identifier(room_id).spec_value(),
                    room_location: client_room_location(location).spec_value(),
                },
            ),
        ),
        CardPosition::ArenaItem(location) => Some(
            Position::Item(
                ObjectPositionItem { item_location: client_item_location(location).spec_value() },
            ),
        ),
        CardPosition::Hand(side) => Some(
            Position::Hand(ObjectPositionHand { owner: spec_player_name(user_side, side).spec_value() }),
        ),
        CardPosition::DeckTop(side) => Some(
            Position::Deck(ObjectPositionDeck { owner: spec_player_name(user_side, side).spec_value() }),
        ),
        CardPosition::DiscardPile(side) => Some(
            Position::DiscardPile(
                ObjectPositionDiscardPile { owner: spec_player_name(user_side, side).spec_value() },
            ),
        ),
        CardPosition::Scored(side) => Some(
            Position::Character(
                ObjectPositionCharacter { owner: spec_player_name(user_side, side).spec_value() },
            ),
        ),
        CardPosition::Identity(side) => Some(
            Position::Riftcaller(
                ObjectPositionRiftcallers { owner: spec_player_name(user_side, side).spec_value() },
            ),
        ),
        CardPosition::Scoring => Some(Position::Scoring(ObjectPositionScoring {})),
        CardPosition::Played(_) => played,
        CardPosition::DeckUnknown => None,
        CardPosition::GameModifier => Some(Position::Offscreen(ObjectPositionOffscreen {})),
        CardPosition::Sigil(side) => Some(
            Position::Riftcaller(
                ObjectPositionRiftcallers { owner: spec_player_name(user_side, side).spec_value() },
            ),
        ),
        CardPosition::Banished => match stacked_behind {
            Some(p) => Some(p),
            None => Some(Position::Offscreen(ObjectPositionOffscreen {})),
        },
    }
}

/// Where a card at `position` is displayed for the player on `user_side`,
/// as [spec_adapt_position] describes.
pub fn adapt_position(
    user_side: Side,
    position: CardPosition,
    played: Option<Position>,
    stacked_behind: Option<Position>,
) -> (res: Option<Position>)
    ensures
        res == spec_adapt_position(user_side, position, played, stacked_behind),
{
    match position {
        CardPosition::Room(room_id, location) => Some(room(room_id, location)),
        CardPosition::ArenaItem(location) => Some(item(location)),
        CardPosition::Hand(side) => Some(hand(player_name(user_side, side))),
        CardPosition::DeckTop(side) => Some(deck(player_name(user_side, side))),
        CardPosition::DiscardPile(side) => Some(discard(player_name(user_side, side))),
        CardPosition::Scored(side) => Some(character(player_name(user_side, side))),
        CardPosition::Identity(side) => Some(display_shelf(player_name(user_side, side))),
        CardPosition::Scoring => Some(scoring()),
        CardPosition::Played(_) => played,
        CardPosition::DeckUnknown => None,
        CardPosition::GameModifier => Some(offscreen()),
        CardPosition::Sigil(side) => Some(display_shelf(player_name(user_side, side))),
        CardPosition::Banished => match stacked_behind {
            Some(p) => Some(p),
            None => Some(offscreen()),
        },
    }
}

/// Where a card is displayed: its override, if it has one, and otherwise
/// its own position with its sorting key.
pub fn calculate(overridden: Option<ObjectPosition>, sorting_key: u32, position: Option<Position>) -> (res:
    ObjectPosition)
    ensures
        res == match overridden {
            Some(o) => o,
            None => ObjectPosition { sorting_key, sorting_subkey: 0, position },
        },
{
    match overridden {
        Some(o) => o,
        None => ObjectPosition { sorting_key, sorting_subkey: 0, position },
    }
}

/// While cards are accessed in a raid, the access browser lists, in order
/// and nothing else: the Covenant's hand when the sanctum is raided, its
/// discard pile when the crypts are raided, and for any other room (the
/// vault among them) exactly the cards accessed.
pub proof fn lemma_access_browser_lists_the_accessed_cards(raid: RaidScene)
    ensures
        raid.target == RoomId::Sanctum ==> spec_raid_access_browser(raid).len()
            == raid.covenant_hand@.len() && forall|i: int|
            0 <= i < raid.covenant_hand@.len() ==> #[trigger] spec_raid_access_browser(raid)[i]
                == GameObjectId::CardId(raid.covenant_hand@[i]),
        raid.target == RoomId::Crypts ==> spec_raid_access_browser(raid).len()
            == raid.covenant_discard@.len() && forall|i: int|
            0 <= i < raid.covenant_discard@.len() ==> #[trigger] spec_raid_access_browser(raid)[i]
                == GameObjectId::CardId(raid.covenant_discard@[i]),
        raid.target != RoomId::Sanctum && raid.target != RoomId::Crypts
            ==> spec_raid_access_browser(raid).len() == raid.accessed@.len() && forall|i: int|
            0 <= i < raid.accessed@.len() ==> #[trigger] spec_raid_access_browser(raid)[i]
                == GameObjectId::CardId(raid.accessed@[i]),
{
}

} // verus!
