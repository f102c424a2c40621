//! Client protocol messages used by the library: element selectors, object
//! positions and panel addresses.
use vstd::prelude::*;

verus! {

/// Ways of identifying a single user interface element.
#[derive(Clone, Debug, PartialEq, Eq)]
pub enum Selector {
    /// Identify an element by name.
    ElementName(String),
    /// The element currently being dragged.
    DragIndicator,
    /// A synthetic element created via an operation such as
    /// 'CreateTargetAtChildIndex'.
    TargetElement(String),
}

/// The mathematical content of a [Selector].
pub enum SelectorView {
    ElementName(Seq<char>),
    DragIndicator,
    TargetElement(Seq<char>),
}

impl View for Selector {
    type V = SelectorView;

    open spec fn view(&self) -> SelectorView {
        match self {
            Selector::ElementName(name) => SelectorView::ElementName(name@),
            Selector::DragIndicator => SelectorView::DragIndicator,
            Selector::TargetElement(name) => SelectorView::TargetElement(name@),
        }
    }
}

/// A method for uniquely identifying a single user interface element.
#[derive(Clone, Debug, PartialEq, Eq)]
pub struct ElementSelector {
    pub selector: Option<Selector>,
}

impl View for ElementSelector {
    type V = Option<SelectorView>;

    open spec fn view(&self) -> Option<SelectorView> {
        match self.selector {
            Some(s) => Some(s@),
            None => None,
        }
    }
}

/// Identifies an interface panel: a readable name and the serialized
/// address.
#[derive(Clone, Debug, PartialEq, Eq, Hash)]
pub struct InterfacePanelAddress {
    pub debug_string: String,
    pub serialized: Vec<u8>,
}

/// Identifies a card displayed by the client.
#[derive(Clone, Copy, Debug, PartialEq, Eq, Structural, Hash)]
pub struct CardIdentifier {
    /// A `PlayerSide` wire number.
    pub side: i32,
    pub index: u32,
    /// Optionally, the kind of custom card or game action this displayed card
    /// stands for, such as a status marker.
    pub game_action: Option<u32>,
    /// Optionally, identifies a specific ability within a logical card which
    /// is represented by this displayed card.
    pub ability_id: Option<u32>,
}

#[derive(Clone, Copy, Debug, PartialEq, Eq, Structural)]
pub struct ObjectPositionOffscreen {}

#[derive(Clone, Copy, Debug, PartialEq, Eq, Structural)]
pub struct ObjectPositionRoom {
    /// A `RoomIdentifier` wire number.
    pub room_id: i32,
    /// A `ClientRoomLocation` wire number.
    pub room_location: i32,
}

#[derive(Clone, Copy, Debug, PartialEq, Eq, Structural)]
pub struct ObjectPositionItem {
    /// A `ClientItemLocation` wire number.
    pub item_location: i32,
}

#[derive(Clone, Copy, Debug, PartialEq, Eq, Structural)]
pub struct ObjectPositionStaging {}

#[derive(Clone, Copy, Debug, PartialEq, Eq, Structural)]
pub struct ObjectPositionHand {
    /// A `PlayerName` wire number.
    pub owner: i32,
}

#[derive(Clone, Copy, Debug, PartialEq, Eq, Structural)]
pub struct ObjectPositionDeck {
    /// A `PlayerName` wire number.
    pub owner: i32,
}

#[derive(Clone, Copy, Debug, PartialEq, Eq, Structural)]
pub struct ObjectPositionDeckContainer {
    /// A `PlayerName` wire number.
    pub owner: i32,
}

#[derive(Clone, Copy, Debug, PartialEq, Eq, Structural)]
pub struct ObjectPositionDiscardPile {
    /// A `PlayerName` wire number.
    pub owner: i32,
}

#[derive(Clone, Copy, Debug, PartialEq, Eq, Structural)]
pub struct ObjectPositionDiscardPileContainer {
    /// A `PlayerName` wire number.
    pub owner: i32,
}

/// Large display of cards *while* the score animation is playing.
#[derive(Clone, Copy, Debug, PartialEq, Eq, Structural)]
pub struct ObjectPositionScoreAnimation {}

#[derive(Clone, Copy, Debug, PartialEq, Eq, Structural)]
pub struct ObjectPositionRaid {}

#[derive(Clone, Copy, Debug, PartialEq, Eq, Structural)]
pub struct ObjectPositionBrowser {}

#[derive(Clone, Copy, Debug, PartialEq, Eq, Structural)]
pub struct ObjectPositionCharacter {
    /// A `PlayerName` wire number.
    pub owner: i32,
}

#[derive(Clone, Copy, Debug, PartialEq, Eq, Structural)]
pub struct ObjectPositionCharacterContainer {
    /// A `PlayerName` wire number.
    pub owner: i32,
}

#[derive(Clone, Copy, Debug, PartialEq, Eq, Structural)]
pub struct ObjectPositionRewardChest {}

/// An object position which represents moving into a given card.
#[derive(Clone, Copy, Debug, PartialEq, Eq, Structural)]
pub struct ObjectPositionIntoCard {
    pub card_id: Option<CardIdentifier>,
}

/// An object position for newly-revealed cards, appears above other content
/// like the staging area.
#[derive(Clone, Copy, Debug, PartialEq, Eq, Structural)]
pub struct ObjectPositionRevealedCards {
    /// A `RevealedCardsBrowserSize` wire number.
    pub size: i32,
}

/// Position in which active sigils are displayed during gameplay.
#[derive(Clone, Copy, Debug, PartialEq, Eq, Structural)]
pub struct ObjectPositionSigil {
    /// A `PlayerName` wire number.
    pub owner: i32,
}

/// The browser showing the cards a prompt's choices are anchored to.
#[derive(Clone, Copy, Debug, PartialEq, Eq, Structural)]
pub struct ObjectPositionCardChoiceBrowser {}

/// Where the user's hand is set aside while a prompt is shown.
#[derive(Clone, Copy, Debug, PartialEq, Eq, Structural)]
pub struct ObjectPositionHandStorage {}

/// The spot onto which cards are dragged out of a card browser.
#[derive(Clone, Copy, Debug, PartialEq, Eq, Structural)]
pub struct ObjectPositionBrowserDragTarget {}

/// The area where cards being scored are shown.
#[derive(Clone, Copy, Debug, PartialEq, Eq, Structural)]
pub struct ObjectPositionScoring {}

/// The shelf displaying a player's identity cards.
#[derive(Clone, Copy, Debug, PartialEq, Eq, Structural)]
pub struct ObjectPositionRiftcallers {
    /// A `PlayerName` wire number.
    pub owner: i32,
}

/// Where an object is displayed.
#[derive(Clone, Copy, Debug, PartialEq, Eq, Structural)]
pub enum Position {
    Offscreen(ObjectPositionOffscreen),
    Room(ObjectPositionRoom),
    Item(ObjectPositionItem),
    Staging(ObjectPositionStaging),
    Hand(ObjectPositionHand),
    Deck(ObjectPositionDeck),
    DeckContainer(ObjectPositionDeckContainer),
    DiscardPile(ObjectPositionDiscardPile),
    DiscardPileContainer(ObjectPositionDiscardPileContainer),
    Raid(ObjectPositionRaid),
    Browser(ObjectPositionBrowser),
    Character(ObjectPositionCharacter),
    CharacterContainer(ObjectPositionCharacterContainer),
    IntoCard(ObjectPositionIntoCard),
    Revealed(ObjectPositionRevealedCards),
    Sigil(ObjectPositionSigil),
    CardChoiceBrowser(ObjectPositionCardChoiceBrowser),
    HandStorage(ObjectPositionHandStorage),
    BrowserDragTarget(ObjectPositionBrowserDragTarget),
    Scoring(ObjectPositionScoring),
    Riftcaller(ObjectPositionRiftcallers),
}

/// A position together with the keys ordering objects which share it.
#[derive(Clone, Copy, Debug, PartialEq, Eq, Structural)]
pub struct ObjectPosition {
    /// A key by which to sort this object -- objects with higher sorting keys
    /// should be displayed 'on top of' or 'in front of' objects with lower
    /// sorting keys.
    pub sorting_key: u32,
    /// An additional key, can be used to break ties in `sorting_key`.
    pub sorting_subkey: u32,
    pub position: Option<Position>,
}

/// A duration.
#[derive(Clone, Copy, Debug, PartialEq, Eq, Structural)]
pub struct TimeValue {
    pub milliseconds: u32,
}

} // verus!
