//! Unique identifiers for UI elements.
use vstd::prelude::*;

use crate::protos::messages::{ElementSelector, Selector, SelectorView};
use crate::text::{decimal, push_decimal};
use vstd::string::StringExecFns;

verus! {

/// Represents a globally unique identifier for a UI element: a tag and a
/// number distinguishing elements which share the tag.
#[derive(Clone, Copy, Debug)]
pub struct ElementName {
    tag: &'static str,
    count: u64,
}

/// Represents the element currently being dragged.
#[derive(Clone, Copy, Debug)]
pub struct CurrentDraggable;

/// Represents the name of a temporary target element.
#[derive(Clone, Copy, Debug)]
pub struct TargetName(pub ElementName);

impl ElementName {
    /// The element's tag.
    pub closed spec fn spec_tag(self) -> Seq<char> {
        self.tag@
    }

    /// The number distinguishing elements which share the tag.
    pub closed spec fn spec_count(self) -> u64 {
        self.count
    }

    /// The element's name as text: its tag followed by its number in decimal.
    pub open spec fn spec_text(self) -> Seq<char> {
        self.spec_tag() + decimal(self.spec_count() as nat)
    }

    /// The element's name as text: its tag followed by its number in decimal.
    pub fn into_string(self) -> (res: String)
        ensures
            res@ == self.spec_text(),
    {
        let mut res = String::from_str(self.tag);
        push_decimal(&mut res, self.count);
        res
    }
}

/// Values which identify a user interface element.
pub trait ElementNameSelector: Copy + Sized {
    /// The selector identifying the element.
    spec fn spec_selector(self) -> SelectorView;

    /// Returns the selector identifying the element.
    fn selector(self) -> (res: ElementSelector)
        ensures
            res@ == Some(self.spec_selector()),
    ;
}

impl ElementNameSelector for ElementName {
    open spec fn spec_selector(self) -> SelectorView {
        SelectorView::ElementName(self.spec_text())
    }

    fn selector(self) -> (res: ElementSelector) {
        ElementSelector { selector: Some(Selector::ElementName(self.into_string())) }
    }
}

impl ElementNameSelector for CurrentDraggable {
    open spec fn spec_selector(self) -> SelectorView {
        SelectorView::DragIndicator
    }

    fn selector(self) -> (res: ElementSelector) {
        ElementSelector { selector: Some(Selector::DragIndicator) }
    }
}

impl ElementNameSelector for TargetName {
    open spec fn spec_selector(self) -> SelectorView {
        SelectorView::TargetElement(self.0.spec_text())
    }

    fn selector(self) -> (res: ElementSelector) {
        ElementSelector { selector: Some(Selector::TargetElement(self.0.into_string())) }
    }
}

/// The name of the single element with the given tag.
pub fn global(tag: &'static str) -> (res: ElementName)
    ensures
        res.spec_tag() == tag@,
        res.spec_count() == 0,
{
    ElementName { tag, count: 0 }
}

/// The deck button.
pub fn deck_button() -> (res: ElementName)
    ensures
        res.spec_tag() == "DeckButton"@,
        res.spec_count() == 0,
{
    global("DeckButton")
}

/// The menu button.
pub fn menu_button() -> (res: ElementName)
    ensures
        res.spec_tag() == "MenuButton"@,
        res.spec_count() == 0,
{
    global("MenuButton")
}

/// The feedback button.
pub fn feedback_button() -> (res: ElementName)
    ensures
        res.spec_tag() == "FeedbackButton"@,
        res.spec_count() == 0,
{
    global("FeedbackButton")
}

/// The list of cards in the deck being edited.
pub fn card_list() -> (res: ElementName)
    ensures
        res.spec_tag() == "CardList"@,
        res.spec_count() == 0,
{
    global("CardList")
}

/// The browser of the player's card collection.
pub fn collection_browser() -> (res: ElementName)
    ensures
        res.spec_tag() == "CollectionBrowser"@,
        res.spec_count() == 0,
{
    global("CollectionBrowser")
}

/// The card of the given card variant in the deck editor, by the variant's
/// numeric identifier.
pub fn deck_card(variant: u64) -> (res: ElementName)
    ensures
        res.spec_tag() == "DeckCard"@,
        res.spec_count() == variant,
{
    ElementName { tag: "DeckCard", count: variant }
}

/// The slot holding the card of the given card variant.
pub fn deck_card_slot(variant: u64) -> (res: ElementName)
    ensures
        res.spec_tag() == "DeckCardSlot"@,
        res.spec_count() == variant,
{
    ElementName { tag: "DeckCardSlot", count: variant }
}

/// The overlay of the slot holding the card of the given card variant.
pub fn deck_card_slot_overlay(variant: u64) -> (res: ElementName)
    ensures
        res.spec_tag() == "DeckCardSlotOverlay"@,
        res.spec_count() == variant,
{
    ElementName { tag: "DeckCardSlotOverlay", count: variant }
}

/// The name of the given card variant in the card list.
pub fn card_list_card_name(variant: u64) -> (res: ElementName)
    ensures
        res.spec_tag() == "CardListCardVariant"@,
        res.spec_count() == variant,
{
    ElementName { tag: "CardListCardVariant", count: variant }
}

/// The quantity of the given card variant in the card list.
pub fn card_list_card_quantity(variant: u64) -> (res: ElementName)
    ensures
        res.spec_tag() == "CardListCardQuantity"@,
        res.spec_count() == variant,
{
    ElementName { tag: "CardListCardQuantity", count: variant }
}

/// The button buying the given card variant.
pub fn buy_card(variant: u64) -> (res: ElementName)
    ensures
        res.spec_tag() == "BuyCard"@,
        res.spec_count() == variant,
{
    ElementName { tag: "BuyCard", count: variant }
}

/// The button drafting the given card variant.
pub fn draft_card(variant: u64) -> (res: ElementName)
    ensures
        res.spec_tag() == "DraftCard"@,
        res.spec_count() == variant,
{
    ElementName { tag: "DraftCard", count: variant }
}

} // verus!
