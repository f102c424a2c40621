//! Decisions made while rendering a game for a player: which messages and
//! animations to show and which controls to offer.
use vstd::prelude::*;

use crate::adventure::Side;
use crate::protos::client_enums::GameMessageType;
use crate::protos::game_enums::{ArrowBubbleCorner, PlayerName};
use crate::delegates::AbilityId;
use crate::positions::{for_sorting_key, revealed_cards, CardId};
use crate::protos::game_enums::RevealedCardsBrowserSize;
use crate::protos::messages::{ObjectPosition, ObjectPositionRevealedCards, Position, TimeValue};
use crate::raid_state::RoomId;

verus! {

/// A player's preference for how the game is displayed.
#[derive(Clone, Copy, Debug, PartialEq, Eq, Structural)]
pub enum DisplayPreference {
    /// Show the arena, hiding browsers such as the raid display.
    ShowArenaView(bool),
}

/// The message announcing the start of a player's turn: dusk for the
/// Covenant, dawn for the Riftcaller.
pub fn start_turn_message(side: Side) -> (res: GameMessageType)
    ensures
        res == (match side {
            Side::Covenant => GameMessageType::Dusk,
            Side::Riftcaller => GameMessageType::Dawn,
        }),
{
    match side {
        Side::Covenant => GameMessageType::Dusk,
        Side::Riftcaller => GameMessageType::Dawn,
    }
}

/// The message shown to the user when the game ends.
pub fn game_over_message(winner: Side, user_side: Side) -> (res: GameMessageType)
    ensures
        res == (if winner == user_side {
            GameMessageType::Victory
        } else {
            GameMessageType::Defeat
        }),
{
    if winner == user_side {
        GameMessageType::Victory
    } else {
        GameMessageType::Defeat
    }
}

/// The game that ended and who won it, as the game over panel shows it.
#[derive(Clone, Copy, Debug, PartialEq, Eq, Structural)]
pub struct GameOverData {
    pub game_id: u128,
    pub winner: Side,
}

/// A command sent to the client when the game ends.
#[derive(Clone, Copy, Debug, PartialEq, Eq, Structural)]
pub enum GameOverCommand {
    SetGameObjectsEnabled(bool),
    DisplayGameMessage(GameMessageType),
    /// Builds the game over panel for this game anew.
    UpdateGameOverPanel(GameOverData),
    /// Opens the game over panel for this game.
    OpenGameOverPanel(GameOverData),
}

/// The commands sent to the player on `user_side` for the game `game_id`,
/// given who won it if it is over: nothing while it goes on; once over, in
/// order, disabling the game objects, the victory or defeat message,
/// updating the game over panel and opening it.
pub open spec fn spec_game_over_commands(winner: Option<Side>, user_side: Side, game_id: u128) -> Seq<
    GameOverCommand,
> {
    match winner {
        None => Seq::empty(),
        Some(w) => seq![
            GameOverCommand::SetGameObjectsEnabled(false),
            GameOverCommand::DisplayGameMessage(
                if w == user_side {
                    GameMessageType::Victory
                } else {
                    GameMessageType::Defeat
                },
            ),
            GameOverCommand::UpdateGameOverPanel(GameOverData { game_id, winner: w }),
            GameOverCommand::OpenGameOverPanel(GameOverData { game_id, winner: w }),
        ],
    }
}

/// The commands announcing the end of a game, as [spec_game_over_commands]
/// lists them.
pub fn check_game_over(winner: Option<Side>, user_side: Side, game_id: u128) -> (res: Vec<
    GameOverCommand,
>)
    ensures
        res@ == spec_game_over_commands(winner, user_side, game_id),
{
    let mut res: Vec<GameOverCommand> = Vec::new();
    if let Some(w) = winner {
        let data = GameOverData { game_id, winner: w };
        res.push(GameOverCommand::SetGameObjectsEnabled(false));
        res.push(GameOverCommand::DisplayGameMessage(game_over_message(w, user_side)));
        res.push(GameOverCommand::UpdateGameOverPanel(data));
        res.push(GameOverCommand::OpenGameOverPanel(data));
    }
    assert(res@ =~= spec_game_over_commands(winner, user_side, game_id));
    res
}

/// The display preference which the "set display preference" button
/// requests, if any: outside the play phase none; while the arena is shown,
/// returning to the usual view; otherwise showing the arena when some card is
/// displayed away from its arena position.
pub fn display_preference_button(
    in_play_phase: bool,
    current: Option<DisplayPreference>,
    any_position_override: bool,
) -> (res: Option<DisplayPreference>)
    ensures
        res == (if !in_play_phase {
            None
        } else if current == Some(DisplayPreference::ShowArenaView(true)) {
            Some(DisplayPreference::ShowArenaView(false))
        } else if any_position_override {
            Some(DisplayPreference::ShowArenaView(true))
        } else {
            None
        }),
{
    if !in_play_phase {
        return None;
    }
    if let Some(DisplayPreference::ShowArenaView(true)) = current {
        return Some(DisplayPreference::ShowArenaView(false));
    }
    if any_position_override {
        Some(DisplayPreference::ShowArenaView(true))
    } else {
        None
    }
}

/// Options for showing cards in the center of the screen.
#[derive(Clone, Copy, Debug, PartialEq, Eq, Structural)]
pub struct ShowCards {
    /// If false, cards already in a prominent center-screen browser like the
    /// raid display are skipped.
    pub show_if_prominent: bool,
    /// How long to show the cards for, if not the default.
    pub milliseconds: Option<u32>,
    /// Whether to always use the large revealed card browser.
    pub large_browser: bool,
}

impl Default for ShowCards {
    fn default() -> (res: ShowCards)
        ensures
            res == (ShowCards { show_if_prominent: false, milliseconds: None, large_browser: false }),
    {
        ShowCards { show_if_prominent: false, milliseconds: None, large_browser: false }
    }
}

/// How `card_count` cards are shown: whether in the large browser, and for
/// how many milliseconds. Four or more cards count as many: they use the
/// large browser and are shown for 2000ms by default, fewer for 1000ms.
pub fn show_cards_layout(card_count: usize, options: ShowCards) -> (res: (bool, u32))
    ensures
        res.0 == (options.large_browser || card_count >= 4),
        res.1 == (match options.milliseconds {
            Some(ms) => ms,
            None => if card_count >= 4 {
                2000u32
            } else {
                1000u32
            },
        }),
{
    let is_large = card_count >= 4;
    let duration = match options.milliseconds {
        Some(ms) => ms,
        None => if is_large {
            2000
        } else {
            1000
        },
    };
    (options.large_browser || is_large, duration)
}

/// Whether a card shown center-screen is animated there: cards already in a
/// prominent position are skipped unless the options ask otherwise.
pub fn shows_card(in_display_position: bool, options: ShowCards) -> (res: bool)
    ensures
        res == (!in_display_position || options.show_if_prominent),
{
    !in_display_position || options.show_if_prominent
}

/// Whether a position is a prominent center-screen one: the staging area,
/// the raid display, the card browser or the revealed cards browser.
pub open spec fn is_display_position(position: Option<Position>) -> bool {
    match position {
        Some(Position::Staging(_)) => true,
        Some(Position::Raid(_)) => true,
        Some(Position::Browser(_)) => true,
        Some(Position::Revealed(_)) => true,
        _ => false,
    }
}

/// Whether a card last displayed at `position` is in a prominent
/// center-screen position.
pub fn in_display_position(position: Option<Position>) -> (res: bool)
    ensures
        res == is_display_position(position),
{
    match position {
        Some(Position::Staging(_)) => true,
        Some(Position::Raid(_)) => true,
        Some(Position::Browser(_)) => true,
        Some(Position::Revealed(_)) => true,
        _ => false,
    }
}

/// The moves placing cards center-screen: each card that is shown (see
/// [shows_card]), in order, goes to the revealed cards browser -- large or
/// small as `large` says -- behind those shown before it.
pub open spec fn show_card_moves(cards: Seq<(CardId, bool)>, options: ShowCards, large: bool) -> Seq<
    (CardId, ObjectPosition),
>
    decreases cards.len(),
{
    if cards.len() == 0 {
        Seq::empty()
    } else {
        let before = show_card_moves(cards.drop_last(), options, large);
        let (card, in_display) = cards.last();
        if !in_display || options.show_if_prominent {
            before.push(
                (
                    card,
                    ObjectPosition {
                        sorting_key: (before.len() + 1) as u32,
                        sorting_subkey: 0,
                        position: Some(
                            Position::Revealed(
                                ObjectPositionRevealedCards {
                                    size: if large {
                                        RevealedCardsBrowserSize::Large.spec_value()
                                    } else {
                                        RevealedCardsBrowserSize::Small.spec_value()
                                    },
                                },
                            ),
                        ),
                    },
                ),
            )
        } else {
            before
        }
    }
}

/// No more cards are moved than are given.
proof fn lemma_show_card_moves_len(cards: Seq<(CardId, bool)>, options: ShowCards, large: bool)
    ensures
        show_card_moves(cards, options, large).len() <= cards.len(),
    decreases cards.len(),
{
    if cards.len() > 0 {
        lemma_show_card_moves_len(cards.drop_last(), options, large);
    }
}

/// Places cards center-screen. Each card comes with whether it is already
/// in a prominent position. Returns the moves, as [show_card_moves]
/// describes, and how long the cards stay, as [show_cards_layout] decides
/// from the number of cards given.
pub fn show_cards(cards: &Vec<(CardId, bool)>, options: ShowCards) -> (res: (
    Vec<(CardId, ObjectPosition)>,
    u32,
))
    requires
        cards@.len() < u32::MAX,
    ensures
        res.0@ == show_card_moves(cards@, options, options.large_browser || cards@.len() >= 4),
        res.1 == (match options.milliseconds {
            Some(ms) => ms,
            None => if cards@.len() >= 4 {
                2000u32
            } else {
                1000u32
            },
        }),
{
    let (large, duration) = show_cards_layout(cards.len(), options);
    let position = revealed_cards(large);
    let mut moves: Vec<(CardId, ObjectPosition)> = Vec::new();
    let n = cards.len();
    let mut i: usize = 0;
    while i < n
        invariant
            n == cards@.len(),
            n < u32::MAX,
            i <= n,
            position == Position::Revealed(
                ObjectPositionRevealedCards {
                    size: if large {
                        RevealedCardsBrowserSize::Large.spec_value()
                    } else {
                        RevealedCardsBrowserSize::Small.spec_value()
                    },
                },
            ),
            moves@ == show_card_moves(cards@.take(i as int), options, large),
        decreases n - i,
    {
        proof {
            assert(cards@.take(i + 1).drop_last() =~= cards@.take(i as int));
            lemma_show_card_moves_len(cards@.take(i as int), options, large);
        }
        let (card, in_display) = cards[i];
        if shows_card(in_display, options) {
            let key = moves.len() as u32;
            moves.push((card, for_sorting_key(key, position)));
        }
        i = i + 1;
    }
    assert(cards@.take(n as int) =~= cards@);
    (moves, duration)
}

/// What a tutorial tooltip points at.
#[derive(Clone, Copy, Debug, PartialEq, Eq, Structural)]
pub enum TooltipAnchor {
    RaidRoom(RoomId),
    GainMana,
    DrawCard,
}

/// The corner from which a tooltip's arrow points: bottom right for the
/// mana display and the vault, bottom left otherwise.
pub fn tooltip_arrow_corner(anchor: TooltipAnchor) -> (res: ArrowBubbleCorner)
    ensures
        res == (if anchor == TooltipAnchor::GainMana || anchor == TooltipAnchor::RaidRoom(
            RoomId::Vault,
        ) {
            ArrowBubbleCorner::BottomRight
        } else {
            ArrowBubbleCorner::BottomLeft
        }),
{
    if anchor == TooltipAnchor::GainMana || anchor == TooltipAnchor::RaidRoom(RoomId::Vault) {
        ArrowBubbleCorner::BottomRight
    } else {
        ArrowBubbleCorner::BottomLeft
    }
}

/// The kinds of prompt a player can be shown.
#[derive(Clone, Copy, Debug, PartialEq, Eq, Structural)]
pub enum PromptKind {
    ButtonPrompt,
    CardSelector,
    PlayCardBrowser,
    PriorityPrompt,
    RoomSelector,
}

/// The main controls offered to the user.
#[derive(Clone, Copy, Debug, PartialEq, Eq, Structural)]
pub enum MainControls {
    /// The controls of the user's own prompt.
    Prompt(PromptKind),
    /// The controls of the raid in progress.
    Raid,
    /// Buttons to keep the opening hand or take a mulligan.
    MulliganDecision,
    /// A button to start the turn.
    StartTurn,
    /// A button to end the turn.
    EndTurn,
}

/// The situation which decides the user's main controls.
pub struct InterfaceState {
    pub shows_arena_view: bool,
    pub user_prompt: Option<PromptKind>,
    pub opponent_has_prompt: bool,
    pub raid_active: bool,
    pub resolving_mulligans: bool,
    pub can_make_mulligan_decision: bool,
    pub can_start_turn: bool,
    pub can_end_turn: bool,
}

/// Chooses the user's main controls: none while the arena view is shown;
/// the user's own prompt first; nothing while the opponent decides; then the
/// raid; during mulligans the mulligan buttons if the user may still decide;
/// otherwise starting or ending the turn when allowed.
pub fn main_controls(state: &InterfaceState) -> (res: Option<MainControls>)
    ensures
        res == (if state.shows_arena_view {
            None
        } else if state.user_prompt is Some {
            Some(MainControls::Prompt(state.user_prompt.unwrap()))
        } else if state.opponent_has_prompt {
            None
        } else if state.raid_active {
            Some(MainControls::Raid)
        } else if state.resolving_mulligans {
            if state.can_make_mulligan_decision {
                Some(MainControls::MulliganDecision)
            } else {
                None
            }
        } else if state.can_start_turn {
            Some(MainControls::StartTurn)
        } else if state.can_end_turn {
            Some(MainControls::EndTurn)
        } else {
            None
        }),
{
    if state.shows_arena_view {
        return None;
    }
    if let Some(kind) = state.user_prompt {
        return Some(MainControls::Prompt(kind));
    } else if state.opponent_has_prompt {
        return None;
    } else if state.raid_active {
        return Some(MainControls::Raid);
    } else if state.resolving_mulligans {
        if state.can_make_mulligan_decision {
            return Some(MainControls::MulliganDecision);
        }
    } else if state.can_start_turn {
        return Some(MainControls::StartTurn);
    } else if state.can_end_turn {
        return Some(MainControls::EndTurn);
    }
    None
}

/// An animation of the game, with the parts of it its display depends on.
#[derive(Debug)]
pub enum GameAnimation {
    StartTurn(Side),
    PlayCard(Side, CardId),
    /// Special effects to play.
    CustomEffects,
    AbilityActivated(Side, AbilityId),
    /// An ability triggered, with special effects to play.
    AbilityTriggered(AbilityId),
    DrawCards(Side, Vec<CardId>),
    ShuffleIntoDeck,
    UnveilCard(CardId),
    SummonMinion(CardId),
    /// A room was leveled up; the flag tells whether an ability did it.
    LevelUpRoom(RoomId, bool),
    /// A raid began; the flag tells whether an ability began it.
    InitiateRaid(RoomId, bool),
    /// A weapon or minion struck its target.
    CombatInteraction,
    AccessSanctumCards(Vec<CardId>),
    ScoreCard(Side, CardId),
    GameOver,
    BrowserSubmitted,
    ShowPlayCardBrowser,
}

/// A step of displaying an animation.
#[derive(Clone, Debug, PartialEq, Eq)]
pub enum AnimationStep {
    DisplayGameMessage(GameMessageType),
    /// Shows these cards center-screen with these options.
    ShowCards(Vec<CardId>, ShowCards),
    ShowAbility(AbilityId),
    /// Plays the animation's special effects.
    PlaySpecialEffects,
    /// The Covenant visits a room to level it up.
    LevelUpRoom(RoomId),
    /// The Riftcaller visits a room to raid it.
    InitiateRaid(RoomId),
    /// Fires the projectile of a combat interaction.
    CombatInteraction,
    /// Plays an effect on each of these cards accessed in the sanctum.
    AccessSanctumCards(Vec<CardId>),
    ScoreCard(CardId),
}

/// An animation step as a value: the cards it names as a sequence.
pub enum AnimationStepView {
    DisplayGameMessage(GameMessageType),
    ShowCards(Seq<CardId>, ShowCards),
    ShowAbility(AbilityId),
    PlaySpecialEffects,
    LevelUpRoom(RoomId),
    InitiateRaid(RoomId),
    CombatInteraction,
    AccessSanctumCards(Seq<CardId>),
    ScoreCard(CardId),
}

impl View for AnimationStep {
    type V = AnimationStepView;

    open spec fn view(&self) -> AnimationStepView {
        match self {
            AnimationStep::DisplayGameMessage(m) => AnimationStepView::DisplayGameMessage(*m),
            AnimationStep::ShowCards(cards, options) => AnimationStepView::ShowCards(
                cards@,
                *options,
            ),
            AnimationStep::ShowAbility(a) => AnimationStepView::ShowAbility(*a),
            AnimationStep::PlaySpecialEffects => AnimationStepView::PlaySpecialEffects,
            AnimationStep::LevelUpRoom(r) => AnimationStepView::LevelUpRoom(*r),
            AnimationStep::InitiateRaid(r) => AnimationStepView::InitiateRaid(*r),
            AnimationStep::CombatInteraction => AnimationStepView::CombatInteraction,
            AnimationStep::AccessSanctumCards(cards) => AnimationStepView::AccessSanctumCards(
                cards@,
            ),
            AnimationStep::ScoreCard(c) => AnimationStepView::ScoreCard(*c),
        }
    }
}

/// Options showing cards even when they are already prominent.
pub open spec fn prominent() -> ShowCards {
    ShowCards { show_if_prominent: true, milliseconds: None, large_browser: false }
}

/// The options shown cards use by default.
pub open spec fn plain() -> ShowCards {
    ShowCards { show_if_prominent: false, milliseconds: None, large_browser: false }
}

/// How the player on `user_side` is shown an animation: the start of a turn
/// with its message; a card the opponent plays, and cards the user draws,
/// center-screen; an ability the opponent activates, and any ability that
/// triggers (then with its effects); unveiled cards, and for the Riftcaller
/// summoned minions, even when prominent; a room leveled up by an ability or
/// seen by the Riftcaller, and a raid begun by an ability or seen by the
/// Covenant (each player's own actions are animated by the client as they
/// are made); combat, sanctum access and scoring. The rest shows nothing.
pub open spec fn spec_animation_steps(animation: GameAnimation, user_side: Side) -> Seq<AnimationStepView> {
    match animation {
        GameAnimation::StartTurn(side) => seq![
            AnimationStepView::DisplayGameMessage(
                match side {
                    Side::Covenant => GameMessageType::Dusk,
                    Side::Riftcaller => GameMessageType::Dawn,
                },
            ),
        ],
        GameAnimation::PlayCard(side, card) => if user_side != side {
            seq![AnimationStepView::ShowCards(seq![card], plain())]
        } else {
            Seq::empty()
        },
        GameAnimation::CustomEffects => seq![AnimationStepView::PlaySpecialEffects],
        GameAnimation::AbilityActivated(side, ability_id) => if side != user_side {
            seq![AnimationStepView::ShowAbility(ability_id)]
        } else {
            Seq::empty()
        },
        GameAnimation::AbilityTriggered(ability_id) => seq![
            AnimationStepView::ShowAbility(ability_id),
            AnimationStepView::PlaySpecialEffects,
        ],
        GameAnimation::DrawCards(side, cards) => if user_side == side {
            seq![AnimationStepView::ShowCards(cards@, plain())]
        } else {
            Seq::empty()
        },
        GameAnimation::ShuffleIntoDeck => Seq::empty(),
        GameAnimation::UnveilCard(card) => seq![AnimationStepView::ShowCards(seq![card], prominent())],
        GameAnimation::SummonMinion(card) => if user_side == Side::Riftcaller {
            seq![AnimationStepView::ShowCards(seq![card], prominent())]
        } else {
            Seq::empty()
        },
        GameAnimation::LevelUpRoom(room, by_ability) => if by_ability || user_side
            == Side::Riftcaller {
            seq![AnimationStepView::LevelUpRoom(room)]
        } else {
            Seq::empty()
        },
        GameAnimation::InitiateRaid(room, by_ability) => if by_ability || user_side
            == Side::Covenant {
            seq![AnimationStepView::InitiateRaid(room)]
        } else {
            Seq::empty()
        },
        GameAnimation::CombatInteraction => seq![AnimationStepView::CombatInteraction],
        GameAnimation::AccessSanctumCards(cards) => seq![AnimationStepView::AccessSanctumCards(cards@)],
        GameAnimation::ScoreCard(_, card_id) => seq![AnimationStepView::ScoreCard(card_id)],
        GameAnimation::GameOver => Seq::empty(),
        GameAnimation::BrowserSubmitted => Seq::empty(),
        GameAnimation::ShowPlayCardBrowser => Seq::empty(),
    }
}

/// A copy of a list of cards.
pub(crate) fn copy_cards(cards: &Vec<CardId>) -> (res: Vec<CardId>)
    ensures
        res@ == cards@,
{
    let mut res: Vec<CardId> = Vec::new();
    let mut i: usize = 0;
    while i < cards.len()
        invariant
            i <= cards@.len(),
            res@ == cards@.take(i as int),
        decreases cards@.len() - i,
    {
        proof {
            assert(cards@.take(i + 1) =~= cards@.take(i as int).push(cards@[i as int]));
        }
        res.push(cards[i]);
        i = i + 1;
    }
    assert(cards@.take(cards@.len() as int) =~= cards@);
    res
}

/// A list holding just `card`.
fn one_card(card: CardId) -> (res: Vec<CardId>)
    ensures
        res@ == seq![card],
{
    let mut res: Vec<CardId> = Vec::new();
    res.push(card);
    assert(res@ =~= seq![card]);
    res
}

/// The steps showing an animation to the player on `user_side`, as
/// [spec_animation_steps] describes.
pub fn animation_steps(animation: &GameAnimation, user_side: Side) -> (res: Vec<AnimationStep>)
    ensures
        res@.len() == spec_animation_steps(*animation, user_side).len(),
        forall|i: int|
            0 <= i < res@.len() ==> #[trigger] res@[i]@ == spec_animation_steps(
                *animation,
                user_side,
            )[i],
{
    let mut steps: Vec<AnimationStep> = Vec::new();
    let show_plain = ShowCards { show_if_prominent: false, milliseconds: None, large_browser: false };
    let show_prominent = ShowCards { show_if_prominent: true, milliseconds: None, large_browser: false };
    match animation {
        GameAnimation::StartTurn(side) => {
            steps.push(AnimationStep::DisplayGameMessage(start_turn_message(*side)));
        },
        GameAnimation::PlayCard(side, card) => {
            if user_side != *side {
                steps.push(AnimationStep::ShowCards(one_card(*card), show_plain));
            }
        },
        GameAnimation::CustomEffects => {
            steps.push(AnimationStep::PlaySpecialEffects);
        },
        GameAnimation::AbilityActivated(side, ability_id) => {
            if *side != user_side {
                steps.push(AnimationStep::ShowAbility(*ability_id));
            }
        },
        GameAnimation::AbilityTriggered(ability_id) => {
            steps.push(AnimationStep::ShowAbility(*ability_id));
            steps.push(AnimationStep::PlaySpecialEffects);
        },
        GameAnimation::DrawCards(side, cards) => {
            if user_side == *side {
                steps.push(AnimationStep::ShowCards(copy_cards(cards), show_plain));
            }
        },
        GameAnimation::ShuffleIntoDeck => {},
        GameAnimation::UnveilCard(card) => {
            steps.push(AnimationStep::ShowCards(one_card(*card), show_prominent));
        },
        GameAnimation::SummonMinion(card) => {
            if user_side == Side::Riftcaller {
                steps.push(AnimationStep::ShowCards(one_card(*card), show_prominent));
            }
        },
        GameAnimation::LevelUpRoom(room, by_ability) => {
            if *by_ability || user_side == Side::Riftcaller {
                steps.push(AnimationStep::LevelUpRoom(*room));
            }
        },
        GameAnimation::InitiateRaid(room, by_ability) => {
            if *by_ability || user_side == Side::Covenant {
                steps.push(AnimationStep::InitiateRaid(*room));
            }
        },
        GameAnimation::CombatInteraction => {
            steps.push(AnimationStep::CombatInteraction);
        },
        GameAnimation::AccessSanctumCards(cards) => {
            steps.push(AnimationStep::AccessSanctumCards(copy_cards(cards)));
        },
        GameAnimation::ScoreCard(_, card_id) => {
            steps.push(AnimationStep::ScoreCard(*card_id));
        },
        GameAnimation::GameOver => {},
        GameAnimation::BrowserSubmitted => {},
        GameAnimation::ShowPlayCardBrowser => {},
    }
    steps
}

/// The ability cards shown beside a card of the user's in play.
#[derive(Clone, Copy, Debug, PartialEq, Eq, Structural)]
pub enum AbilityCard {
    /// The card offering to unveil a face-down project.
    Unveil,
    /// The card of the activated ability with this index.
    Activated(usize),
}

/// The indices of the activated abilities among the first `count` of a
/// card's abilities, in order.
pub open spec fn activated_indices(activated: Seq<bool>, count: int) -> Seq<AbilityCard>
    decreases count,
{
    if count <= 0 {
        Seq::empty()
    } else {
        let before = activated_indices(activated, count - 1);
        if activated[count - 1] {
            before.push(AbilityCard::Activated((count - 1) as usize))
        } else {
            before
        }
    }
}

/// The ability cards shown beside a card, given who owns it and whether it
/// is in play and face down, and for each of its abilities whether it is
/// activated: none unless the card is the user's and in play; for a
/// face-down card, only the unveil card, and that only for the Covenant's
/// projects it may unveil; otherwise one card per activated ability.
pub open spec fn spec_ability_cards(
    user_side: Side,
    card_side: Side,
    in_play: bool,
    face_down: bool,
    is_project: bool,
    can_unveil: bool,
    activated: Seq<bool>,
) -> Seq<AbilityCard> {
    if card_side != user_side || !in_play {
        Seq::empty()
    } else if face_down {
        if user_side == Side::Covenant && is_project && can_unveil {
            seq![AbilityCard::Unveil]
        } else {
            Seq::empty()
        }
    } else {
        activated_indices(activated, activated.len() as int)
    }
}

/// The ability cards shown beside a card, as [spec_ability_cards]
/// describes.
pub fn activated_ability_cards(
    user_side: Side,
    card_side: Side,
    in_play: bool,
    face_down: bool,
    is_project: bool,
    can_unveil: bool,
    activated: &Vec<bool>,
) -> (res: Vec<AbilityCard>)
    ensures
        res@ == spec_ability_cards(
            user_side,
            card_side,
            in_play,
            face_down,
            is_project,
            can_unveil,
            activated@,
        ),
{
    let mut result: Vec<AbilityCard> = Vec::new();
    if card_side != user_side || !in_play {
        return result;
    }
    if face_down {
        if user_side == Side::Covenant && is_project && can_unveil {
            result.push(AbilityCard::Unveil);
            assert(result@ =~= seq![AbilityCard::Unveil]);
        }
        return result;
    }
    let n = activated.len();
    let mut i: usize = 0;
    while i < n
        invariant
            n == activated@.len(),
            i <= n,
            result@ == activated_indices(activated@, i as int),
        decreases n - i,
    {
        if activated[i] {
            result.push(AbilityCard::Activated(i));
        }
        i = i + 1;
    }
    result
}

/// What a card or ability asks to be played on.
#[derive(Clone, Copy, Debug, PartialEq, Eq, Structural)]
pub enum TargetRequirement {
    NoTarget,
    TargetRoom,
}

/// How a card is targeted when played: without a target, into a room, or
/// by an arrow at a room, with the rooms it may be played on.
#[derive(Debug)]
pub enum Targeting {
    NoTargeting { can_play: bool },
    PlayInRoom { valid_rooms: Vec<RoomId> },
    ArrowTargetRoom { valid_rooms: Vec<RoomId> },
}

/// The rooms of the game in their order.
pub open spec fn all_rooms() -> Seq<RoomId> {
    seq![
        RoomId::Vault,
        RoomId::Sanctum,
        RoomId::Crypts,
        RoomId::RoomA,
        RoomId::RoomB,
        RoomId::RoomC,
        RoomId::RoomD,
        RoomId::RoomE,
    ]
}

/// Among the first `count` rooms of the game, in order, those whose flag is
/// set.
pub open spec fn rooms_with(flags: Seq<bool>, count: int) -> Seq<RoomId>
    decreases count,
{
    if count <= 0 {
        Seq::empty()
    } else {
        let before = rooms_with(flags, count - 1);
        if flags[count - 1] {
            before.push(all_rooms()[count - 1])
        } else {
            before
        }
    }
}

/// The rooms of the game in their order.
fn rooms() -> (res: Vec<RoomId>)
    ensures
        res@ == all_rooms(),
{
    let res = vec![
        RoomId::Vault,
        RoomId::Sanctum,
        RoomId::Crypts,
        RoomId::RoomA,
        RoomId::RoomB,
        RoomId::RoomC,
        RoomId::RoomD,
        RoomId::RoomE,
    ];
    assert(res@ =~= all_rooms());
    res
}

/// The rooms of the game, in order, whose flag is set: given for each room
/// whether a card may be played on it, the rooms it may be played on; given
/// whether a player may level up or raid each room, the rooms they may
/// visit.
pub fn rooms_where(flags: &Vec<bool>) -> (res: Vec<RoomId>)
    requires
        flags@.len() == 8,
    ensures
        res@ == rooms_with(flags@, 8),
{
    let all = rooms();
    let mut result: Vec<RoomId> = Vec::new();
    let mut i: usize = 0;
    while i < 8
        invariant
            flags@.len() == 8,
            all@ == all_rooms(),
            i <= 8,
            result@ == rooms_with(flags@, i as int),
        decreases 8 - i,
    {
        if flags[i] {
            result.push(all[i]);
        }
        i = i + 1;
    }
    result
}

/// How a card is targeted, given its requirement (if it states one),
/// whether it is played into a room, whether it may be played without a
/// target, and for each room of the game, in order, whether it may be
/// played on it: without a target when it requires none (or states nothing
/// and is not played into a room); otherwise on the rooms it may be played
/// on, into them when it is played into a room and by an arrow otherwise.
pub fn card_targeting(
    requirement: Option<TargetRequirement>,
    play_in_room: bool,
    can_play_untargeted: bool,
    can_play_room: &Vec<bool>,
) -> (res: Targeting)
    requires
        can_play_room@.len() == 8,
    ensures
        (requirement == Some(TargetRequirement::NoTarget) || (requirement is None && !play_in_room))
            ==> res == (Targeting::NoTargeting { can_play: can_play_untargeted }),
        !(requirement == Some(TargetRequirement::NoTarget) || (requirement is None && !play_in_room))
            ==> match res {
            Targeting::PlayInRoom { valid_rooms } => play_in_room && valid_rooms@ == rooms_with(
                can_play_room@,
                8,
            ),
            Targeting::ArrowTargetRoom { valid_rooms } => !play_in_room && valid_rooms@
                == rooms_with(can_play_room@, 8),
            Targeting::NoTargeting { .. } => false,
        },
{
    let untargeted = match requirement {
        Some(TargetRequirement::NoTarget) => true,
        Some(TargetRequirement::TargetRoom) => false,
        None => !play_in_room,
    };
    if untargeted {
        return Targeting::NoTargeting { can_play: can_play_untargeted };
    }
    let valid_rooms = rooms_where(can_play_room);
    if play_in_room {
        Targeting::PlayInRoom { valid_rooms }
    } else {
        Targeting::ArrowTargetRoom { valid_rooms }
    }
}

/// The name by which the player on `user_side` knows the player on `side`.
pub open spec fn spec_player_name(user_side: Side, side: Side) -> PlayerName {
    if side == user_side {
        PlayerName::User
    } else {
        PlayerName::Opponent
    }
}

/// The name by which the player on `user_side` knows the player on `side`:
/// themselves as the user, the other player as the opponent.
pub fn player_name(user_side: Side, side: Side) -> (res: PlayerName)
    ensures
        res == spec_player_name(user_side, side),
{
    if side == user_side {
        PlayerName::User
    } else {
        PlayerName::Opponent
    }
}

/// A tutorial tooltip: its text, what it points at, and how long after the
/// update it appears, in milliseconds.
#[derive(Debug)]
pub struct Tooltip {
    pub text: String,
    pub anchor: TooltipAnchor,
    pub delay: u32,
}

/// A speech bubble said by a player: its text, the speaker, how long after
/// the update it appears, in milliseconds, and whether it recurs.
#[derive(Debug)]
pub struct SpeechBubble {
    pub text: String,
    pub side: Side,
    pub delay: u32,
    pub recurring: bool,
}

/// A toast message: its text, how long after the update it appears, and how
/// long after that it hides, if it does, in milliseconds.
#[derive(Debug)]
pub struct Toast {
    pub text: String,
    pub delay: u32,
    pub hide_after: Option<u32>,
}

/// Something the tutorial displays.
#[derive(Debug)]
pub enum TutorialDisplay {
    Tooltip(Tooltip),
    SpeechBubble(SpeechBubble),
    Toast(Toast),
}

/// The colours of an arrow bubble: those of tooltips or of speech bubbles.
#[derive(Clone, Copy, Debug, PartialEq, Eq, Structural)]
pub enum BubbleStyle {
    Tooltip,
    SpeechBubble,
}

/// What an arrow bubble points at.
#[derive(Clone, Copy, Debug, PartialEq, Eq, Structural)]
pub enum BubbleAnchor {
    Room(RoomId),
    PlayerMana(PlayerName),
    PlayerDeck(PlayerName),
    Player(PlayerName),
}

/// An arrow bubble to show: its text and colours, what it points at and
/// from which corner, when it appears and when it hides, if it does.
#[derive(Debug)]
pub struct ShowArrowBubble {
    pub text: String,
    pub style: BubbleStyle,
    pub anchor: BubbleAnchor,
    pub arrow_corner: ArrowBubbleCorner,
    pub idle_timer: TimeValue,
    pub hide_time: Option<TimeValue>,
}

/// A toast to show: its text, when it appears and when it hides, if it
/// does.
#[derive(Debug)]
pub struct ShowToast {
    pub text: String,
    pub idle_timer: TimeValue,
    pub hide_time: Option<TimeValue>,
}

/// A tutorial effect for the client to show.
#[derive(Debug)]
pub enum TutorialEffectType {
    ArrowBubble(ShowArrowBubble),
    ShowToast(ShowToast),
}

/// What a tooltip's arrow bubble points at: the room, or the user's mana or
/// deck.
pub open spec fn spec_tooltip_anchor(anchor: TooltipAnchor) -> BubbleAnchor {
    match anchor {
        TooltipAnchor::RaidRoom(room) => BubbleAnchor::Room(room),
        TooltipAnchor::GainMana => BubbleAnchor::PlayerMana(PlayerName::User),
        TooltipAnchor::DrawCard => BubbleAnchor::PlayerDeck(PlayerName::User),
    }
}

/// How the player on `user_side` is shown a tutorial display: a tooltip as
/// an arrow bubble in tooltip colours pointing at its anchor from the
/// corner [tooltip_arrow_corner] picks, appearing after its delay and never
/// hiding by itself; a speech bubble as an arrow bubble in speech bubble
/// colours pointing at the speaker, appearing after its delay and hiding
/// 4000ms later; a toast with its text, appearing after its delay and
/// hiding after its own time, if it has one.
pub open spec fn spec_render_effect(user_side: Side, display: TutorialDisplay) -> TutorialEffectType {
    match display {
        TutorialDisplay::Tooltip(t) => TutorialEffectType::ArrowBubble(
            ShowArrowBubble {
                text: t.text,
                style: BubbleStyle::Tooltip,
                anchor: spec_tooltip_anchor(t.anchor),
                arrow_corner: if t.anchor == TooltipAnchor::GainMana || t.anchor
                    == TooltipAnchor::RaidRoom(RoomId::Vault) {
                    ArrowBubbleCorner::BottomRight
                } else {
                    ArrowBubbleCorner::BottomLeft
                },
                idle_timer: TimeValue { milliseconds: t.delay },
                hide_time: None,
            },
        ),
        TutorialDisplay::SpeechBubble(b) => TutorialEffectType::ArrowBubble(
            ShowArrowBubble {
                text: b.text,
                style: BubbleStyle::SpeechBubble,
                anchor: BubbleAnchor::Player(spec_player_name(user_side, b.side)),
                arrow_corner: ArrowBubbleCorner::Unspecified,
                idle_timer: TimeValue { milliseconds: b.delay },
                hide_time: Some(TimeValue { milliseconds: 4000 }),
            },
        ),
        TutorialDisplay::Toast(t) => TutorialEffectType::ShowToast(
            ShowToast {
                text: t.text,
                idle_timer: TimeValue { milliseconds: t.delay },
                hide_time: match t.hide_after {
                    Some(ms) => Some(TimeValue { milliseconds: ms }),
                    None => None,
                },
            },
        ),
    }
}

/// Shows a tutorial display to the player on `user_side`, as
/// [spec_render_effect] describes.
pub fn render_effect(user_side: Side, display: TutorialDisplay) -> (res: TutorialEffectType)
    ensures
        res == spec_render_effect(user_side, display),
{
    match display {
        TutorialDisplay::Tooltip(t) => {
            let anchor = match t.anchor {
                TooltipAnchor::RaidRoom(room) => BubbleAnchor::Room(room),
                TooltipAnchor::GainMana => BubbleAnchor::PlayerMana(PlayerName::User),
                TooltipAnchor::DrawCard => BubbleAnchor::PlayerDeck(PlayerName::User),
            };
            let arrow_corner = tooltip_arrow_corner(t.anchor);
            TutorialEffectType::ArrowBubble(
                ShowArrowBubble {
                    text: t.text,
                    style: BubbleStyle::Tooltip,
                    anchor,
                    arrow_corner,
                    idle_timer: TimeValue { milliseconds: t.delay },
                    hide_time: None,
                },
            )
        },
        TutorialDisplay::SpeechBubble(b) => {
            let speaker = player_name(user_side, b.side);
            TutorialEffectType::ArrowBubble(
                ShowArrowBubble {
                    text: b.text,
                    style: BubbleStyle::SpeechBubble,
                    anchor: BubbleAnchor::Player(speaker),
                    arrow_corner: ArrowBubbleCorner::Unspecified,
                    idle_timer: TimeValue { milliseconds: b.delay },
                    hide_time: Some(TimeValue { milliseconds: 4000 }),
                },
            )
        },
        TutorialDisplay::Toast(t) => {
            let hide_time = match t.hide_after {
                Some(ms) => Some(TimeValue { milliseconds: ms }),
                None => None,
            };
            TutorialEffectType::ShowToast(
                ShowToast { text: t.text, idle_timer: TimeValue { milliseconds: t.delay }, hide_time },
            )
        },
    }
}

/// Shows each of the tutorial's displays, in order, to the player on
/// `user_side`, as [spec_render_effect] describes.
pub fn render_tutorial(user_side: Side, displays: Vec<TutorialDisplay>) -> (res: Vec<TutorialEffectType>)
    ensures
        res@.len() == displays@.len(),
        forall|i: int|
            0 <= i < displays@.len() ==> #[trigger] res@[i] == spec_render_effect(
                user_side,
                displays@[i],
            ),
{
    let ghost shown = displays@;
    let mut res: Vec<TutorialEffectType> = Vec::new();
    for display in iter: displays
        invariant
            iter.seq() == shown,
            res@.len() == iter.index(),
            forall|i: int|
                0 <= i < iter.index() ==> #[trigger] res@[i] == spec_render_effect(user_side, shown[i]),
    {
        res.push(render_effect(user_side, display));
    }
    res
}

/// An ability a player activates is shown to the other player, exactly as
/// that ability, and not to the player who activated it (whose client shows
/// it as it is made); an ability that triggers is shown to both players,
/// with its effects.
pub proof fn lemma_activated_ability_shown_to_opponent(
    activator: Side,
    user_side: Side,
    ability_id: AbilityId,
)
    ensures
        activator != user_side ==> spec_animation_steps(
            GameAnimation::AbilityActivated(activator, ability_id),
            user_side,
        ) == seq![AnimationStepView::ShowAbility(ability_id)],
        activator == user_side ==> spec_animation_steps(
            GameAnimation::AbilityActivated(activator, ability_id),
            user_side,
        ).len() == 0,
        spec_animation_steps(GameAnimation::AbilityTriggered(ability_id), user_side) == seq![
            AnimationStepView::ShowAbility(ability_id),
            AnimationStepView::PlaySpecialEffects,
        ],
{
}

/// A card a player plays is shown, by itself, to the other player only;
/// the cards a player draws are shown, all of them in order, to that player
/// only.
pub proof fn lemma_cards_shown_to_the_right_player(
    player: Side,
    user_side: Side,
    card: CardId,
    drawn: Vec<CardId>,
)
    ensures
        player != user_side ==> spec_animation_steps(GameAnimation::PlayCard(player, card), user_side)
            == seq![AnimationStepView::ShowCards(seq![card], plain())],
        player == user_side ==> spec_animation_steps(
            GameAnimation::PlayCard(player, card),
            user_side,
        ).len() == 0,
        player == user_side ==> spec_animation_steps(
            GameAnimation::DrawCards(player, drawn),
            user_side,
        ) == seq![AnimationStepView::ShowCards(drawn@, plain())],
        player != user_side ==> spec_animation_steps(
            GameAnimation::DrawCards(player, drawn),
            user_side,
        ).len() == 0,
{
}

} // verus!
