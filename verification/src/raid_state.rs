//! The decisions of the raid state machine.
//!
//! A raid advances through steps. Most steps apply some change to the game
//! and then move to a fixed next step; some ask a player to choose among
//! options, pausing the raid until an action arrives. The changes to the game
//! are applied by the caller; this module decides which step or prompt comes
//! next, given the answers to the queries a step needs.
use vstd::prelude::*;

use crate::adventure::CardType;
use crate::delegates::AbilityId;
use crate::positions::CardId;

verus! {

/// The rooms of the game board.
#[derive(Clone, Copy, Debug, PartialEq, Eq, Structural)]
pub enum RoomId {
    Vault,
    Sanctum,
    Crypts,
    RoomA,
    RoomB,
    RoomC,
    RoomD,
    RoomE,
}

/// A weapon used against a defending minion.
#[derive(Clone, Copy, Debug, PartialEq, Eq, Structural)]
pub struct WeaponInteraction {
    pub weapon_id: CardId,
    pub defender_id: CardId,
}

/// A card being scored.
#[derive(Clone, Copy, Debug, PartialEq, Eq, Structural)]
pub struct ScoredCard {
    pub id: CardId,
}

/// Why the access prompt is being populated.
#[derive(Clone, Copy, Debug, PartialEq, Eq, Structural)]
pub enum PopulateAccessPromptSource {
    Initial,
    FromScore,
    FromRaze,
}

/// Whether razing a card destroys it in play or discards it.
#[derive(Clone, Copy, Debug, PartialEq, Eq, Structural)]
pub enum RazeCardActionType {
    Destroy,
    Discard,
}

/// The steps of a raid.
#[derive(Clone, Copy, Debug, PartialEq, Eq, Structural)]
pub enum RaidStep {
    Begin,
    NextEncounter,
    PopulateSummonPrompt(CardId),
    SummonMinion(CardId),
    DoNotSummon(CardId),
    ApproachMinion(CardId),
    EncounterMinion(CardId),
    PopulateEncounterPrompt(CardId),
    UseWeapon(WeaponInteraction),
    MinionDefeated(WeaponInteraction),
    FireMinionCombatAbility(CardId),
    PopulateApproachPrompt,
    CheckCanAccess,
    AccessStart,
    BuildAccessSet,
    AccessSetBuilt,
    RevealAccessedCards,
    AccessCards,
    WillPopulateAccessPrompt(PopulateAccessPromptSource),
    PopulateAccessPrompt,
    StartScoringCard(ScoredCard),
    ChampionScoreEvent(ScoredCard),
    ScoreEvent(ScoredCard),
    MoveToScoredPosition(ScoredCard),
    StartRazingCard(CardId, u32),
    RazeCard(CardId, u32),
    FinishAccess,
    FinishRaid,
}

/// What a raid prompt is asking about.
#[derive(Clone, Copy, Debug, PartialEq, Eq, Structural)]
pub enum RaidStatus {
    Summon,
    Encounter,
    ApproachRoom,
    Access,
}

/// The label of an option offered during a raid.
#[derive(Clone, Copy, Debug, PartialEq, Eq, Structural)]
pub enum RaidLabel {
    SummonMinion(CardId),
    DoNotSummonMinion,
    UseWeapon(WeaponInteraction),
    DoNotUseWeapon,
    ProceedToAccess,
    ScoreCard(CardId),
    RazeCard(CardId, RazeCardActionType),
    EndAccess,
    EndRaid,
}

/// An option offered during a raid: its label and the step it leads to.
#[derive(Clone, Copy, Debug, PartialEq, Eq, Structural)]
pub struct RaidChoice {
    pub label: RaidLabel,
    pub step: RaidStep,
}

impl RaidChoice {
    pub fn new(label: RaidLabel, step: RaidStep) -> (res: RaidChoice)
        ensures
            res == (RaidChoice { label, step }),
    {
        RaidChoice { label, step }
    }
}

/// Options offered to a player, and the step which offered them.
#[derive(Debug)]
pub struct RaidPrompt {
    pub status: RaidStatus,
    pub populated_by: RaidStep,
    pub choices: Vec<RaidChoice>,
}

/// Where a raid stands: about to evaluate a step, or waiting on a prompt.
#[derive(Debug)]
pub enum RaidState {
    Step(RaidStep),
    Prompt(RaidPrompt),
}

/// The mathematical content of a [RaidState].
pub enum RaidStateView {
    Step(RaidStep),
    Prompt { status: RaidStatus, populated_by: RaidStep, choices: Seq<RaidChoice> },
}

impl View for RaidState {
    type V = RaidStateView;

    open spec fn view(&self) -> RaidStateView {
        match self {
            RaidState::Step(step) => RaidStateView::Step(*step),
            RaidState::Prompt(prompt) => RaidStateView::Prompt {
                status: prompt.status,
                populated_by: prompt.populated_by,
                choices: prompt.choices@,
            },
        }
    }
}

/// A request to move a raid elsewhere, made by a card effect.
#[derive(Clone, Copy, Debug, PartialEq, Eq, Structural)]
pub enum RaidJumpRequest {
    EncounterMinion(CardId),
    ChangeTarget(RoomId),
    EvadeCurrentMinion,
}

/// Who began a raid: a player's raid action, or a card's ability.
#[derive(Clone, Copy, Debug, PartialEq, Eq, Structural)]
pub enum InitiatedBy {
    GameAction,
    Ability(AbilityId),
}

/// The state of a raid in progress.
#[derive(Debug)]
pub struct RaidData {
    pub target: RoomId,
    /// Who began the raid.
    pub initiated_by: InitiatedBy,
    /// The id of the game event which began the raid.
    pub raid_id: u32,
    /// The index of the defender being encountered.
    pub encounter: usize,
    /// The id of the event which began the current minion encounter, if any.
    pub minion_encounter_id: Option<u32>,
    /// The id of the event which began the access phase, if it has begun.
    pub room_access_id: Option<u32>,
    pub state: RaidState,
    pub accessed: Vec<CardId>,
    pub jump_request: Option<RaidJumpRequest>,
    /// Whether a card effect prevents accessing cards in this raid.
    pub is_card_access_prevented: bool,
    /// Whether this raid only runs the access phase of a raid.
    pub is_custom_access: bool,
}

/// Whether two raids agree on who began them, their id, their event ids
/// and their flags.
pub open spec fn same_record(a: RaidData, b: RaidData) -> bool {
    &&& a.initiated_by == b.initiated_by
    &&& a.raid_id == b.raid_id
    &&& a.minion_encounter_id == b.minion_encounter_id
    &&& a.room_access_id == b.room_access_id
    &&& a.is_card_access_prevented == b.is_card_access_prevented
    &&& a.is_custom_access == b.is_custom_access
}

/// A player's choice of the option with the given index in a raid prompt.
#[derive(Clone, Copy, Debug, PartialEq, Eq, Structural)]
pub struct RaidAction {
    pub index: usize,
}

/// Why the raid state machine could not advance.
#[derive(Clone, Copy, Debug, PartialEq, Eq, Structural)]
pub enum RaidError {
    /// A raid action chose an option the prompt does not have.
    IndexOutOfBounds,
    /// A jump request named a minion which is not defending any room.
    MinionNotFound,
    /// The chosen weapon cannot defeat the minion it was used against.
    CannotDefeatTarget,
    /// A custom access was asked for while a raid is under way.
    RaidAlreadyActive,
}

/// What the raid state machine does next in a run.
#[derive(Clone, Copy, Debug, PartialEq, Eq, Structural)]
pub enum RunDecision {
    /// Stop running until something changes.
    Stop,
    /// Evaluate a step; `action_used` records whether the pending raid action
    /// chose it, so that it is not used again.
    Evaluate { step: RaidStep, action_used: bool },
    /// Discard the waiting prompt and evaluate again the step which populated
    /// it, in case the available options have changed.
    Regenerate(RaidStep),
}

/// The next step of a step whose successor does not depend on the game:
/// `None` for the steps which consult the game to decide.
pub open spec fn spec_successor(step: RaidStep) -> Option<RaidStep> {
    match step {
        RaidStep::Begin => Some(RaidStep::NextEncounter),
        RaidStep::NextEncounter => None,
        RaidStep::PopulateSummonPrompt(_) => None,
        RaidStep::SummonMinion(m) => Some(RaidStep::ApproachMinion(m)),
        RaidStep::DoNotSummon(_) => Some(RaidStep::NextEncounter),
        RaidStep::ApproachMinion(m) => Some(RaidStep::EncounterMinion(m)),
        RaidStep::EncounterMinion(m) => Some(RaidStep::PopulateEncounterPrompt(m)),
        RaidStep::PopulateEncounterPrompt(_) => None,
        RaidStep::UseWeapon(i) => Some(RaidStep::MinionDefeated(i)),
        RaidStep::MinionDefeated(_) => Some(RaidStep::NextEncounter),
        RaidStep::FireMinionCombatAbility(_) => Some(RaidStep::NextEncounter),
        RaidStep::PopulateApproachPrompt => None,
        RaidStep::CheckCanAccess => None,
        RaidStep::AccessStart => Some(RaidStep::BuildAccessSet),
        RaidStep::BuildAccessSet => Some(RaidStep::AccessSetBuilt),
        RaidStep::AccessSetBuilt => Some(RaidStep::RevealAccessedCards),
        RaidStep::RevealAccessedCards => Some(RaidStep::AccessCards),
        RaidStep::AccessCards => Some(
            RaidStep::WillPopulateAccessPrompt(PopulateAccessPromptSource::Initial),
        ),
        RaidStep::WillPopulateAccessPrompt(_) => Some(RaidStep::PopulateAccessPrompt),
        RaidStep::PopulateAccessPrompt => None,
        RaidStep::StartScoringCard(s) => Some(RaidStep::ChampionScoreEvent(s)),
        RaidStep::ChampionScoreEvent(s) => Some(RaidStep::ScoreEvent(s)),
        RaidStep::ScoreEvent(s) => Some(RaidStep::MoveToScoredPosition(s)),
        RaidStep::MoveToScoredPosition(_) => Some(
            RaidStep::WillPopulateAccessPrompt(PopulateAccessPromptSource::FromScore),
        ),
        RaidStep::StartRazingCard(c, cost) => Some(RaidStep::RazeCard(c, cost)),
        RaidStep::RazeCard(_, _) => Some(
            RaidStep::WillPopulateAccessPrompt(PopulateAccessPromptSource::FromRaze),
        ),
        RaidStep::FinishAccess => Some(RaidStep::FinishRaid),
        RaidStep::FinishRaid => Some(RaidStep::FinishRaid),
    }
}

/// Returns the step which follows `step` once its changes to the game have
/// been applied, for the steps whose successor does not depend on the game.
pub fn successor(step: RaidStep) -> (res: Option<RaidStep>)
    ensures
        res == spec_successor(step),
{
    match step {
        RaidStep::Begin => Some(RaidStep::NextEncounter),
        RaidStep::NextEncounter => None,
        RaidStep::PopulateSummonPrompt(_) => None,
        RaidStep::SummonMinion(m) => Some(RaidStep::ApproachMinion(m)),
        RaidStep::DoNotSummon(_) => Some(RaidStep::NextEncounter),
        RaidStep::ApproachMinion(m) => Some(RaidStep::EncounterMinion(m)),
        RaidStep::EncounterMinion(m) => Some(RaidStep::PopulateEncounterPrompt(m)),
        RaidStep::PopulateEncounterPrompt(_) => None,
        RaidStep::UseWeapon(i) => Some(RaidStep::MinionDefeated(i)),
        RaidStep::MinionDefeated(_) => Some(RaidStep::NextEncounter),
        RaidStep::FireMinionCombatAbility(_) => Some(RaidStep::NextEncounter),
        RaidStep::PopulateApproachPrompt => None,
        RaidStep::CheckCanAccess => None,
        RaidStep::AccessStart => Some(RaidStep::BuildAccessSet),
        RaidStep::BuildAccessSet => Some(RaidStep::AccessSetBuilt),
        RaidStep::AccessSetBuilt => Some(RaidStep::RevealAccessedCards),
        RaidStep::RevealAccessedCards => Some(RaidStep::AccessCards),
        RaidStep::AccessCards => Some(
            RaidStep::WillPopulateAccessPrompt(PopulateAccessPromptSource::Initial),
        ),
        RaidStep::WillPopulateAccessPrompt(_) => Some(RaidStep::PopulateAccessPrompt),
        RaidStep::PopulateAccessPrompt => None,
        RaidStep::StartScoringCard(s) => Some(RaidStep::ChampionScoreEvent(s)),
        RaidStep::ChampionScoreEvent(s) => Some(RaidStep::ScoreEvent(s)),
        RaidStep::ScoreEvent(s) => Some(RaidStep::MoveToScoredPosition(s)),
        RaidStep::MoveToScoredPosition(_) => Some(
            RaidStep::WillPopulateAccessPrompt(PopulateAccessPromptSource::FromScore),
        ),
        RaidStep::StartRazingCard(c, cost) => Some(RaidStep::RazeCard(c, cost)),
        RaidStep::RazeCard(_, _) => Some(
            RaidStep::WillPopulateAccessPrompt(PopulateAccessPromptSource::FromRaze),
        ),
        RaidStep::FinishAccess => Some(RaidStep::FinishRaid),
        RaidStep::FinishRaid => Some(RaidStep::FinishRaid),
    }
}

/// Asks the Covenant player whether to summon the minion about to be
/// approached.
pub fn populate_summon_prompt(minion_id: CardId) -> (res: RaidState)
    ensures
        res@ == (RaidStateView::Prompt {
            status: RaidStatus::Summon,
            populated_by: RaidStep::PopulateSummonPrompt(minion_id),
            choices: seq![
                RaidChoice {
                    label: RaidLabel::SummonMinion(minion_id),
                    step: RaidStep::SummonMinion(minion_id),
                },
                RaidChoice { label: RaidLabel::DoNotSummonMinion, step: RaidStep::DoNotSummon(minion_id) },
            ],
        }),
{
    let mut choices = Vec::new();
    choices.push(
        RaidChoice::new(RaidLabel::SummonMinion(minion_id), RaidStep::SummonMinion(minion_id)),
    );
    choices.push(RaidChoice::new(RaidLabel::DoNotSummonMinion, RaidStep::DoNotSummon(minion_id)));
    let res = RaidState::Prompt(
        RaidPrompt {
            status: RaidStatus::Summon,
            populated_by: RaidStep::PopulateSummonPrompt(minion_id),
            choices,
        },
    );
    assert(res@->choices =~= seq![
        RaidChoice {
            label: RaidLabel::SummonMinion(minion_id),
            step: RaidStep::SummonMinion(minion_id),
        },
        RaidChoice { label: RaidLabel::DoNotSummonMinion, step: RaidStep::DoNotSummon(minion_id) },
    ]);
    res
}

/// The option of using `weapon_id` against `minion_id`.
pub open spec fn weapon_choice(weapon_id: CardId, minion_id: CardId) -> RaidChoice {
    RaidChoice {
        label: RaidLabel::UseWeapon(WeaponInteraction { weapon_id, defender_id: minion_id }),
        step: RaidStep::UseWeapon(WeaponInteraction { weapon_id, defender_id: minion_id }),
    }
}

/// The options of an encounter: each weapon which can defeat the minion, in
/// order, then declining to use a weapon when that is allowed.
pub open spec fn encounter_choices(
    minion_id: CardId,
    weapons: Seq<CardId>,
    can_use_no_weapon: bool,
) -> Seq<RaidChoice> {
    weapons.map_values(|w: CardId| weapon_choice(w, minion_id)) + if can_use_no_weapon {
        seq![
            RaidChoice {
                label: RaidLabel::DoNotUseWeapon,
                step: RaidStep::FireMinionCombatAbility(minion_id),
            },
        ]
    } else {
        Seq::empty()
    }
}

/// Asks the Riftcaller player how to deal with the minion being encountered.
/// `weapons` are the artifacts which can defeat the minion, in the order the
/// player holds them; `can_use_no_weapon` tells whether the player may let
/// the minion's combat ability fire instead.
pub fn populate_encounter_prompt(
    minion_id: CardId,
    weapons: &[CardId],
    can_use_no_weapon: bool,
) -> (res: RaidState)
    ensures
        res@ == (RaidStateView::Prompt {
            status: RaidStatus::Encounter,
            populated_by: RaidStep::PopulateEncounterPrompt(minion_id),
            choices: encounter_choices(minion_id, weapons@, can_use_no_weapon),
        }),
{
    let mut choices: Vec<RaidChoice> = Vec::new();
    let n = weapons.len();
    let mut i: usize = 0;
    while i < n
        invariant
            n == weapons@.len(),
            i <= n,
            choices@ =~= weapons@.take(i as int).map_values(
                |w: CardId| weapon_choice(w, minion_id),
            ),
        decreases n - i,
    {
        let interaction = WeaponInteraction { weapon_id: weapons[i], defender_id: minion_id };
        choices.push(
            RaidChoice::new(RaidLabel::UseWeapon(interaction), RaidStep::UseWeapon(interaction)),
        );
        i = i + 1;
    }
    assert(weapons@.take(n as int) =~= weapons@);
    if can_use_no_weapon {
        choices.push(
            RaidChoice::new(RaidLabel::DoNotUseWeapon, RaidStep::FireMinionCombatAbility(minion_id)),
        );
    }
    let res = RaidState::Prompt(
        RaidPrompt {
            status: RaidStatus::Encounter,
            populated_by: RaidStep::PopulateEncounterPrompt(minion_id),
            choices,
        },
    );
    assert(res@->choices =~= encounter_choices(minion_id, weapons@, can_use_no_weapon));
    res
}

/// When the Covenant player can act at instant speed, asks for confirmation
/// before accessing the room; otherwise goes straight to checking access.
pub fn populate_approach_prompt(covenant_has_instant_speed_actions: bool) -> (res: RaidState)
    ensures
        covenant_has_instant_speed_actions ==> res@ == (RaidStateView::Prompt {
            status: RaidStatus::ApproachRoom,
            populated_by: RaidStep::PopulateApproachPrompt,
            choices: seq![
                RaidChoice { label: RaidLabel::ProceedToAccess, step: RaidStep::CheckCanAccess },
            ],
        }),
        !covenant_has_instant_speed_actions ==> res@ == RaidStateView::Step(
            RaidStep::CheckCanAccess,
        ),
{
    if covenant_has_instant_speed_actions {
        let mut choices = Vec::new();
        choices.push(RaidChoice::new(RaidLabel::ProceedToAccess, RaidStep::CheckCanAccess));
        let res = RaidState::Prompt(
            RaidPrompt {
                status: RaidStatus::ApproachRoom,
                populated_by: RaidStep::PopulateApproachPrompt,
                choices,
            },
        );
        assert(res@->choices =~= seq![
            RaidChoice { label: RaidLabel::ProceedToAccess, step: RaidStep::CheckCanAccess },
        ]);
        res
    } else {
        RaidState::Step(RaidStep::CheckCanAccess)
    }
}

/// Starts accessing cards when the raid may access them, and otherwise
/// finishes the raid.
pub fn check_can_access(can_access_cards: bool) -> (res: RaidState)
    ensures
        res@ == RaidStateView::Step(
            if can_access_cards {
                RaidStep::AccessStart
            } else {
                RaidStep::FinishRaid
            },
        ),
{
    if can_access_cards {
        RaidState::Step(RaidStep::AccessStart)
    } else {
        RaidState::Step(RaidStep::FinishRaid)
    }
}

/// The options present among `actions`, in order.
pub open spec fn present_choices(actions: Seq<Option<RaidChoice>>) -> Seq<RaidChoice>
    decreases actions.len(),
{
    if actions.len() == 0 {
        Seq::empty()
    } else {
        let before = present_choices(actions.drop_last());
        match actions.last() {
            Some(c) => before.push(c),
            None => before,
        }
    }
}

/// The options of the access prompt: the action available for each accessed
/// card that has one, in order, then ending the access when that is
/// allowed, labelled as ending the raid unless this is a custom access.
pub open spec fn access_choices(
    card_actions: Seq<Option<RaidChoice>>,
    can_end: bool,
    is_custom_access: bool,
) -> Seq<RaidChoice> {
    present_choices(card_actions) + if can_end {
        seq![
            RaidChoice {
                label: if is_custom_access {
                    RaidLabel::EndAccess
                } else {
                    RaidLabel::EndRaid
                },
                step: RaidStep::FinishAccess,
            },
        ]
    } else {
        Seq::empty()
    }
}

/// Asks the Riftcaller player what to do with the accessed cards.
/// `card_actions` holds, for each accessed card in order, the action
/// available for it, if any; `can_end` tells whether the player may end the
/// access phase.
pub fn populate_access_prompt(
    card_actions: &[Option<RaidChoice>],
    can_end: bool,
    is_custom_access: bool,
) -> (res: RaidState)
    ensures
        res@ == (RaidStateView::Prompt {
            status: RaidStatus::Access,
            populated_by: RaidStep::PopulateAccessPrompt,
            choices: access_choices(card_actions@, can_end, is_custom_access),
        }),
{
    let mut choices: Vec<RaidChoice> = Vec::new();
    let n = card_actions.len();
    let mut i: usize = 0;
    while i < n
        invariant
            n == card_actions@.len(),
            i <= n,
            choices@ == present_choices(card_actions@.take(i as int)),
        decreases n - i,
    {
        proof {
            assert(card_actions@.take(i + 1).drop_last() =~= card_actions@.take(i as int));
        }
        if let Some(choice) = card_actions[i] {
            choices.push(choice);
        }
        i = i + 1;
    }
    assert(card_actions@.take(n as int) =~= card_actions@);
    if can_end {
        let label = if is_custom_access {
            RaidLabel::EndAccess
        } else {
            RaidLabel::EndRaid
        };
        choices.push(RaidChoice::new(label, RaidStep::FinishAccess));
    }
    let res = RaidState::Prompt(
        RaidPrompt {
            status: RaidStatus::Access,
            populated_by: RaidStep::PopulateAccessPrompt,
            choices,
        },
    );
    assert(res@->choices =~= access_choices(card_actions@, can_end, is_custom_access));
    res
}

/// The action available for an accessed card: scoring a scheme which can be
/// scored, or razing a project which can be razed (destroying it when in
/// play, discarding it otherwise, for `raze_cost` mana).
pub open spec fn spec_access_action(
    card_id: CardId,
    card_type: CardType,
    can_score: bool,
    can_raze: bool,
    in_play: bool,
    raze_cost: u32,
) -> Option<RaidChoice> {
    if card_type == CardType::Scheme && can_score {
        Some(
            RaidChoice {
                label: RaidLabel::ScoreCard(card_id),
                step: RaidStep::StartScoringCard(ScoredCard { id: card_id }),
            },
        )
    } else if card_type == CardType::Project && can_raze {
        Some(
            RaidChoice {
                label: RaidLabel::RazeCard(
                    card_id,
                    if in_play {
                        RazeCardActionType::Destroy
                    } else {
                        RazeCardActionType::Discard
                    },
                ),
                step: RaidStep::StartRazingCard(card_id, raze_cost),
            },
        )
    } else {
        None
    }
}

/// Returns the action available to the Riftcaller for an accessed card of
/// type `card_type`, given whether it can be scored, whether it can be
/// razed, whether it is in play and what razing it costs.
pub fn access_action_for_card(
    card_id: CardId,
    card_type: CardType,
    can_score: bool,
    can_raze: bool,
    in_play: bool,
    raze_cost: u32,
) -> (res: Option<RaidChoice>)
    ensures
        res == spec_access_action(card_id, card_type, can_score, can_raze, in_play, raze_cost),
{
    if card_type == CardType::Scheme && can_score {
        Some(
            RaidChoice::new(
                RaidLabel::ScoreCard(card_id),
                RaidStep::StartScoringCard(ScoredCard { id: card_id }),
            ),
        )
    } else if card_type == CardType::Project && can_raze {
        let raze_type = if in_play {
            RazeCardActionType::Destroy
        } else {
            RazeCardActionType::Discard
        };
        Some(
            RaidChoice::new(
                RaidLabel::RazeCard(card_id, raze_type),
                RaidStep::StartRazingCard(card_id, raze_cost),
            ),
        )
    } else {
        None
    }
}

/// Whether the Riftcaller can score an accessed card: only during a raid
/// which accessed it, and only for cards worth scheme points.
pub fn can_score_card(accessed: Option<&Vec<CardId>>, card_id: CardId, has_scheme_points: bool) -> (res:
    bool)
    ensures
        res == (match accessed {
            Some(cards) => cards@.contains(card_id) && has_scheme_points,
            None => false,
        }),
{
    match accessed {
        None => false,
        Some(cards) => {
            let n = cards.len();
            let mut i: usize = 0;
            let mut found = false;
            while i < n
                invariant
                    n == cards@.len(),
                    i <= n,
                    found == (exists|j: int| 0 <= j < i && cards@[j] == card_id),
                decreases n - i,
            {
                if cards[i] == card_id {
                    found = true;
                }
                i = i + 1;
            }
            found && has_scheme_points
        },
    }
}

/// Whether the Riftcaller can raze an accessed project: it must not already
/// be in the discard pile, and its raze cost must not exceed the mana
/// available for razing it.
pub fn can_raze_project(in_discard_pile: bool, raze_cost: u32, available_mana: u32) -> (res: bool)
    ensures
        res == (!in_discard_pile && raze_cost <= available_mana),
{
    !in_discard_pile && raze_cost <= available_mana
}

/// Decides the next move of a run of the raid state machine. The machine
/// stops while either player has a prompt to answer, outside the play phase
/// and when no raid is active. A step is evaluated. A prompt with a pending
/// action evaluates the step of the chosen option; a prompt without one is
/// regenerated once per run, after which the machine stops.
pub fn run_decision(
    prompts_pending: bool,
    in_play_phase: bool,
    raid: Option<&RaidState>,
    action: Option<RaidAction>,
    regenerated_prompt: bool,
) -> (res: Result<RunDecision, RaidError>)
    ensures
        res == run_decision_outcome(
            prompts_pending,
            in_play_phase,
            match raid {
                Some(state) => Some(state@),
                None => None,
            },
            action,
            regenerated_prompt,
        ),
{
    if prompts_pending || !in_play_phase {
        return Ok(RunDecision::Stop);
    }
    match raid {
        None => Ok(RunDecision::Stop),
        Some(RaidState::Step(step)) => Ok(RunDecision::Evaluate { step: *step, action_used: false }),
        Some(RaidState::Prompt(prompt)) => match action {
            Some(a) => {
                if a.index < prompt.choices.len() {
                    Ok(RunDecision::Evaluate { step: prompt.choices[a.index].step, action_used: true })
                } else {
                    Err(RaidError::IndexOutOfBounds)
                }
            },
            None => {
                if regenerated_prompt {
                    Ok(RunDecision::Stop)
                } else {
                    Ok(RunDecision::Regenerate(prompt.populated_by))
                }
            },
        },
    }
}

/// Where the cards accessed in a raid come from.
#[derive(Clone, Copy, Debug, PartialEq, Eq, Structural)]
pub enum AccessSource {
    /// The given number of cards from the top of the Covenant deck.
    TopOfDeck(u32),
    /// The given number of cards chosen at random from the Covenant hand.
    RandomFromHand(u32),
    /// Every card of the Covenant discard pile.
    DiscardPile,
    /// The cards occupying the target room.
    Occupants,
}

/// Where the cards accessed when raiding `target` come from: the top of the
/// deck for the vault, random cards of the hand for the sanctum, the whole
/// discard pile for the crypts, and the occupants of any other room. The
/// counts are those the game's rules currently give for the vault and the
/// sanctum.
pub fn access_source(target: RoomId, vault_access_count: u32, sanctum_access_count: u32) -> (res:
    AccessSource)
    ensures
        res == (match target {
            RoomId::Vault => AccessSource::TopOfDeck(vault_access_count),
            RoomId::Sanctum => AccessSource::RandomFromHand(sanctum_access_count),
            RoomId::Crypts => AccessSource::DiscardPile,
            _ => AccessSource::Occupants,
        }),
{
    match target {
        RoomId::Vault => AccessSource::TopOfDeck(vault_access_count),
        RoomId::Sanctum => AccessSource::RandomFromHand(sanctum_access_count),
        RoomId::Crypts => AccessSource::DiscardPile,
        _ => AccessSource::Occupants,
    }
}

/// The first `count` cards of `cards`, or all of them when there are fewer.
pub open spec fn first_cards(cards: Seq<CardId>, count: u32) -> Seq<CardId> {
    cards.take(if count < cards.len() {
        count as int
    } else {
        cards.len() as int
    })
}

/// The cards accessed when raiding `target`, given the Covenant's deck
/// from its top, its hand in an order drawn at random, its discard pile
/// and the occupants of the target room: for the vault the top
/// `vault_access_count` cards of the deck, for the sanctum the first
/// `sanctum_access_count` cards of the hand in that random order, for the
/// crypts the whole discard pile, and for any other room its occupants.
/// Where the deck or hand holds fewer cards than the count, all of them are
/// accessed.
pub open spec fn spec_accessed_cards(
    target: RoomId,
    vault_access_count: u32,
    sanctum_access_count: u32,
    deck_from_top: Seq<CardId>,
    hand_in_random_order: Seq<CardId>,
    discard_pile: Seq<CardId>,
    occupants: Seq<CardId>,
) -> Seq<CardId> {
    match target {
        RoomId::Vault => first_cards(deck_from_top, vault_access_count),
        RoomId::Sanctum => first_cards(hand_in_random_order, sanctum_access_count),
        RoomId::Crypts => discard_pile,
        _ => occupants,
    }
}

/// A copy of the first `count` cards of `cards`, or of all of them when
/// there are fewer.
fn copy_first_cards(cards: &Vec<CardId>, count: u32) -> (res: Vec<CardId>)
    ensures
        res@ == first_cards(cards@, count),
{
    let n: usize = if (count as usize) < cards.len() {
        count as usize
    } else {
        cards.len()
    };
    let mut res: Vec<CardId> = Vec::new();
    let mut i: usize = 0;
    while i < n
        invariant
            n <= cards@.len(),
            n == (if count < cards@.len() {
                count as int
            } else {
                cards@.len() as int
            }),
            i <= n,
            res@ == cards@.take(i as int),
        decreases n - i,
    {
        proof {
            assert(cards@.take(i + 1) =~= cards@.take(i as int).push(cards@[i as int]));
        }
        res.push(cards[i]);
        i = i + 1;
    }
    res
}

/// Selects the cards accessed when raiding `target`, as
/// [spec_accessed_cards] describes. The order of the hand is the outcome of
/// the random choice of sanctum cards; whatever it is, at most
/// `sanctum_access_count` cards of the hand are accessed, and no card twice
/// when the hand holds none twice.
pub fn select_accessed_cards(
    target: RoomId,
    vault_access_count: u32,
    sanctum_access_count: u32,
    deck_from_top: &Vec<CardId>,
    hand_in_random_order: &Vec<CardId>,
    discard_pile: &Vec<CardId>,
    occupants: &Vec<CardId>,
) -> (res: Vec<CardId>)
    ensures
        res@ == spec_accessed_cards(
            target,
            vault_access_count,
            sanctum_access_count,
            deck_from_top@,
            hand_in_random_order@,
            discard_pile@,
            occupants@,
        ),
        target == RoomId::Sanctum ==> res@.len() <= sanctum_access_count && (forall|i: int|
            0 <= i < res@.len() ==> hand_in_random_order@.contains(#[trigger] res@[i])) && (
        hand_in_random_order@.no_duplicates() ==> res@.no_duplicates()),
        target == RoomId::Vault ==> res@.len() <= vault_access_count && res@.is_prefix_of(
            deck_from_top@,
        ),
{
    let res = match target {
        RoomId::Vault => copy_first_cards(deck_from_top, vault_access_count),
        RoomId::Sanctum => copy_first_cards(hand_in_random_order, sanctum_access_count),
        RoomId::Crypts => crate::display::copy_cards(discard_pile),
        _ => crate::display::copy_cards(occupants),
    };
    proof {
        if target == RoomId::Sanctum {
            assert forall|i: int| 0 <= i < res@.len() implies hand_in_random_order@.contains(
                #[trigger] res@[i],
            ) by {
                assert(hand_in_random_order@[i] == res@[i]);
            }
            if hand_in_random_order@.no_duplicates() {
                assert forall|i: int, j: int|
                    0 <= i < res@.len() && 0 <= j < res@.len() && i != j implies res@[i]
                    != res@[j] by {
                    assert(hand_in_random_order@[i] == res@[i]);
                    assert(hand_in_random_order@[j] == res@[j]);
                }
            }
        }
        if target == RoomId::Vault {
            assert(res@ =~= deck_from_top@.subrange(0, res@.len() as int));
        }
    }
    res
}

/// An extra cost of using a weapon.
#[derive(Clone, Copy, Debug, PartialEq, Eq, Structural)]
pub enum CustomWeaponCost {
    ActionPoints(u32),
}

/// The cost of one activation of a weapon's custom boost.
#[derive(Clone, Copy, Debug, PartialEq, Eq, Structural)]
pub enum CustomBoostCost {
    PowerCharges(u32),
}

/// A weapon's custom boost, activated `activation_count` times.
#[derive(Clone, Copy, Debug, PartialEq, Eq, Structural)]
pub struct CustomBoostActivation {
    pub cost: CustomBoostCost,
    pub activation_count: u32,
}

/// What it costs a weapon to defeat a minion.
#[derive(Clone, Copy, Debug, PartialEq, Eq, Structural)]
pub struct CostToDefeat {
    pub mana_cost: u32,
    pub attack_boost: u32,
    pub custom_weapon_cost: Option<CustomWeaponCost>,
    pub custom_boost_activation: Option<CustomBoostActivation>,
}

/// What the Riftcaller pays to use a weapon: mana, and where the weapon
/// calls for them, action points and the weapon's power charges.
#[derive(Clone, Copy, Debug, PartialEq, Eq, Structural)]
pub struct WeaponPayment {
    pub mana: u32,
    pub action_points: Option<u32>,
    pub power_charges: Option<u32>,
}

/// Whether paying for a weapon's boost activations fits in a `u32`.
pub open spec fn boost_fits(cost: Option<CostToDefeat>) -> bool {
    match cost {
        Some(c) => match c.custom_boost_activation {
            Some(a) => match a.cost {
                CustomBoostCost::PowerCharges(n) => n * a.activation_count <= u32::MAX,
            },
            None => true,
        },
        None => true,
    }
}

/// Decides the use of a weapon against a minion, given what it costs the
/// weapon to defeat the minion (`None` when it cannot): the payment owed --
/// the mana cost, the action points of a custom weapon cost, and the power
/// charges of each boost activation times the number of activations -- and
/// the next step, the minion's defeat.
pub fn use_weapon(interaction: WeaponInteraction, cost_to_defeat: Option<CostToDefeat>) -> (res: Result<
    (WeaponPayment, RaidStep),
    RaidError,
>)
    requires
        boost_fits(cost_to_defeat),
    ensures
        match cost_to_defeat {
            None => res == Err::<(WeaponPayment, RaidStep), RaidError>(RaidError::CannotDefeatTarget),
            Some(c) => res == Ok::<(WeaponPayment, RaidStep), RaidError>(
                (
                    WeaponPayment {
                        mana: c.mana_cost,
                        action_points: match c.custom_weapon_cost {
                            Some(CustomWeaponCost::ActionPoints(points)) => Some(points),
                            None => None,
                        },
                        power_charges: match c.custom_boost_activation {
                            Some(a) => match a.cost {
                                CustomBoostCost::PowerCharges(n) => Some(
                                    (n * a.activation_count) as u32,
                                ),
                            },
                            None => None,
                        },
                    },
                    RaidStep::MinionDefeated(interaction),
                ),
            ),
        },
{
    let cost = match cost_to_defeat {
        Some(c) => c,
        None => {
            return Err(RaidError::CannotDefeatTarget);
        },
    };
    let action_points = match cost.custom_weapon_cost {
        Some(CustomWeaponCost::ActionPoints(points)) => Some(points),
        None => None,
    };
    let power_charges = match cost.custom_boost_activation {
        Some(activation) => match activation.cost {
            CustomBoostCost::PowerCharges(n) => Some(n * activation.activation_count),
        },
        None => None,
    };
    Ok(
        (
            WeaponPayment { mana: cost.mana_cost, action_points, power_charges },
            RaidStep::MinionDefeated(interaction),
        ),
    )
}

impl RaidData {
    /// A raid on `target` just begun by `initiated_by` with the event id
    /// `raid_id`: at its first step, with its encounter position set to the
    /// number of the room's defenders (defenders are encountered from the
    /// outermost inwards), no encounter or access begun, nothing accessed,
    /// no jump requested and nothing prevented.
    pub fn initiate(target: RoomId, defender_count: usize, initiated_by: InitiatedBy, raid_id: u32) -> (res:
        RaidData)
        ensures
            res.target == target,
            res.initiated_by == initiated_by,
            res.raid_id == raid_id,
            res.encounter == defender_count,
            res.minion_encounter_id is None,
            res.room_access_id is None,
            res.state@ == RaidStateView::Step(RaidStep::Begin),
            res.accessed@ == Seq::<CardId>::empty(),
            res.jump_request is None,
            !res.is_card_access_prevented,
            !res.is_custom_access,
    {
        RaidData {
            target,
            initiated_by,
            raid_id,
            encounter: defender_count,
            minion_encounter_id: None,
            room_access_id: None,
            state: RaidState::Step(RaidStep::Begin),
            accessed: Vec::new(),
            jump_request: None,
            is_card_access_prevented: false,
            is_custom_access: false,
        }
    }

    /// A custom access of the `accessed` cards of `target`, begun by
    /// `initiated_by` with the event id `raid_id`, which runs only the access
    /// phase of a raid: it starts by revealing the accessed cards, so it
    /// never passes the steps which begin a raid, start its access phase or
    /// build its access set (see [lemma_custom_access_stays_in_access]).
    /// Refused while a raid is under way.
    pub fn initiate_custom_access(
        raid_active: bool,
        target: RoomId,
        defender_count: usize,
        initiated_by: InitiatedBy,
        raid_id: u32,
        accessed: Vec<CardId>,
    ) -> (res: Result<RaidData, RaidError>)
        ensures
            raid_active ==> res == Err::<RaidData, RaidError>(RaidError::RaidAlreadyActive),
            !raid_active ==> (res matches Ok(raid) && raid.target == target && raid.initiated_by
                == initiated_by && raid.raid_id == raid_id && raid.encounter == defender_count
                && raid.minion_encounter_id is None && raid.room_access_id is None && raid.state@
                == RaidStateView::Step(RaidStep::RevealAccessedCards) && raid.accessed@
                == accessed@ && raid.jump_request is None && !raid.is_card_access_prevented
                && raid.is_custom_access),
    {
        if raid_active {
            return Err(RaidError::RaidAlreadyActive);
        }
        Ok(
            RaidData {
                target,
                initiated_by,
                raid_id,
                encounter: defender_count,
                minion_encounter_id: None,
                room_access_id: None,
                state: RaidState::Step(RaidStep::RevealAccessedCards),
                accessed,
                jump_request: None,
                is_card_access_prevented: false,
                is_custom_access: true,
            },
        )
    }

    /// Begins encountering `minion_id`: records the event id of the
    /// encounter, and gives the next step, which offers the encounter's
    /// choices.
    pub fn encounter_minion(&mut self, minion_id: CardId, event_id: u32) -> (res: RaidStep)
        ensures
            res == RaidStep::PopulateEncounterPrompt(minion_id),
            final(self).minion_encounter_id == Some(event_id),
            final(self).target == old(self).target,
            final(self).initiated_by == old(self).initiated_by,
            final(self).raid_id == old(self).raid_id,
            final(self).encounter == old(self).encounter,
            final(self).room_access_id == old(self).room_access_id,
            final(self).state == old(self).state,
            final(self).accessed == old(self).accessed,
            final(self).jump_request == old(self).jump_request,
            final(self).is_card_access_prevented == old(self).is_card_access_prevented,
            final(self).is_custom_access == old(self).is_custom_access,
    {
        self.minion_encounter_id = Some(event_id);
        RaidStep::PopulateEncounterPrompt(minion_id)
    }

    /// Begins the access phase: records its event id, and gives the next
    /// step, which builds the set of cards to access.
    pub fn access_start(&mut self, event_id: u32) -> (res: RaidStep)
        ensures
            res == RaidStep::BuildAccessSet,
            final(self).room_access_id == Some(event_id),
            final(self).target == old(self).target,
            final(self).initiated_by == old(self).initiated_by,
            final(self).raid_id == old(self).raid_id,
            final(self).encounter == old(self).encounter,
            final(self).minion_encounter_id == old(self).minion_encounter_id,
            final(self).state == old(self).state,
            final(self).accessed == old(self).accessed,
            final(self).jump_request == old(self).jump_request,
            final(self).is_card_access_prevented == old(self).is_card_access_prevented,
            final(self).is_custom_access == old(self).is_custom_access,
    {
        self.room_access_id = Some(event_id);
        RaidStep::BuildAccessSet
    }

    /// Carries out the raid's jump request, if any, and clears it. A request
    /// to encounter a minion moves the raid to the room and position at which
    /// the minion defends, `minion_position`, failing when it defends none.
    pub fn apply_jump_request(&mut self, minion_position: Option<(RoomId, usize)>) -> (res: Result<
        (),
        RaidError,
    >)
        ensures
            match old(self).jump_request {
                None => res is Ok && *final(self) == *old(self),
                Some(RaidJumpRequest::EncounterMinion(card_id)) => match minion_position {
                    None => res == Err::<(), RaidError>(RaidError::MinionNotFound) && *final(self)
                        == *old(self),
                    Some((room, index)) => {
                        &&& res is Ok
                        &&& final(self).target == room
                        &&& final(self).encounter == index
                        &&& final(self).state@ == RaidStateView::Step(
                            RaidStep::EncounterMinion(card_id),
                        )
                        &&& final(self).jump_request is None
                        &&& final(self).accessed == old(self).accessed
                        &&& same_record(*final(self), *old(self))
                    },
                },
                Some(RaidJumpRequest::ChangeTarget(room)) => {
                    &&& res is Ok
                    &&& final(self).target == room
                    &&& final(self).encounter == old(self).encounter
                    &&& final(self).state == old(self).state
                    &&& final(self).jump_request is None
                    &&& final(self).accessed == old(self).accessed
                    &&& same_record(*final(self), *old(self))
                },
                Some(RaidJumpRequest::EvadeCurrentMinion) => {
                    &&& res is Ok
                    &&& final(self).target == old(self).target
                    &&& final(self).encounter == old(self).encounter
                    &&& final(self).state@ == RaidStateView::Step(RaidStep::NextEncounter)
                    &&& final(self).jump_request is None
                    &&& final(self).accessed == old(self).accessed
                    &&& same_record(*final(self), *old(self))
                },
            },
    {
        let jump_request = match self.jump_request {
            None => {
                return Ok(());
            },
            Some(r) => r,
        };
        match jump_request {
            RaidJumpRequest::EncounterMinion(card_id) => {
                let (room_id, index) = match minion_position {
                    Some(p) => p,
                    None => {
                        return Err(RaidError::MinionNotFound);
                    },
                };
                self.target = room_id;
                self.encounter = index;
                self.state = RaidState::Step(RaidStep::EncounterMinion(card_id));
            },
            RaidJumpRequest::ChangeTarget(target) => {
                self.target = target;
            },
            RaidJumpRequest::EvadeCurrentMinion => {
                self.state = RaidState::Step(RaidStep::NextEncounter);
            },
        }
        self.jump_request = None;
        Ok(())
    }

    /// Removes every occurrence of `card_id` from the accessed cards, keeping
    /// the others in order, as when a card leaves the access set to be scored
    /// or razed.
    pub fn remove_accessed(&mut self, card_id: CardId)
        ensures
            final(self).accessed@ == old(self).accessed@.filter(|c: CardId| c != card_id),
            final(self).target == old(self).target,
            final(self).encounter == old(self).encounter,
            final(self).state == old(self).state,
            final(self).jump_request == old(self).jump_request,
            same_record(*final(self), *old(self)),
    {
        let ghost pred = |c: CardId| c != card_id;
        let mut kept: Vec<CardId> = Vec::new();
        let n = self.accessed.len();
        let mut i: usize = 0;
        while i < n
            invariant
                n == self.accessed@.len(),
                i <= n,
                pred == (|c: CardId| c != card_id),
                kept@ == self.accessed@.take(i as int).filter(pred),
            decreases n - i,
        {
            let c = self.accessed[i];
            if c != card_id {
                kept.push(c);
            }
            proof {
                assert(self.accessed@.take(i + 1) =~= self.accessed@.take(i as int).push(c));
                self.accessed@.take(i as int).lemma_filter_push(c, pred);
            }
            i = i + 1;
        }
        assert(self.accessed@.take(n as int) =~= self.accessed@);
        self.accessed = kept;
    }
}

/// The event ending an access phase.
#[derive(Clone, Copy, Debug, PartialEq, Eq, Structural)]
pub enum AccessEndEvent {
    /// A custom access ended; it carries who began the custom access.
    CustomAccessEnd(InitiatedBy),
    /// The access phase of the raid with this id ended.
    RaidAccessEnd(u32),
}

/// Finishes the access phase of the raid: a custom access ends with its own
/// event, carrying who began it, and the raid is removed; a regular raid's
/// access ends with the raid access end event and the raid stays. Either
/// way the next step finishes the raid.
pub fn finish_access(raid: &mut Option<RaidData>) -> (res: (AccessEndEvent, RaidStep))
    requires
        *old(raid) is Some,
    ensures
        res.1 == RaidStep::FinishRaid,
        (*old(raid)).unwrap().is_custom_access ==> res.0 == AccessEndEvent::CustomAccessEnd(
            (*old(raid)).unwrap().initiated_by,
        ) && *final(raid) is None,
        !(*old(raid)).unwrap().is_custom_access ==> res.0 == AccessEndEvent::RaidAccessEnd(
            (*old(raid)).unwrap().raid_id,
        ) && *final(raid) == *old(raid),
{
    let (is_custom, initiated_by, raid_id) = match raid {
        Some(r) => (r.is_custom_access, r.initiated_by, r.raid_id),
        None => {
            return (AccessEndEvent::RaidAccessEnd(0), RaidStep::FinishRaid);
        },
    };
    if is_custom {
        *raid = None;
        (AccessEndEvent::CustomAccessEnd(initiated_by), RaidStep::FinishRaid)
    } else {
        (AccessEndEvent::RaidAccessEnd(raid_id), RaidStep::FinishRaid)
    }
}

/// Whether a step belongs to the access phase, from revealing the accessed
/// cards to finishing access.
pub open spec fn in_access_phase(step: RaidStep) -> bool {
    match step {
        RaidStep::RevealAccessedCards => true,
        RaidStep::AccessCards => true,
        RaidStep::WillPopulateAccessPrompt(_) => true,
        RaidStep::PopulateAccessPrompt => true,
        RaidStep::StartScoringCard(_) => true,
        RaidStep::ChampionScoreEvent(_) => true,
        RaidStep::ScoreEvent(_) => true,
        RaidStep::MoveToScoredPosition(_) => true,
        RaidStep::StartRazingCard(_, _) => true,
        RaidStep::RazeCard(_, _) => true,
        RaidStep::FinishAccess => true,
        _ => false,
    }
}

/// The choices of an access prompt built from card actions which each
/// score or raze a card lead to steps of the access phase.
proof fn lemma_present_choices_in_access(actions: Seq<Option<RaidChoice>>)
    requires
        forall|j: int|
            0 <= j < actions.len() ==> (#[trigger] actions[j] matches Some(c) && (c.step is StartScoringCard
                || c.step is StartRazingCard)),
    ensures
        forall|i: int|
            0 <= i < present_choices(actions).len() ==> in_access_phase(
                #[trigger] present_choices(actions)[i].step,
            ),
    decreases actions.len(),
{
    if actions.len() > 0 {
        let rest = actions.drop_last();
        assert forall|j: int| 0 <= j < rest.len() implies (#[trigger] rest[j] matches Some(c) && (
        c.step is StartScoringCard || c.step is StartRazingCard)) by {
            assert(rest[j] == actions[j]);
        }
        lemma_present_choices_in_access(rest);
        assert(actions.last() == actions[actions.len() - 1]);
    }
}

/// A custom access stays in the access phase: it starts by revealing the
/// accessed cards, each step of the phase other than the access prompt and
/// finishing access is followed by another step of the phase, and every
/// choice of an access prompt (scoring or razing an accessed card, or
/// ending access) leads to a step of the phase. So it never passes the
/// steps which begin a raid, start its access phase or build and announce
/// its access set, and it ends by finishing access, which ends a custom
/// access and removes the raid (see [finish_access]), after which a run
/// stops, so the step that finishes a raid is never taken.
pub proof fn lemma_custom_access_stays_in_access(
    step: RaidStep,
    card_actions: Seq<Option<RaidChoice>>,
    can_end: bool,
)
    requires
        forall|j: int|
            0 <= j < card_actions.len() ==> (#[trigger] card_actions[j] matches Some(c) && (
            c.step is StartScoringCard || c.step is StartRazingCard)),
    ensures
        in_access_phase(RaidStep::RevealAccessedCards),
        in_access_phase(step) && step != RaidStep::PopulateAccessPrompt && step
            != RaidStep::FinishAccess ==> (spec_successor(step) matches Some(next) && in_access_phase(
            next,
        )),
        forall|i: int|
            0 <= i < access_choices(card_actions, can_end, true).len() ==> in_access_phase(
                #[trigger] access_choices(card_actions, can_end, true)[i].step,
            ),
        !in_access_phase(RaidStep::Begin),
        !in_access_phase(RaidStep::AccessStart),
        !in_access_phase(RaidStep::BuildAccessSet),
        !in_access_phase(RaidStep::AccessSetBuilt),
        forall|pending: bool, in_play: bool, action: Option<RaidAction>, regenerated: bool|
            #[trigger] run_decision_outcome(pending, in_play, None, action, regenerated) == Ok::<
                RunDecision,
                RaidError,
            >(RunDecision::Stop),
{
    lemma_present_choices_in_access(card_actions);
    let present = present_choices(card_actions);
    let all = access_choices(card_actions, can_end, true);
    assert forall|i: int| 0 <= i < all.len() implies in_access_phase(#[trigger] all[i].step) by {
        if i < present.len() {
            assert(all[i] == present[i]);
        }
    }
}

/// A prompt waiting without an action is regenerated on the first pass of a
/// run and stops the run on the next, so a run regenerates it at most once.
pub proof fn lemma_prompt_regenerated_once(
    status: RaidStatus,
    populated_by: RaidStep,
    choices: Seq<RaidChoice>,
)
    ensures
        ({
            let view = RaidStateView::Prompt { status, populated_by, choices };
            &&& run_decision_outcome(false, true, Some(view), None, false) == Ok::<
                RunDecision,
                RaidError,
            >(RunDecision::Regenerate(populated_by))
            &&& run_decision_outcome(false, true, Some(view), None, true) == Ok::<
                RunDecision,
                RaidError,
            >(RunDecision::Stop)
        }),
{
}

/// The decision [run_decision] makes, over the view of the raid state.
pub open spec fn run_decision_outcome(
    prompts_pending: bool,
    in_play_phase: bool,
    raid: Option<RaidStateView>,
    action: Option<RaidAction>,
    regenerated_prompt: bool,
) -> Result<RunDecision, RaidError> {
    if prompts_pending || !in_play_phase {
        Ok(RunDecision::Stop)
    } else {
        match raid {
            None => Ok(RunDecision::Stop),
            Some(RaidStateView::Step(step)) => Ok(RunDecision::Evaluate { step, action_used: false }),
            Some(RaidStateView::Prompt { status, populated_by, choices }) => match action {
                Some(a) => if a.index < choices.len() {
                    Ok(RunDecision::Evaluate { step: choices[a.index as int].step, action_used: true })
                } else {
                    Err(RaidError::IndexOutOfBounds)
                },
                None => if regenerated_prompt {
                    Ok(RunDecision::Stop)
                } else {
                    Ok(RunDecision::Regenerate(populated_by))
                },
            },
        }
    }
}

/// Using a weapon defeats its target, and defeating a minion never ends the
/// raid: it goes on to the next encounter, which reaches the next defender
/// or the room itself.
pub proof fn lemma_defeated_minion_continues_raid(interaction: WeaponInteraction)
    ensures
        spec_successor(RaidStep::UseWeapon(interaction)) == Some(
            RaidStep::MinionDefeated(interaction),
        ),
        spec_successor(RaidStep::MinionDefeated(interaction)) == Some(RaidStep::NextEncounter),
        spec_successor(RaidStep::MinionDefeated(interaction)) != Some(RaidStep::FinishRaid),
{
}

/// A raid reaches its finish only once access is over (or it is already
/// finished); access being denied finishes it through [check_can_access]. No
/// step of an encounter, of approaching the room or of accessing a card
/// leads straight to the finish.
pub proof fn lemma_only_finished_access_finishes_raid(step: RaidStep)
    ensures
        spec_successor(step) == Some(RaidStep::FinishRaid) ==> (step == RaidStep::FinishAccess
            || step == RaidStep::FinishRaid),
        spec_successor(RaidStep::FinishAccess) == Some(RaidStep::FinishRaid),
{
}

/// A minion that is summoned is then approached, encountered, and offered
/// in the encounter prompt, always the same minion; a minion left unsummoned
/// moves the raid on to its next encounter.
pub proof fn lemma_encounter_keeps_its_minion(minion: CardId)
    ensures
        spec_successor(RaidStep::SummonMinion(minion)) == Some(RaidStep::ApproachMinion(minion)),
        spec_successor(RaidStep::ApproachMinion(minion)) == Some(RaidStep::EncounterMinion(minion)),
        spec_successor(RaidStep::EncounterMinion(minion)) == Some(
            RaidStep::PopulateEncounterPrompt(minion),
        ),
        spec_successor(RaidStep::DoNotSummon(minion)) == Some(RaidStep::NextEncounter),
{
}

/// Accessing runs in order: starting access builds the access set, then
/// reveals and accesses the cards, then offers the access prompt.
pub proof fn lemma_access_runs_in_order()
    ensures
        spec_successor(RaidStep::AccessStart) == Some(RaidStep::BuildAccessSet),
        spec_successor(RaidStep::BuildAccessSet) == Some(RaidStep::AccessSetBuilt),
        spec_successor(RaidStep::AccessSetBuilt) == Some(RaidStep::RevealAccessedCards),
        spec_successor(RaidStep::RevealAccessedCards) == Some(RaidStep::AccessCards),
        spec_successor(RaidStep::AccessCards) == Some(
            RaidStep::WillPopulateAccessPrompt(PopulateAccessPromptSource::Initial),
        ),
{
}

} // verus!
