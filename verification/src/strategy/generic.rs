//! Decks played with the standard heuristics.

use vstd::prelude::*;

use crate::action::Action;
use crate::state::{GameState, GameView, PlayerId};
use super::{generic_base, generic_can_score, generic_defined, generic_heuristic_base, generic_score, generic_score_action, DeckStrategy};

verus! {

/// Plays with the standard heuristics.
pub struct IronThornsStrategy;

impl DeckStrategy for IronThornsStrategy {
    open spec fn score_defined(&self, action: Action, g: GameView, player: PlayerId) -> bool {
        generic_defined(action, g, player)
    }

    open spec fn spec_score(&self, action: Action, g: GameView, player: PlayerId) -> int {
        generic_score(action, g, player)
    }

    open spec fn spec_base(&self, action: Action) -> int {
        generic_base(action)
    }

    fn score_action(&self, action: &Action, state: &GameState, player: PlayerId) -> (r: i32) {
        generic_score_action(action, state, player)
    }

    fn heuristic_base(&self, action: &Action) -> (r: i32) {
        generic_heuristic_base(action)
    }

    fn can_score(&self, action: &Action, state: &GameState, player: PlayerId) -> (r: bool) {
        generic_can_score(action, state, player)
    }
}

/// Plays with the standard heuristics.
pub struct DialgaMetangStrategy;

impl DeckStrategy for DialgaMetangStrategy {
    open spec fn score_defined(&self, action: Action, g: GameView, player: PlayerId) -> bool {
        generic_defined(action, g, player)
    }

    open spec fn spec_score(&self, action: Action, g: GameView, player: PlayerId) -> int {
        generic_score(action, g, player)
    }

    open spec fn spec_base(&self, action: Action) -> int {
        generic_base(action)
    }

    fn score_action(&self, action: &Action, state: &GameState, player: PlayerId) -> (r: i32) {
        generic_score_action(action, state, player)
    }

    fn heuristic_base(&self, action: &Action) -> (r: i32) {
        generic_heuristic_base(action)
    }

    fn can_score(&self, action: &Action, state: &GameState, player: PlayerId) -> (r: bool) {
        generic_can_score(action, state, player)
    }
}

/// Plays with the standard heuristics.
pub struct PalkiaDusknoirStrategy;

impl DeckStrategy for PalkiaDusknoirStrategy {
    open spec fn score_defined(&self, action: Action, g: GameView, player: PlayerId) -> bool {
        generic_defined(action, g, player)
    }

    open spec fn spec_score(&self, action: Action, g: GameView, player: PlayerId) -> int {
        generic_score(action, g, player)
    }

    open spec fn spec_base(&self, action: Action) -> int {
        generic_base(action)
    }

    fn score_action(&self, action: &Action, state: &GameState, player: PlayerId) -> (r: i32) {
        generic_score_action(action, state, player)
    }

    fn heuristic_base(&self, action: &Action) -> (r: i32) {
        generic_heuristic_base(action)
    }

    fn can_score(&self, action: &Action, state: &GameState, player: PlayerId) -> (r: bool) {
        generic_can_score(action, state, player)
    }
}

/// Plays with the standard heuristics.
pub struct PalkiaGholdengoStrategy;

impl DeckStrategy for PalkiaGholdengoStrategy {
    open spec fn score_defined(&self, action: Action, g: GameView, player: PlayerId) -> bool {
        generic_defined(action, g, player)
    }

    open spec fn spec_score(&self, action: Action, g: GameView, player: PlayerId) -> int {
        generic_score(action, g, player)
    }

    open spec fn spec_base(&self, action: Action) -> int {
        generic_base(action)
    }

    fn score_action(&self, action: &Action, state: &GameState, player: PlayerId) -> (r: i32) {
        generic_score_action(action, state, player)
    }

    fn heuristic_base(&self, action: &Action) -> (r: i32) {
        generic_heuristic_base(action)
    }

    fn can_score(&self, action: &Action, state: &GameState, player: PlayerId) -> (r: bool) {
        generic_can_score(action, state, player)
    }
}

/// Plays with the standard heuristics.
pub struct LostBoxStrategy;

impl DeckStrategy for LostBoxStrategy {
    open spec fn score_defined(&self, action: Action, g: GameView, player: PlayerId) -> bool {
        generic_defined(action, g, player)
    }

    open spec fn spec_score(&self, action: Action, g: GameView, player: PlayerId) -> int {
        generic_score(action, g, player)
    }

    open spec fn spec_base(&self, action: Action) -> int {
        generic_base(action)
    }

    fn score_action(&self, action: &Action, state: &GameState, player: PlayerId) -> (r: i32) {
        generic_score_action(action, state, player)
    }

    fn heuristic_base(&self, action: &Action) -> (r: i32) {
        generic_heuristic_base(action)
    }

    fn can_score(&self, action: &Action, state: &GameState, player: PlayerId) -> (r: bool) {
        generic_can_score(action, state, player)
    }
}

/// Plays with the standard heuristics.
pub struct RegidragoStrategy;

impl DeckStrategy for RegidragoStrategy {
    open spec fn score_defined(&self, action: Action, g: GameView, player: PlayerId) -> bool {
        generic_defined(action, g, player)
    }

    open spec fn spec_score(&self, action: Action, g: GameView, player: PlayerId) -> int {
        generic_score(action, g, player)
    }

    open spec fn spec_base(&self, action: Action) -> int {
        generic_base(action)
    }

    fn score_action(&self, action: &Action, state: &GameState, player: PlayerId) -> (r: i32) {
        generic_score_action(action, state, player)
    }

    fn heuristic_base(&self, action: &Action) -> (r: i32) {
        generic_heuristic_base(action)
    }

    fn can_score(&self, action: &Action, state: &GameState, player: PlayerId) -> (r: bool) {
        generic_can_score(action, state, player)
    }
}

/// Plays with the standard heuristics.
pub struct LugiaArcheopsStrategy;

impl DeckStrategy for LugiaArcheopsStrategy {
    open spec fn score_defined(&self, action: Action, g: GameView, player: PlayerId) -> bool {
        generic_defined(action, g, player)
    }

    open spec fn spec_score(&self, action: Action, g: GameView, player: PlayerId) -> int {
        generic_score(action, g, player)
    }

    open spec fn spec_base(&self, action: Action) -> int {
        generic_base(action)
    }

    fn score_action(&self, action: &Action, state: &GameState, player: PlayerId) -> (r: i32) {
        generic_score_action(action, state, player)
    }

    fn heuristic_base(&self, action: &Action) -> (r: i32) {
        generic_heuristic_base(action)
    }

    fn can_score(&self, action: &Action, state: &GameState, player: PlayerId) -> (r: bool) {
        generic_can_score(action, state, player)
    }
}

/// Plays with the standard heuristics.
pub struct ArceusGiratinaStrategy;

impl DeckStrategy for ArceusGiratinaStrategy {
    open spec fn score_defined(&self, action: Action, g: GameView, player: PlayerId) -> bool {
        generic_defined(action, g, player)
    }

    open spec fn spec_score(&self, action: Action, g: GameView, player: PlayerId) -> int {
        generic_score(action, g, player)
    }

    open spec fn spec_base(&self, action: Action) -> int {
        generic_base(action)
    }

    fn score_action(&self, action: &Action, state: &GameState, player: PlayerId) -> (r: i32) {
        generic_score_action(action, state, player)
    }

    fn heuristic_base(&self, action: &Action) -> (r: i32) {
        generic_heuristic_base(action)
    }

    fn can_score(&self, action: &Action, state: &GameState, player: PlayerId) -> (r: bool) {
        generic_can_score(action, state, player)
    }
}

/// Plays with the standard heuristics.
pub struct RagingBoltOgerponStrategy;

impl DeckStrategy for RagingBoltOgerponStrategy {
    open spec fn score_defined(&self, action: Action, g: GameView, player: PlayerId) -> bool {
        generic_defined(action, g, player)
    }

    open spec fn spec_score(&self, action: Action, g: GameView, player: PlayerId) -> int {
        generic_score(action, g, player)
    }

    open spec fn spec_base(&self, action: Action) -> int {
        generic_base(action)
    }

    fn score_action(&self, action: &Action, state: &GameState, player: PlayerId) -> (r: i32) {
        generic_score_action(action, state, player)
    }

    fn heuristic_base(&self, action: &Action) -> (r: i32) {
        generic_heuristic_base(action)
    }

    fn can_score(&self, action: &Action, state: &GameState, player: PlayerId) -> (r: bool) {
        generic_can_score(action, state, player)
    }
}

/// Plays with the standard heuristics.
pub struct GardevoirStrategy;

impl DeckStrategy for GardevoirStrategy {
    open spec fn score_defined(&self, action: Action, g: GameView, player: PlayerId) -> bool {
        generic_defined(action, g, player)
    }

    open spec fn spec_score(&self, action: Action, g: GameView, player: PlayerId) -> int {
        generic_score(action, g, player)
    }

    open spec fn spec_base(&self, action: Action) -> int {
        generic_base(action)
    }

    fn score_action(&self, action: &Action, state: &GameState, player: PlayerId) -> (r: i32) {
        generic_score_action(action, state, player)
    }

    fn heuristic_base(&self, action: &Action) -> (r: i32) {
        generic_heuristic_base(action)
    }

    fn can_score(&self, action: &Action, state: &GameState, player: PlayerId) -> (r: bool) {
        generic_can_score(action, state, player)
    }
}

/// Plays with the standard heuristics.
pub struct BlisseyTankStrategy;

impl DeckStrategy for BlisseyTankStrategy {
    open spec fn score_defined(&self, action: Action, g: GameView, player: PlayerId) -> bool {
        generic_defined(action, g, player)
    }

    open spec fn spec_score(&self, action: Action, g: GameView, player: PlayerId) -> int {
        generic_score(action, g, player)
    }

    open spec fn spec_base(&self, action: Action) -> int {
        generic_base(action)
    }

    fn score_action(&self, action: &Action, state: &GameState, player: PlayerId) -> (r: i32) {
        generic_score_action(action, state, player)
    }

    fn heuristic_base(&self, action: &Action) -> (r: i32) {
        generic_heuristic_base(action)
    }

    fn can_score(&self, action: &Action, state: &GameState, player: PlayerId) -> (r: bool) {
        generic_can_score(action, state, player)
    }
}

/// Plays with the standard heuristics.
pub struct DragapultBanetteStrategy;

impl DeckStrategy for DragapultBanetteStrategy {
    open spec fn score_defined(&self, action: Action, g: GameView, player: PlayerId) -> bool {
        generic_defined(action, g, player)
    }

    open spec fn spec_score(&self, action: Action, g: GameView, player: PlayerId) -> int {
        generic_score(action, g, player)
    }

    open spec fn spec_base(&self, action: Action) -> int {
        generic_base(action)
    }

    fn score_action(&self, action: &Action, state: &GameState, player: PlayerId) -> (r: i32) {
        generic_score_action(action, state, player)
    }

    fn heuristic_base(&self, action: &Action) -> (r: i32) {
        generic_heuristic_base(action)
    }

    fn can_score(&self, action: &Action, state: &GameState, player: PlayerId) -> (r: bool) {
        generic_can_score(action, state, player)
    }
}

/// Plays with the standard heuristics.
pub struct DragapultDusknoirStrategy;

impl DeckStrategy for DragapultDusknoirStrategy {
    open spec fn score_defined(&self, action: Action, g: GameView, player: PlayerId) -> bool {
        generic_defined(action, g, player)
    }

    open spec fn spec_score(&self, action: Action, g: GameView, player: PlayerId) -> int {
        generic_score(action, g, player)
    }

    open spec fn spec_base(&self, action: Action) -> int {
        generic_base(action)
    }

    fn score_action(&self, action: &Action, state: &GameState, player: PlayerId) -> (r: i32) {
        generic_score_action(action, state, player)
    }

    fn heuristic_base(&self, action: &Action) -> (r: i32) {
        generic_heuristic_base(action)
    }

    fn can_score(&self, action: &Action, state: &GameState, player: PlayerId) -> (r: bool) {
        generic_can_score(action, state, player)
    }
}

/// Plays with the standard heuristics.
pub struct DragapultCharizardStrategy;

impl DeckStrategy for DragapultCharizardStrategy {
    open spec fn score_defined(&self, action: Action, g: GameView, player: PlayerId) -> bool {
        generic_defined(action, g, player)
    }

    open spec fn spec_score(&self, action: Action, g: GameView, player: PlayerId) -> int {
        generic_score(action, g, player)
    }

    open spec fn spec_base(&self, action: Action) -> int {
        generic_base(action)
    }

    fn score_action(&self, action: &Action, state: &GameState, player: PlayerId) -> (r: i32) {
        generic_score_action(action, state, player)
    }

    fn heuristic_base(&self, action: &Action) -> (r: i32) {
        generic_heuristic_base(action)
    }

    fn can_score(&self, action: &Action, state: &GameState, player: PlayerId) -> (r: bool) {
        generic_can_score(action, state, player)
    }
}

} // verus!
