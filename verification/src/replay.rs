//! Recording a finished game for storage and playback.

use vstd::prelude::*;
use vstd::string::StringExecFns;

use crate::action::LoggedAction;
use crate::action_codec::{action_copy, copy_action};
use crate::state::{GameState, PlayerId};
use crate::text::{push_decimal, push_str, spec_decimal};

verus! {

/// A recorded game: the seed, both deck identifiers, the outcome, the number
/// of turns, the steps taken and the hash of the final state.
#[derive(Debug, Clone)]
pub struct Replay {
    pub seed: u64,
    pub player_deck_id: u32,
    pub opponent_deck_id: u32,
    pub winner: Option<PlayerId>,
    pub total_turns: u16,
    pub actions: Vec<LoggedAction>,
    pub final_state_hash: u64,
}

/// `a` is a copy of the recorded step `b`.
pub open spec fn logged_copy(a: LoggedAction, b: LoggedAction) -> bool {
    a.turn == b.turn && a.player == b.player && a.resulting_state_hash == b.resulting_state_hash && action_copy(
        a.action,
        b.action,
    )
}

fn copy_log(log: &Vec<LoggedAction>) -> (r: Vec<LoggedAction>)
    ensures
        r@.len() == log@.len(),
        forall|i: int| 0 <= i < r@.len() ==> logged_copy(#[trigger] r@[i], log@[i]),
{
    let mut r: Vec<LoggedAction> = Vec::new();
    let mut i: usize = 0;
    while i < log.len()
        invariant
            i <= log@.len(),
            r@.len() == i,
            forall|j: int| 0 <= j < i ==> logged_copy(#[trigger] r@[j], log@[j]),
        decreases log@.len() - i,
    {
        let e = &log[i];
        r.push(LoggedAction::new(e.turn, e.player, copy_action(&e.action), e.resulting_state_hash));
        i = i + 1;
    }
    r
}

/// The debug text of an optional player.
pub open spec fn spec_winner_text(w: Option<PlayerId>) -> Seq<char> {
    match w {
        Some(p) => "Some(PlayerId("@ + spec_decimal(p.0 as nat) + "))"@,
        None => "None"@,
    }
}

impl Replay {
    /// The replay of the game in `state`, played from `seed` with the two decks.
    pub fn from_game(state: &GameState, seed: u64, player_deck_id: u32, opponent_deck_id: u32) -> (r: Self)
        ensures
            r.seed == seed,
            r.player_deck_id == player_deck_id,
            r.opponent_deck_id == opponent_deck_id,
            r.winner == state@.winner,
            r.total_turns == state@.turn.turn_number,
            r.actions@.len() == state@.action_log.len(),
            forall|i: int| 0 <= i < r.actions@.len() ==> logged_copy(#[trigger] r.actions@[i], state@.action_log[i]),
            r.final_state_hash == GameState::spec_hash(state@),
    {
        Replay {
            seed,
            player_deck_id,
            opponent_deck_id,
            winner: state.winner,
            total_turns: state.turn.turn_number,
            actions: copy_log(&state.action_log),
            final_state_hash: state.state_hash(),
        }
    }

    /// One line: both deck identifiers, the number of turns and the winner.
    pub fn summary(&self) -> (r: String)
        ensures
            r@ == "Replay: Player "@ + spec_decimal(self.player_deck_id as nat) + " vs "@ + spec_decimal(
                self.opponent_deck_id as nat,
            ) + ", "@ + spec_decimal(self.total_turns as nat) + " turns, winner: "@ + spec_winner_text(self.winner),
    {
        let mut s = String::new();
        push_str(&mut s, "Replay: Player ");
        push_decimal(&mut s, self.player_deck_id as u64);
        push_str(&mut s, " vs ");
        push_decimal(&mut s, self.opponent_deck_id as u64);
        push_str(&mut s, ", ");
        push_decimal(&mut s, self.total_turns as u64);
        push_str(&mut s, " turns, winner: ");
        match self.winner {
            Some(p) => {
                push_str(&mut s, "Some(PlayerId(");
                push_decimal(&mut s, p.0 as u64);
                push_str(&mut s, "))");
            },
            None => {
                push_str(&mut s, "None");
            },
        }
        proof {
            assert(s@ =~= "Replay: Player "@ + spec_decimal(self.player_deck_id as nat) + " vs "@ + spec_decimal(
                self.opponent_deck_id as nat,
            ) + ", "@ + spec_decimal(self.total_turns as nat) + " turns, winner: "@ + spec_winner_text(self.winner));
        }
        s
    }
}

} // verus!
