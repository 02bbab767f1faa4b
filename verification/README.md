# ptcg_core

A Pokemon TCG game engine whose library is verified with Verus: card and deck
definitions, the game state, rule validation, damage, card effects, the turn
state machine with its legal actions, observations, replays, the action
codec, JSON action parsing, heuristic deck strategies and self-play.

- `src/` — the verified library. Its functions carry `requires`/`ensures`
  contracts; where a result rests on the random generator (shuffles, coin
  flips, whole self-play games), the contract says what holds of every
  outcome. The laws that span functions are public proof functions
  (`engine::laws`, `engine::lemma_offered_accepted`,
  `observe::lemma_hidden_information`, `strategy::lemma_score_floor`,
  `action_codec::lemma_encoding_covers`,
  the energy-letter lemmas in `card`).
- `tests/` — the tests.
- `app/` — the self-play command line program and the Python bindings, with
  what the library cannot hold: command-line parsing, logging, files,
  threads, floating-point features and the serde copies of library types.
