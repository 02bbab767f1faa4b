//! Dealing a new game: card instances, shuffled decks, prize cards and
//! opening hands.

use vstd::prelude::*;

use super::{
    spec_draw, spec_top_cards, spec_min, CardInstance, CardInstanceId, GameState, GameView, PlayerId, PlayerView,
};
use crate::card::CardDefId;
use crate::deck::{spec_expand, Deck};
use crate::rng::GameRng;
use crate::{INITIAL_HAND_SIZE, PRIZE_CARDS};

verus! {

/// Instances of the definitions `defs` owned by `owner`, numbered from `start`.
pub open spec fn new_instances(start: nat, defs: Seq<CardDefId>, owner: PlayerId) -> Seq<CardInstance> {
    Seq::new(
        defs.len(),
        |i: int| CardInstance { id: CardInstanceId((start + i) as u32), def_id: defs[i], owner },
    )
}

/// The identifiers `start .. start + k0 + k1`, the first `k0` owned by
/// player 0 and the rest by player 1.
pub open spec fn dealt_entries(start: nat, k0: nat, k1: nat) -> Seq<(CardInstanceId, PlayerId)> {
    Seq::new(
        k0 + k1,
        |i: int|
            (
                CardInstanceId((start + i) as u32),
                if i < k0 {
                    PlayerId(0)
                } else {
                    PlayerId(1)
                },
            ),
    )
}

/// The identifiers of the entries of `s` owned by `p`, in order.
pub open spec fn ids_of(s: Seq<(CardInstanceId, PlayerId)>, p: PlayerId) -> Seq<CardInstanceId>
    decreases s.len(),
{
    if s.len() == 0 {
        Seq::empty()
    } else {
        let r = ids_of(s.drop_last(), p);
        if s.last().1 == p {
            r.push(s.last().0)
        } else {
            r
        }
    }
}

/// The player after up to `n` cards from the top of the deck are set aside as prizes.
pub open spec fn spec_set_prizes(pv: PlayerView, n: nat) -> PlayerView {
    let k = spec_min(n, pv.deck.len());
    PlayerView { deck: pv.deck.take(pv.deck.len() - k), prizes: pv.prizes + spec_top_cards(pv.deck, k), ..pv }
}

/// The player after `ids` are put on the deck, prizes are set aside and the
/// opening hand is drawn.
pub open spec fn spec_deal(pv: PlayerView, ids: Seq<CardInstanceId>) -> PlayerView {
    spec_draw(spec_set_prizes(PlayerView { deck: pv.deck + ids, ..pv }, PRIZE_CARDS as nat), INITIAL_HAND_SIZE as nat)
}

/// What `setup_initial_state` leaves when the shuffled entries come out in
/// the order `perm`.
pub open spec fn spec_setup(g: GameView, d0: Seq<CardDefId>, d1: Seq<CardDefId>, perm: Seq<(CardInstanceId, PlayerId)>) -> GameView {
    let start = g.next_card_id as nat;
    GameView {
        cards: g.cards + new_instances(start, d0, PlayerId(0)) + new_instances(start + d0.len(), d1, PlayerId(1)),
        next_card_id: (start + d0.len() + d1.len()) as u32,
        players: seq![spec_deal(g.players[0], ids_of(perm, PlayerId(0))), spec_deal(g.players[1], ids_of(perm, PlayerId(1)))],
        ..g
    }
}

/// The number of entries of `s` owned by `p` changes by one at most when an
/// entry is removed.
pub proof fn lemma_ids_of_remove(s: Seq<(CardInstanceId, PlayerId)>, j: int, p: PlayerId)
    requires
        0 <= j < s.len(),
    ensures
        ids_of(s, p).len() == ids_of(s.remove(j), p).len() + if s[j].1 == p {
            1int
        } else {
            0int
        },
    decreases s.len(),
{
    if j == s.len() - 1 {
        assert(s.remove(j) =~= s.drop_last());
    } else {
        assert(s.remove(j).drop_last() =~= s.drop_last().remove(j));
        assert(s.remove(j).last() == s.last());
        lemma_ids_of_remove(s.drop_last(), j, p);
    }
}

/// Reordering entries keeps how many each player owns.
pub proof fn lemma_ids_of_perm(s: Seq<(CardInstanceId, PlayerId)>, t: Seq<(CardInstanceId, PlayerId)>, p: PlayerId)
    requires
        s.to_multiset() == t.to_multiset(),
    ensures
        ids_of(s, p).len() == ids_of(t, p).len(),
    decreases s.len(),
{
    s.to_multiset_ensures();
    t.to_multiset_ensures();
    if s.len() == 0 {
        assert(t.len() == 0);
    } else {
        let x = s.last();
        assert(s.contains(x)) by {
            assert(s[s.len() - 1] == x);
        }
        assert(s.to_multiset().count(x) > 0);
        assert(t.to_multiset().count(x) > 0);
        assert(t.contains(x));
        let j = choose|j: int| 0 <= j < t.len() && t[j] == x;
        let t2 = t.remove(j);
        let s2 = s.drop_last();
        assert(s2.push(x) =~= s);
        s2.to_multiset_ensures();
        assert(s2.to_multiset() =~= t2.to_multiset()) by {
            assert(s.to_multiset() =~= s2.to_multiset().insert(x));
            assert(t2.to_multiset() =~= t.to_multiset().remove(x));
        }
        lemma_ids_of_perm(s2, t2, p);
        lemma_ids_of_remove(t, j, p);
    }
}

/// In the unshuffled entries, player 0 owns the first `k0` and player 1 the rest.
pub proof fn lemma_ids_of_dealt(start: nat, k0: nat, k1: nat)
    ensures
        ids_of(dealt_entries(start, k0, k1), PlayerId(0)).len() == k0,
        ids_of(dealt_entries(start, k0, k1), PlayerId(1)).len() == k1,
    decreases k0 + k1,
{
    let s = dealt_entries(start, k0, k1);
    if k1 > 0 {
        assert(s.drop_last() =~= dealt_entries(start, k0, (k1 - 1) as nat));
        lemma_ids_of_dealt(start, k0, (k1 - 1) as nat);
    } else if k0 > 0 {
        assert(s.drop_last() =~= dealt_entries(start, (k0 - 1) as nat, 0));
        lemma_ids_of_dealt(start, (k0 - 1) as nat, 0);
    }
}

fn set_prizes(ps: &mut super::PlayerState)
    ensures
        final(ps)@ == spec_set_prizes(old(ps)@, PRIZE_CARDS as nat),
{
    let ghost d0 = ps.deck@;
    let ghost p0 = ps.prizes@;
    let mut n: usize = 0;
    while n < PRIZE_CARDS
        invariant
            n <= PRIZE_CARDS,
            ps@ == spec_set_prizes(old(ps)@, n as nat),
            d0 == old(ps)@.deck,
            p0 == old(ps)@.prizes,
        decreases PRIZE_CARDS - n,
    {
        let ghost before = ps@;
        match ps.deck.pop() {
            Some(card) => {
                ps.prizes.push(card);
                proof {
                    let k = spec_min(n as nat, d0.len());
                    assert(k == n);
                    assert(spec_top_cards(d0, (k + 1) as nat) =~= spec_top_cards(d0, k).push(card));
                    assert(d0.take(d0.len() - k - 1) =~= d0.take(d0.len() - k).drop_last());
                    assert(ps@ =~= spec_set_prizes(old(ps)@, (n + 1) as nat));
                }
            },
            None => {
                proof {
                    assert(spec_min((n + 1) as nat, d0.len()) == spec_min(n as nat, d0.len()));
                    assert(ps@ =~= spec_set_prizes(old(ps)@, (n + 1) as nat));
                }
            },
        }
        n = n + 1;
    }
}

impl GameState {
    /// Create the card instances of both decks (player 0's first), shuffle
    /// them together, deal each to its owner's deck, set aside 6 prize cards
    /// per player from the top and draw 7-card opening hands.
    pub fn setup_initial_state(&mut self, player_deck: &Deck, opponent_deck: &Deck, rng: &mut GameRng)
        requires
            old(self).next_card_id + spec_expand(player_deck.cards@).len() + spec_expand(opponent_deck.cards@).len()
                < u32::MAX,
        ensures
            exists|perm: Seq<(CardInstanceId, PlayerId)>|
                #![trigger perm.to_multiset()]
                perm.to_multiset() == dealt_entries(
                    old(self).next_card_id as nat,
                    spec_expand(player_deck.cards@).len(),
                    spec_expand(opponent_deck.cards@).len(),
                ).to_multiset() && final(self)@ == spec_setup(
                    old(self)@,
                    spec_expand(player_deck.cards@),
                    spec_expand(opponent_deck.cards@),
                    perm,
                ),
    {
        let ghost g0 = self@;
        let ghost start = self.next_card_id as nat;
        let pcards = player_deck.expand();
        let ocards = opponent_deck.expand();
        let ghost k0 = pcards@.len();
        let ghost k1 = ocards@.len();
        let mut all_cards: Vec<(CardInstanceId, PlayerId)> = Vec::new();
        let mut i: usize = 0;
        while i < pcards.len()
            invariant
                i <= pcards@.len(),
                start + pcards@.len() + ocards@.len() < u32::MAX,
                self.next_card_id == start + i,
                self@ == (GameView {
                    cards: g0.cards + new_instances(start, pcards@.take(i as int), PlayerId(0)),
                    next_card_id: (start + i) as u32,
                    ..g0
                }),
                all_cards@ == dealt_entries(start, i as nat, 0),
            decreases pcards@.len() - i,
        {
            let id = self.add_card(pcards[i].clone(), PlayerId(0));
            all_cards.push((id, PlayerId(0)));
            proof {
                assert(g0.cards + new_instances(start, pcards@.take(i + 1), PlayerId(0)) =~= (g0.cards + new_instances(
                    start,
                    pcards@.take(i as int),
                    PlayerId(0),
                )).push(CardInstance { id, def_id: pcards@[i as int], owner: PlayerId(0) }));
                assert(all_cards@ =~= dealt_entries(start, (i + 1) as nat, 0));
            }
            i = i + 1;
        }
        proof {
            assert(pcards@.take(i as int) =~= pcards@);
        }
        let mut j: usize = 0;
        while j < ocards.len()
            invariant
                j <= ocards@.len(),
                k0 == pcards@.len(),
                start + pcards@.len() + ocards@.len() < u32::MAX,
                self.next_card_id == start + k0 + j,
                self@ == (GameView {
                    cards: g0.cards + new_instances(start, pcards@, PlayerId(0)) + new_instances(
                        start + k0,
                        ocards@.take(j as int),
                        PlayerId(1),
                    ),
                    next_card_id: (start + k0 + j) as u32,
                    ..g0
                }),
                all_cards@ == dealt_entries(start, k0, j as nat),
            decreases ocards@.len() - j,
        {
            let id = self.add_card(ocards[j].clone(), PlayerId(1));
            all_cards.push((id, PlayerId(1)));
            proof {
                assert(g0.cards + new_instances(start, pcards@, PlayerId(0)) + new_instances(
                    start + k0,
                    ocards@.take(j + 1),
                    PlayerId(1),
                ) =~= (g0.cards + new_instances(start, pcards@, PlayerId(0)) + new_instances(
                    start + k0,
                    ocards@.take(j as int),
                    PlayerId(1),
                )).push(CardInstance { id, def_id: ocards@[j as int], owner: PlayerId(1) }));
                assert(all_cards@ =~= dealt_entries(start, k0, (j + 1) as nat));
            }
            j = j + 1;
        }
        proof {
            assert(ocards@.take(j as int) =~= ocards@);
        }
        let ghost entries = all_cards@;
        rng.shuffle_vec(&mut all_cards);
        let ghost perm = all_cards@;
        let ghost g1 = self@;
        proof {
            perm.to_multiset_ensures();
            entries.to_multiset_ensures();
            assert forall|x: (CardInstanceId, PlayerId)| perm.contains(x) implies entries.contains(x) by {
                assert(perm.to_multiset().count(x) > 0);
                assert(entries.to_multiset().count(x) > 0);
            }
        }
        let mut k: usize = 0;
        while k < all_cards.len()
            invariant
                k <= perm.len(),
                all_cards@ == perm,
                perm.to_multiset() == entries.to_multiset(),
                entries == dealt_entries(start, k0, k1),
                forall|x: (CardInstanceId, PlayerId)| perm.contains(x) ==> entries.contains(x),
                self@ == (GameView {
                    players: seq![
                        PlayerView { deck: g1.players[0].deck + ids_of(perm.take(k as int), PlayerId(0)), ..g1.players[0] },
                        PlayerView { deck: g1.players[1].deck + ids_of(perm.take(k as int), PlayerId(1)), ..g1.players[1] },
                    ],
                    ..g1
                }),
                g1.players.len() == 2,
            decreases perm.len() - k,
        {
            let (card_id, owner) = all_cards[k];
            proof {
                assert(perm.contains(perm[k as int]));
                assert(entries.contains((card_id, owner)));
                assert(perm.take(k + 1).drop_last() =~= perm.take(k as int));
            }
            let ghost before = self@;
            self.players[owner.0].deck.push(card_id);
            proof {
                assert(self@.players =~= before.players.update(owner.0 as int, self.players@[owner.0 as int]@));
                assert(self@ =~= (GameView {
                    players: seq![
                        PlayerView { deck: g1.players[0].deck + ids_of(perm.take(k + 1), PlayerId(0)), ..g1.players[0] },
                        PlayerView { deck: g1.players[1].deck + ids_of(perm.take(k + 1), PlayerId(1)), ..g1.players[1] },
                    ],
                    ..g1
                }));
            }
            k = k + 1;
        }
        proof {
            assert(perm.take(k as int) =~= perm);
        }
        let ghost g2 = self@;
        set_prizes(&mut self.players[0]);
        set_prizes(&mut self.players[1]);
        self.draw_cards(PlayerId(0), INITIAL_HAND_SIZE);
        self.draw_cards(PlayerId(1), INITIAL_HAND_SIZE);
        proof {
            assert(self@ =~= spec_setup(g0, pcards@, ocards@, perm));
        }
    }
}

} // verus!
