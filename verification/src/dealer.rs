//! The card dealer: which cards are still in the deck of a subscriber, the
//! random choice among them, and the proof that no card comes twice before a
//! reshuffle.

use crate::process::{Card, CardData, CardDataView, CardView, DescriptionsFormat, Language};
use rand::seq::IteratorRandom;
use vstd::prelude::*;

verus! {

/// The catalog as the contracts see it.
pub open spec fn cards_view(cards: Seq<Card>) -> Seq<CardView> {
    cards.map_values(|card: Card| card@)
}

/// The card at `position` of the catalog exists and is not among the drawn ones.
pub open spec fn can_deal(cards: Seq<CardView>, drawn: Seq<i32>, position: int) -> bool {
    0 <= position < cards.len() && !drawn.contains(cards[position].id)
}

/// No card of the catalog is left to deal.
pub open spec fn exhausted(cards: Seq<CardView>, drawn: Seq<i32>) -> bool {
    forall|position: int| !can_deal(cards, drawn, position)
}

/// A dealt card as the contracts see it.
pub struct DealtView {
    pub card_id: i32,
    pub card_data: CardDataView,
}

/// A dealt card: its identifier, which joins the drawn ones, and what is shown of it.
#[derive(Debug, Clone, PartialEq, Eq)]
pub struct Dealt {
    pub card_id: i32,
    pub card_data: CardData,
}

impl View for Dealt {
    type V = DealtView;

    open spec fn view(&self) -> DealtView {
        DealtView { card_id: self.card_id, card_data: self.card_data@ }
    }
}

/// The view of an optional dealt card.
pub open spec fn dealt_view(dealt: Option<Dealt>) -> Option<DealtView> {
    match dealt {
        Some(d) => Some(d@),
        None => None,
    }
}

/// What dealing the card at `position` gives: the card, if it can be dealt, and nothing otherwise.
pub open spec fn deal_at(
    cards: Seq<CardView>,
    drawn: Seq<i32>,
    position: int,
    language: Language,
    descriptions: DescriptionsFormat,
) -> Option<DealtView> {
    if can_deal(cards, drawn, position) {
        Some(
            DealtView {
                card_id: cards[position].id,
                card_data: cards[position].data(language, descriptions),
            },
        )
    } else {
        None
    }
}

/// The drawn cards after `position` was chosen: one more if the card could be dealt.
pub open spec fn drawn_with(cards: Seq<CardView>, drawn: Seq<i32>, position: int) -> Seq<i32> {
    if can_deal(cards, drawn, position) {
        drawn.push(cards[position].id)
    } else {
        drawn
    }
}

/// `candidates` lists, in catalog order and each once, the positions of the
/// cards that can be dealt.
pub open spec fn lists_undrawn(
    cards: Seq<CardView>,
    drawn: Seq<i32>,
    candidates: Seq<usize>,
) -> bool {
    &&& forall|k: int|
        0 <= k < candidates.len() ==> can_deal(cards, drawn, #[trigger] candidates[k] as int)
    &&& forall|position: int| #[trigger]
        can_deal(cards, drawn, position) ==> exists|k: int|
            0 <= k < candidates.len() && #[trigger] candidates[k] == position
    &&& forall|j: int, k: int|
        0 <= j < k < candidates.len() ==> (#[trigger] candidates[j]) < (#[trigger] candidates[k])
}

/// Whether `id` is among `ids`.
pub fn contains_id(ids: &Vec<i32>, id: i32) -> (found: bool)
    ensures
        found == ids@.contains(id),
{
    let mut i: usize = 0;
    while i < ids.len()
        invariant
            i <= ids.len(),
            forall|k: int| 0 <= k < i ==> ids@[k] != id,
        decreases ids.len() - i,
    {
        if ids[i] == id {
            return true;
        }
        i += 1;
    }
    false
}

/// The positions of the cards that are not drawn, in catalog order.
pub fn undrawn_cards(cards: &Vec<Card>, drawn: &Vec<i32>) -> (candidates: Vec<usize>)
    ensures
        lists_undrawn(cards_view(cards@), drawn@, candidates@),
{
    let mut candidates: Vec<usize> = Vec::new();
    let mut i: usize = 0;
    while i < cards.len()
        invariant
            i <= cards.len(),
            forall|k: int|
                0 <= k < candidates.len() ==> (#[trigger] candidates[k]) < i && can_deal(
                    cards_view(cards@),
                    drawn@,
                    candidates[k] as int,
                ),
            forall|position: int| #[trigger]
                can_deal(cards_view(cards@), drawn@, position) && position < i ==> exists|k: int|
                    0 <= k < candidates.len() && #[trigger] candidates[k] == position,
            forall|j: int, k: int|
                0 <= j < k < candidates.len() ==> (#[trigger] candidates[j]) < (
                #[trigger] candidates[k]),
        decreases cards.len() - i,
    {
        if !contains_id(drawn, cards[i].id) {
            let ghost before = candidates@;
            candidates.push(i);
            proof {
                assert(candidates@[before.len() as int] == i);
                assert forall|position: int| #[trigger]
                    can_deal(cards_view(cards@), drawn@, position) && position < i
                        + 1 implies exists|k: int|
                    0 <= k < candidates.len() && #[trigger] candidates[k] == position by {
                    if position < i {
                        let k = choose|k: int|
                            0 <= k < before.len() && #[trigger] before[k] == position;
                        assert(candidates[k] == position);
                    } else {
                        assert(candidates[before.len() as int] == position);
                    }
                }
            }
        }
        i += 1;
    }
    candidates
}

/// `IteratorRandom::choose` of the `rand` crate over the items of
/// `candidates`, with the generator of the current thread. Trusted, from its
/// documentation: it returns `None` if and only if there is no item, and
/// otherwise one of the items. Which one is left open; that each has the
/// same chance is the crate's promise and is not stated here. The generator
/// gives up only if the system has no randomness to seed it with.
#[verifier::external_body]
fn pick_one(candidates: &Vec<usize>) -> (chosen: Option<usize>)
    ensures
        chosen is None <==> candidates@.len() == 0,
        chosen matches Some(c) ==> candidates@.contains(c),
{
    candidates.iter().choose(&mut rand::thread_rng()).copied()
}

/// Deals the card at the chosen position of the catalog. A choice that names
/// no card, or a card that is already drawn, deals nothing: whatever is
/// chosen, no drawn card is dealt again.
pub fn deal_chosen(
    cards: &Vec<Card>,
    drawn: &Vec<i32>,
    chosen: Option<usize>,
    language: Language,
    descriptions: DescriptionsFormat,
) -> (dealt: Option<Dealt>)
    ensures
        dealt_view(dealt) == match chosen {
            Some(position) => deal_at(
                cards_view(cards@),
                drawn@,
                position as int,
                language,
                descriptions,
            ),
            None => None,
        },
{
    match chosen {
        Some(position) => {
            if position < cards.len() && !contains_id(drawn, cards[position].id) {
                let card = &cards[position];
                Some(Dealt { card_id: card.id, card_data: card.card_data(language, descriptions) })
            } else {
                None
            }
        },
        None => None,
    }
}

/// Deals one of the cards that are not drawn, each with the same chance.
/// Nothing is dealt exactly when every card of the catalog is drawn.
pub fn deal(
    cards: &Vec<Card>,
    drawn: &Vec<i32>,
    language: Language,
    descriptions: DescriptionsFormat,
) -> (dealt: Option<Dealt>)
    ensures
        dealt is None <==> exhausted(cards_view(cards@), drawn@),
        dealt matches Some(d) ==> exists|position: int|
            deal_at(cards_view(cards@), drawn@, position, language, descriptions) == Some(d@),
{
    let candidates = undrawn_cards(cards, drawn);
    let chosen = pick_one(&candidates);
    proof {
        if let Some(c) = chosen {
            let k = choose|k: int| 0 <= k < candidates@.len() && candidates@[k] == c;
            assert(can_deal(cards_view(cards@), drawn@, candidates@[k] as int));
        } else {
            assert forall|position: int| !can_deal(cards_view(cards@), drawn@, position) by {
                if can_deal(cards_view(cards@), drawn@, position) {
                    let k = choose|k: int|
                        0 <= k < candidates@.len() && #[trigger] candidates@[k] == position;
                }
            }
        }
    }
    deal_chosen(cards, drawn, chosen, language, descriptions)
}

/// The drawn cards after the positions `choices` were chosen one after the
/// other, with no reshuffle in between.
pub open spec fn drawn_after(cards: Seq<CardView>, drawn: Seq<i32>, choices: Seq<int>) -> Seq<i32>
    decreases choices.len(),
{
    if choices.len() == 0 {
        drawn
    } else {
        drawn_with(cards, drawn_after(cards, drawn, choices.drop_last()), choices.last())
    }
}

/// The identifiers of the cards dealt while the positions `choices` were
/// chosen one after the other, in the order in which they were dealt.
pub open spec fn dealt_ids(cards: Seq<CardView>, drawn: Seq<i32>, choices: Seq<int>) -> Seq<i32>
    decreases choices.len(),
{
    if choices.len() == 0 {
        Seq::empty()
    } else {
        let earlier = dealt_ids(cards, drawn, choices.drop_last());
        if can_deal(cards, drawn_after(cards, drawn, choices.drop_last()), choices.last()) {
            earlier.push(cards[choices.last()].id)
        } else {
            earlier
        }
    }
}

/// Without a reshuffle no card is dealt twice: however the positions are
/// chosen, the identifiers dealt are pairwise different, none of them was
/// drawn before, and the drawn cards grow by exactly the identifiers dealt.
pub proof fn lemma_no_repeat(cards: Seq<CardView>, drawn: Seq<i32>, choices: Seq<int>)
    ensures
        dealt_ids(cards, drawn, choices).no_duplicates(),
        forall|k: int|
            0 <= k < dealt_ids(cards, drawn, choices).len() ==> !drawn.contains(
                #[trigger] dealt_ids(cards, drawn, choices)[k],
            ),
        drawn_after(cards, drawn, choices) == drawn + dealt_ids(cards, drawn, choices),
    decreases choices.len(),
{
    if choices.len() == 0 {
        assert(drawn + Seq::<i32>::empty() =~= drawn);
    } else {
        let shorter = choices.drop_last();
        lemma_no_repeat(cards, drawn, shorter);
        let earlier = dealt_ids(cards, drawn, shorter);
        let before = drawn_after(cards, drawn, shorter);
        if can_deal(cards, before, choices.last()) {
            let id = cards[choices.last()].id;
            let now = earlier.push(id);
            assert(drawn + now =~= (drawn + earlier).push(id));
            assert forall|k: int| 0 <= k < earlier.len() implies earlier[k] != id by {
                assert(before[drawn.len() + k] == earlier[k]);
            }
            assert forall|k: int| 0 <= k < now.len() implies !drawn.contains(#[trigger] now[k]) by {
                if k == earlier.len() {
                    if drawn.contains(id) {
                        let j = choose|j: int| 0 <= j < drawn.len() && drawn[j] == id;
                        assert(before[j] == id);
                    }
                }
            }
        }
    }
}

/// Once every card of the catalog is drawn, nothing can be dealt and the
/// drawn cards stay as they are, whatever is chosen.
pub proof fn lemma_exhaustion(
    cards: Seq<CardView>,
    drawn: Seq<i32>,
    position: int,
    language: Language,
    descriptions: DescriptionsFormat,
)
    requires
        forall|i: int| 0 <= i < cards.len() ==> drawn.contains(#[trigger] cards[i].id),
    ensures
        exhausted(cards, drawn),
        deal_at(cards, drawn, position, language, descriptions) is None,
        drawn_with(cards, drawn, position) == drawn,
{
}

/// With no card drawn, as after a reshuffle, every card of the catalog can
/// be dealt, whether or not it was drawn before.
pub proof fn lemma_all_cards_after_reshuffle(
    cards: Seq<CardView>,
    position: int,
    language: Language,
    descriptions: DescriptionsFormat,
)
    requires
        0 <= position < cards.len(),
    ensures
        can_deal(cards, Seq::<i32>::empty(), position),
        deal_at(cards, Seq::<i32>::empty(), position, language, descriptions) == Some(
            DealtView {
                card_id: cards[position].id,
                card_data: cards[position].data(language, descriptions),
            },
        ),
{
}

} // verus!
