//! Choosing the book cards that the site shows, and the one card that a
//! single-card build asks for.
use vstd::prelude::*;
use crate::models::CardData;
use crate::text::{int_text, owned};

verus! {

/// The person a card is filed under: its first author, else the card's person.
pub open spec fn card_owner(c: CardData) -> i64 {
    if c.authors@.len() > 0 {
        c.authors@[0].id
    } else {
        c.person_id
    }
}

/// Whether the site shows a card: not for the placeholder person 0
/// ("no author").
pub open spec fn is_public(c: CardData) -> bool {
    card_owner(c) != 0
}

/// Whether the site shows the card.
pub fn is_public_card(c: &CardData) -> (r: bool)
    ensures
        r == is_public(*c),
{
    let owner = if c.authors.len() > 0 {
        c.authors[0].id
    } else {
        c.person_id
    };
    owner != 0
}

/// The cards that the site shows, in their order.
pub fn public_cards(cards: Vec<CardData>) -> (r: Vec<CardData>)
    ensures
        r@ == cards@.filter(|c: CardData| is_public(c)),
{
    let ghost all = cards@;
    assert(all.len() == cards.len());
    let ghost pred = |c: CardData| is_public(c);
    let mut rest = cards;
    let mut rev: Vec<CardData> = Vec::new();
    while rest.len() > 0
        invariant
            rest@.len() + rev@.len() == all.len(),
            rest@ == all.take(rest@.len() as int),
            forall|j: int| 0 <= j < rev@.len() ==> #[trigger] rev@[j] == all[all.len() - 1 - j],
        decreases rest.len(),
    {
        let ghost before = rest@;
        let x = rest.pop().unwrap();
        assert(all.take(rest@.len() as int) =~= before.drop_last());
        rev.push(x);
    }
    let mut out: Vec<CardData> = Vec::new();
    let mut n: usize = 0;
    reveal(Seq::filter);
    assert(all.take(0).filter(pred) =~= Seq::<CardData>::empty());
    while rev.len() > 0
        invariant
            n + rev@.len() == all.len(),
            forall|j: int| 0 <= j < rev@.len() ==> #[trigger] rev@[j] == all[all.len() - 1 - j],
            out@ == all.take(n as int).filter(pred),
            pred == (|c: CardData| is_public(c)),
            all.len() <= usize::MAX,
        decreases rev.len(),
    {
        reveal(Seq::filter);
        let c = rev.pop().unwrap();
        assert(c == all[n as int]);
        assert(all.take(n + 1).drop_last() =~= all.take(n as int));
        assert(all.take(n + 1).last() == c);
        if is_public_card(&c) {
            out.push(c);
        }
        n = n + 1;
    }
    assert(all.take(all.len() as int) =~= all);
    out
}

/// The message when no card has the work asked for.
pub open spec fn card_not_found(work_id: i64) -> Seq<char> {
    "Card not found: "@ + int_text(work_id as int)
}

/// The position of the first card of work `work_id`; an error naming the
/// work when there is none.
pub fn build_single_card(cards: &[CardData], work_id: i64) -> (r: Result<usize, String>)
    ensures
        match r {
            Ok(i) => i < cards@.len() && cards@[i as int].work_id == work_id && forall|j: int|
                0 <= j < i ==> #[trigger] cards@[j].work_id != work_id,
            Err(e) => e@ == card_not_found(work_id) && forall|j: int|
                0 <= j < cards@.len() ==> #[trigger] cards@[j].work_id != work_id,
        },
{
    let mut i: usize = 0;
    while i < cards.len()
        invariant
            i <= cards@.len(),
            forall|j: int| 0 <= j < i ==> #[trigger] cards@[j].work_id != work_id,
        decreases cards.len() - i,
    {
        if cards[i].work_id == work_id {
            return Ok(i);
        }
        i = i + 1;
    }
    let mut msg = owned("Card not found: ");
    let t = crate::text::int_to_text(work_id);
    msg.append(t.as_str());
    Err(msg)
}

} // verus!
