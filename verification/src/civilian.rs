use vstd::prelude::*;
use crate::constants::CIVILIAN_RESCUE_POINTS;
use crate::projectile_collision::Contact;
use crate::resources::PlayerScore;
use crate::seq_util::{flat_map, lemma_flat_map_prefix_step, lemma_full_prefix};

verus! {

/// Civilian `v`, if the contact is between the player and `v`: exactly one
/// side of the contact is the player and exactly one side is `v`.
pub open spec fn rescued_by(c: Contact, player: u64, v: u64) -> Seq<u64> {
    if ((c.first == player) != (c.second == player)) && ((c.first == v) != (c.second == v)) {
        seq![v]
    } else {
        Seq::empty()
    }
}

/// The civilians one contact rescues, in the order of `civilians`.
pub open spec fn rescued_in_contact(player: u64, civilians: Seq<u64>) -> spec_fn(Contact) -> Seq<u64> {
    |c: Contact| flat_map(civilians, |v: u64| rescued_by(c, player, v))
}

/// The civilians the contacts rescue, contact by contact.
pub open spec fn rescued_civilians(contacts: Seq<Contact>, player: u64, civilians: Seq<u64>) -> Seq<u64> {
    flat_map(contacts, rescued_in_contact(player, civilians))
}

/// The civilians the player reached in the contacts that started, contact by
/// contact; they are to be removed from the game.
pub fn rescue_civilians(contacts: &Vec<Contact>, player: u64, civilians: &Vec<u64>) -> (r: Vec<u64>)
    ensures
        r@ == rescued_civilians(contacts@, player, civilians@),
{
    let mut out: Vec<u64> = Vec::new();
    let mut i: usize = 0;
    while i < contacts.len()
        invariant
            i <= contacts.len(),
            out@ == flat_map(contacts@.take(i as int), rescued_in_contact(player, civilians@)),
        decreases contacts.len() - i,
    {
        let c = contacts[i];
        let ghost before = out@;
        let mut j: usize = 0;
        while j < civilians.len()
            invariant
                j <= civilians.len(),
                c == contacts@[i as int],
                out@ == before + flat_map(civilians@.take(j as int), |v: u64| rescued_by(c, player, v)),
            decreases civilians.len() - j,
        {
            let v = civilians[j];
            if ((c.first == player) != (c.second == player)) && ((c.first == v) != (c.second == v)) {
                out.push(v);
            }
            proof {
                lemma_flat_map_prefix_step(civilians@, |v: u64| rescued_by(c, player, v), j as int);
                assert(out@ =~= before + flat_map(civilians@.take(j + 1), |v: u64| rescued_by(c, player, v)));
            }
            j += 1;
        }
        proof {
            lemma_full_prefix(civilians@);
            lemma_flat_map_prefix_step(contacts@, rescued_in_contact(player, civilians@), i as int);
        }
        i += 1;
    }
    proof {
        lemma_full_prefix(contacts@);
    }
    out
}

/// Adds `CIVILIAN_RESCUE_POINTS` to the score for each of `rescued` civilians.
pub fn add_rescue_points(score: &mut PlayerScore, rescued: usize)
    requires
        old(score).0 + CIVILIAN_RESCUE_POINTS * rescued <= usize::MAX,
    ensures
        final(score).0 == old(score).0 + CIVILIAN_RESCUE_POINTS * rescued,
{
    let ghost start = score.0;
    let mut k: usize = 0;
    while k < rescued
        invariant
            k <= rescued,
            start + CIVILIAN_RESCUE_POINTS * rescued <= usize::MAX,
            score.0 == start + CIVILIAN_RESCUE_POINTS * k,
        decreases rescued - k,
    {
        proof {
            assert(CIVILIAN_RESCUE_POINTS * (k + 1) <= CIVILIAN_RESCUE_POINTS * rescued) by (nonlinear_arith)
                requires k + 1 <= rescued;
        }
        score.0 = score.0 + CIVILIAN_RESCUE_POINTS;
        k += 1;
    }
}

} // verus!
