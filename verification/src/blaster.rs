use vstd::prelude::*;
use crate::projectile_collision::{Contact, LivingBeingHitEvent, touches};
use crate::seq_util::{flat_map, lemma_flat_map_prefix_step, lemma_full_prefix};

verus! {

/// The entity index carried in the low 32 bits of an entity id.
pub open spec fn entity_index(id: u64) -> u64 {
    id % 0x1_0000_0000
}

/// Whether some shot has the same entity index as `id`.
pub open spec fn is_shot_index(blasters: Seq<u64>, id: u64) -> bool {
    exists|i: int| 0 <= i < blasters.len() && entity_index(#[trigger] blasters[i]) == entity_index(id)
}

/// Whether some shot in `blasters` has the same entity index as `id`.
fn has_shot_index(blasters: &Vec<u64>, id: u64) -> (r: bool)
    ensures
        r == is_shot_index(blasters@, id),
{
    let mut i: usize = 0;
    while i < blasters.len()
        invariant
            i <= blasters.len(),
            forall|j: int| 0 <= j < i ==> entity_index(#[trigger] blasters@[j]) != entity_index(id),
        decreases blasters.len() - i,
    {
        if blasters[i] % 0x1_0000_0000 == id % 0x1_0000_0000 {
            return true;
        }
        i += 1;
    }
    false
}

/// The shots that one contact destroys, checking shot `b`: a shot touching
/// something that is not a shot (by entity index) is destroyed, once for each
/// side of the contact it is on.
pub open spec fn destroyed_by(c: Contact, blasters: Seq<u64>, b: u64) -> Seq<u64> {
    (if c.first == b && !is_shot_index(blasters, c.second) { seq![b] } else { Seq::empty() })
        + (if c.second == b && !is_shot_index(blasters, c.first) { seq![b] } else { Seq::empty() })
}

/// The shots one contact destroys, in the order of `blasters`.
pub open spec fn destroyed_by_contact(blasters: Seq<u64>) -> spec_fn(Contact) -> Seq<u64> {
    |c: Contact| flat_map(blasters, |b: u64| destroyed_by(c, blasters, b))
}

/// The shots destroyed by the contacts, contact by contact.
pub open spec fn destroyed_blasters(contacts: Seq<Contact>, blasters: Seq<u64>) -> Seq<u64> {
    flat_map(contacts, destroyed_by_contact(blasters))
}

/// The shots to remove after the contacts that started: each shot that
/// touched anything but another shot, once per contact side. Whether the other
/// side is a shot is judged by entity index alone.
pub fn destroy_blaster_on_contact(contacts: &Vec<Contact>, blasters: &Vec<u64>) -> (r: Vec<u64>)
    ensures
        r@ == destroyed_blasters(contacts@, blasters@),
{
    let mut out: Vec<u64> = Vec::new();
    let mut i: usize = 0;
    while i < contacts.len()
        invariant
            i <= contacts.len(),
            out@ == flat_map(contacts@.take(i as int), destroyed_by_contact(blasters@)),
        decreases contacts.len() - i,
    {
        let c = contacts[i];
        let ghost before = out@;
        let mut j: usize = 0;
        while j < blasters.len()
            invariant
                j <= blasters.len(),
                c == contacts@[i as int],
                out@ == before + flat_map(blasters@.take(j as int), |b: u64| destroyed_by(c, blasters@, b)),
            decreases blasters.len() - j,
        {
            let b = blasters[j];
            if c.first == b && !has_shot_index(blasters, c.second) {
                out.push(b);
            }
            if c.second == b && !has_shot_index(blasters, c.first) {
                out.push(b);
            }
            proof {
                lemma_flat_map_prefix_step(blasters@, |b: u64| destroyed_by(c, blasters@, b), j as int);
                assert(out@ =~= before + flat_map(blasters@.take(j + 1), |b: u64| destroyed_by(c, blasters@, b)));
            }
            j += 1;
        }
        proof {
            lemma_full_prefix(blasters@);
            lemma_flat_map_prefix_step(contacts@, destroyed_by_contact(blasters@), i as int);
        }
        i += 1;
    }
    proof {
        lemma_full_prefix(contacts@);
    }
    out
}

/// The hit from shot `blaster` (id and damage) on `being`, if the contact
/// is between the two.
pub open spec fn shot_hit(c: Contact, blaster: (u64, u32), being: u64) -> Seq<LivingBeingHitEvent> {
    if touches(c, blaster.0, being) {
        seq![LivingBeingHitEvent { entity: being, damage: blaster.1 }]
    } else {
        Seq::empty()
    }
}

/// The hits one contact causes, shot by shot, being by being.
pub open spec fn hits_of_contact(blasters: Seq<(u64, u32)>, beings: Seq<u64>) -> spec_fn(Contact) -> Seq<LivingBeingHitEvent> {
    |c: Contact| flat_map(blasters, |bl: (u64, u32)| flat_map(beings, |be: u64| shot_hit(c, bl, be)))
}

/// The hits the contacts cause, contact by contact.
pub open spec fn contact_hits(contacts: Seq<Contact>, blasters: Seq<(u64, u32)>, beings: Seq<u64>) -> Seq<LivingBeingHitEvent> {
    flat_map(contacts, hits_of_contact(blasters, beings))
}

/// The hits caused by the contacts that started between shots (id and
/// damage) and living beings: one hit with the shot's damage for each such
/// contact.
pub fn damage_on_contact(contacts: &Vec<Contact>, blasters: &Vec<(u64, u32)>, beings: &Vec<u64>) -> (r: Vec<LivingBeingHitEvent>)
    ensures
        r@ == contact_hits(contacts@, blasters@, beings@),
{
    let mut out: Vec<LivingBeingHitEvent> = Vec::new();
    let mut i: usize = 0;
    while i < contacts.len()
        invariant
            i <= contacts.len(),
            out@ == flat_map(contacts@.take(i as int), hits_of_contact(blasters@, beings@)),
        decreases contacts.len() - i,
    {
        let c = contacts[i];
        let ghost before_contact = out@;
        let ghost per_blaster = |bl: (u64, u32)| flat_map(beings@, |be: u64| shot_hit(c, bl, be));
        let mut j: usize = 0;
        while j < blasters.len()
            invariant
                j <= blasters.len(),
                c == contacts@[i as int],
                per_blaster == (|bl: (u64, u32)| flat_map(beings@, |be: u64| shot_hit(c, bl, be))),
                out@ == before_contact + flat_map(blasters@.take(j as int), per_blaster),
            decreases blasters.len() - j,
        {
            let bl = blasters[j];
            let ghost before_blaster = out@;
            let mut k: usize = 0;
            while k < beings.len()
                invariant
                    k <= beings.len(),
                    bl == blasters@[j as int],
                    out@ == before_blaster + flat_map(beings@.take(k as int), |be: u64| shot_hit(c, bl, be)),
                decreases beings.len() - k,
            {
                let be = beings[k];
                if (c.first == bl.0 && c.second == be) || (c.first == be && c.second == bl.0) {
                    out.push(LivingBeingHitEvent { entity: be, damage: bl.1 });
                }
                proof {
                    lemma_flat_map_prefix_step(beings@, |be: u64| shot_hit(c, bl, be), k as int);
                    assert(out@ =~= before_blaster + flat_map(beings@.take(k + 1), |be: u64| shot_hit(c, bl, be)));
                }
                k += 1;
            }
            proof {
                lemma_full_prefix(beings@);
                lemma_flat_map_prefix_step(blasters@, per_blaster, j as int);
                assert(out@ =~= before_contact + flat_map(blasters@.take(j + 1), per_blaster));
            }
            j += 1;
        }
        proof {
            lemma_full_prefix(blasters@);
            lemma_flat_map_prefix_step(contacts@, hits_of_contact(blasters@, beings@), i as int);
        }
        i += 1;
    }
    proof {
        lemma_full_prefix(contacts@);
    }
    out
}

/// Shots pass through each other: a contact between two shots destroys
/// neither of them.
pub proof fn lemma_shots_pass_each_other(c: Contact, blasters: Seq<u64>, b: u64)
    requires
        blasters.contains(c.first),
        blasters.contains(c.second),
    ensures
        destroyed_by(c, blasters, b) == Seq::<u64>::empty(),
{
    let i = choose|i: int| 0 <= i < blasters.len() && blasters[i] == c.first;
    let j = choose|j: int| 0 <= j < blasters.len() && blasters[j] == c.second;
    assert(entity_index(blasters[i]) == entity_index(c.first));
    assert(entity_index(blasters[j]) == entity_index(c.second));
    assert(destroyed_by(c, blasters, b) =~= Seq::<u64>::empty());
}

} // verus!
