//! The full hadron collection: all mesons followed by all baryons.

use vstd::prelude::*;
use crate::particle::ParticleID;
use crate::particle::ids_of;
use crate::particle::lemma_ids_of_concat;

verus! {

/// The hadron identifiers: the meson members followed by the baryon
/// members, in catalog order.
pub open spec fn member_ids() -> Seq<int> {
    crate::mesons::member_ids() + crate::baryons::member_ids()
}

/// The hadron members, in catalog order.
pub fn members() -> (v: Vec<ParticleID>)
    ensures
        ids_of(v@) == member_ids(),
{
    let mut v = crate::mesons::members();
    let mut w = crate::baryons::members();
    let ghost a = v@;
    let ghost b = w@;
    v.append(&mut w);
    proof {
        lemma_ids_of_concat(a, b);
    }
    v
}

/// The hadron collection is exactly as long as the meson and baryon
/// collections together.
pub proof fn lemma_member_count()
    ensures
        member_ids().len() == crate::mesons::member_ids().len()
            + crate::baryons::member_ids().len(),
        member_ids().len() == 296,
{
    crate::mesons::lemma_member_count();
    crate::baryons::lemma_member_count();
}

} // verus!
