//! The full baryon collection: every baryon category concatenated in
//! catalog order.

use vstd::prelude::*;
use crate::particle::ParticleID;
use crate::particle::ids_of;
use crate::particle::lemma_ids_of_concat;

verus! {

/// The baryon identifiers: the light, strange, charmed and bottom
/// categories concatenated in catalog order.
pub open spec fn member_ids() -> Seq<int> {
    crate::light_baryons::member_ids() + crate::strange_baryons::member_ids()
        + crate::charmed_baryons::member_ids() + crate::bottom_baryons::member_ids()
}

/// The baryon members, in catalog order.
pub fn members() -> (v: Vec<ParticleID>)
    ensures
        ids_of(v@) == member_ids(),
{
    let mut v = crate::light_baryons::members();
    let mut w = crate::strange_baryons::members();
    let ghost a = v@;
    let ghost b = w@;
    v.append(&mut w);
    proof {
        lemma_ids_of_concat(a, b);
    }
    let mut w = crate::charmed_baryons::members();
    let ghost a = v@;
    let ghost b = w@;
    v.append(&mut w);
    proof {
        lemma_ids_of_concat(a, b);
    }
    let mut w = crate::bottom_baryons::members();
    let ghost a = v@;
    let ghost b = w@;
    v.append(&mut w);
    proof {
        lemma_ids_of_concat(a, b);
    }
    v
}

/// The baryon collection is exactly as long as its four constituent
/// categories together.
pub proof fn lemma_member_count()
    ensures
        member_ids().len() == crate::light_baryons::member_ids().len()
            + crate::strange_baryons::member_ids().len()
            + crate::charmed_baryons::member_ids().len()
            + crate::bottom_baryons::member_ids().len(),
        member_ids().len() == 75,
{
}

} // verus!
