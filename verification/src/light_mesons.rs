//! Light unflavored meson identifiers: the isoscalar and isovector
//! categories together.

use vstd::prelude::*;
use crate::particle::ParticleID;
use crate::particle::ids_of;
use crate::particle::lemma_ids_of_concat;

verus! {

/// The light meson identifiers: the isoscalar members followed by the
/// isovector members, in catalog order.
pub open spec fn member_ids() -> Seq<int> {
    crate::light_isoscalar_mesons::member_ids() + crate::light_isovector_mesons::member_ids()
}

/// The light meson members, in catalog order.
pub fn members() -> (v: Vec<ParticleID>)
    ensures
        ids_of(v@) == member_ids(),
{
    let mut v = crate::light_isoscalar_mesons::members();
    let mut w = crate::light_isovector_mesons::members();
    let ghost a = v@;
    let ghost b = w@;
    v.append(&mut w);
    proof {
        lemma_ids_of_concat(a, b);
    }
    v
}

/// The light meson collection is exactly as long as its two
/// constituent categories together.
pub proof fn lemma_member_count()
    ensures
        member_ids().len() == crate::light_isoscalar_mesons::member_ids().len()
            + crate::light_isovector_mesons::member_ids().len(),
        member_ids().len() == 91,
{
}

} // verus!
