//! The full meson collection: every meson category concatenated in
//! catalog order.

use vstd::prelude::*;
use crate::particle::ParticleID;
use crate::particle::ids_of;
use crate::particle::lemma_ids_of_concat;

verus! {

/// The meson identifiers: the light, strange, charmed, bottom,
/// charmonium and bottomonium categories concatenated in catalog order.
pub open spec fn member_ids() -> Seq<int> {
    crate::light_mesons::member_ids() + crate::strange_mesons::member_ids()
        + crate::charmed_mesons::member_ids() + crate::bottom_mesons::member_ids()
        + crate::ccbar_mesons::member_ids() + crate::bbbar_mesons::member_ids()
}

/// The meson members, in catalog order.
pub fn members() -> (v: Vec<ParticleID>)
    ensures
        ids_of(v@) == member_ids(),
{
    let mut v = crate::light_mesons::members();
    let mut w = crate::strange_mesons::members();
    let ghost a = v@;
    let ghost b = w@;
    v.append(&mut w);
    proof {
        lemma_ids_of_concat(a, b);
    }
    let mut w = crate::charmed_mesons::members();
    let ghost a = v@;
    let ghost b = w@;
    v.append(&mut w);
    proof {
        lemma_ids_of_concat(a, b);
    }
    let mut w = crate::bottom_mesons::members();
    let ghost a = v@;
    let ghost b = w@;
    v.append(&mut w);
    proof {
        lemma_ids_of_concat(a, b);
    }
    let mut w = crate::ccbar_mesons::members();
    let ghost a = v@;
    let ghost b = w@;
    v.append(&mut w);
    proof {
        lemma_ids_of_concat(a, b);
    }
    let mut w = crate::bbbar_mesons::members();
    let ghost a = v@;
    let ghost b = w@;
    v.append(&mut w);
    proof {
        lemma_ids_of_concat(a, b);
    }
    v
}

/// The meson collection is exactly as long as its six constituent
/// categories together.
pub proof fn lemma_member_count()
    ensures
        member_ids().len() == crate::light_mesons::member_ids().len()
            + crate::strange_mesons::member_ids().len()
            + crate::charmed_mesons::member_ids().len()
            + crate::bottom_mesons::member_ids().len()
            + crate::ccbar_mesons::member_ids().len()
            + crate::bbbar_mesons::member_ids().len(),
        member_ids().len() == 221,
{
}

} // verus!
