//! Pentaquark identifiers.
#![allow(non_upper_case_globals)]

use vstd::prelude::*;
use crate::particle::ParticleID;
use crate::particle::ids_of;

verus! {

pub const Theta_plus: i32 = 100221132;
pub const Phi_minus_minus: i32 = 100331122;

/// The pentaquark identifiers, in catalog order.
pub open spec fn member_ids() -> Seq<int> {
    seq![Theta_plus as int, Phi_minus_minus as int]
}

/// The pentaquark members, in catalog order.
pub fn members() -> (v: Vec<ParticleID>)
    ensures
        ids_of(v@) == member_ids(),
{
    let mut v: Vec<ParticleID> = Vec::new();
    v.push(ParticleID::new(Theta_plus));
    v.push(ParticleID::new(Phi_minus_minus));
    proof {
        assert(ids_of(v@) =~= member_ids());
    }
    v
}

} // verus!
