//! Higgs boson identifiers.
#![allow(non_upper_case_globals)]

use vstd::prelude::*;
use crate::particle::ParticleID;
use crate::particle::ids_of;

verus! {

pub const h: i32 = 25;
pub const H0: i32 = 35;
pub const A0: i32 = 36;
pub const H_plus: i32 = 37;
pub const H_plus_plus: i32 = 38;
pub const a0: i32 = 40;

pub const H: i32 = h;
pub const Higgs: i32 = h;
pub const H_0: i32 = H0;
pub const A_0: i32 = A0;
pub const a_0: i32 = a0;

/// The Higgs boson identifiers, in catalog order.
pub open spec fn member_ids() -> Seq<int> {
    seq![h as int, H0 as int, A0 as int, H_plus as int, H_plus_plus as int, a0 as int]
}

/// The Higgs boson members, in catalog order.
pub fn members() -> (v: Vec<ParticleID>)
    ensures
        ids_of(v@) == member_ids(),
{
    let mut v: Vec<ParticleID> = Vec::new();
    v.push(ParticleID::new(h));
    v.push(ParticleID::new(H0));
    v.push(ParticleID::new(A0));
    v.push(ParticleID::new(H_plus));
    v.push(ParticleID::new(H_plus_plus));
    v.push(ParticleID::new(a0));
    proof {
        assert(ids_of(v@) =~= member_ids());
    }
    v
}

} // verus!
