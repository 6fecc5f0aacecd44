//! Special and exotic particle identifiers.
#![allow(non_upper_case_globals)]

use vstd::prelude::*;
use crate::particle::ParticleID;
use crate::particle::ids_of;

verus! {

pub const G: i32 = 39;
pub const R_0: i32 = 41;
pub const LQ_c: i32 = 42;
pub const reggeon: i32 = 110;
pub const pomeron: i32 = 990;
pub const odderon: i32 = 9990;

pub const graviton: i32 = G;

/// The special particle identifiers, in catalog order.
pub open spec fn member_ids() -> Seq<int> {
    seq![G as int, R_0 as int, LQ_c as int, reggeon as int, pomeron as int, odderon as int]
}

/// The special particle members, in catalog order.
pub fn members() -> (v: Vec<ParticleID>)
    ensures
        ids_of(v@) == member_ids(),
{
    let mut v: Vec<ParticleID> = Vec::new();
    v.push(ParticleID::new(G));
    v.push(ParticleID::new(R_0));
    v.push(ParticleID::new(LQ_c));
    v.push(ParticleID::new(reggeon));
    v.push(ParticleID::new(pomeron));
    v.push(ParticleID::new(odderon));
    proof {
        assert(ids_of(v@) =~= member_ids());
    }
    v
}

} // verus!
