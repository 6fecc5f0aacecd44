//! Light baryon identifiers.
#![allow(non_upper_case_globals)]

use vstd::prelude::*;
use crate::particle::ParticleID;
use crate::particle::ids_of;

verus! {

pub const p: i32 = 2212;
pub const n: i32 = 2112;
pub const Delta_plus_plus: i32 = 2224;
pub const Delta_plus: i32 = 2214;
pub const Delta_0: i32 = 2114;
pub const Delta_minus: i32 = 1114;

pub const proton: i32 = p;
pub const neutron: i32 = n;

/// The light baryon identifiers, in catalog order.
pub open spec fn member_ids() -> Seq<int> {
    seq![p as int, n as int, Delta_plus_plus as int, Delta_plus as int, Delta_0 as int, Delta_minus as int]
}

/// The light baryon members, in catalog order.
pub fn members() -> (v: Vec<ParticleID>)
    ensures
        ids_of(v@) == member_ids(),
{
    let mut v: Vec<ParticleID> = Vec::new();
    v.push(ParticleID::new(p));
    v.push(ParticleID::new(n));
    v.push(ParticleID::new(Delta_plus_plus));
    v.push(ParticleID::new(Delta_plus));
    v.push(ParticleID::new(Delta_0));
    v.push(ParticleID::new(Delta_minus));
    proof {
        assert(ids_of(v@) =~= member_ids());
    }
    v
}

} // verus!
