//! Strange baryon identifiers.
#![allow(non_upper_case_globals)]

use vstd::prelude::*;
use crate::particle::ParticleID;
use crate::particle::ids_of;

verus! {

pub const Lambda: i32 = 3122;
pub const Sigma_plus: i32 = 3222;
pub const Sigma_0: i32 = 3212;
pub const Sigma_minus: i32 = 3112;
pub const Sigma_star_plus: i32 = 3224;
pub const Sigma_star_0: i32 = 3214;
pub const Sigma_star_minus: i32 = 3114;
pub const Xi_0: i32 = 3322;
pub const Xi_minus: i32 = 3312;
pub const Xi_star_0: i32 = 3324;
pub const Xi_star_minus: i32 = 3314;
pub const Omega_minus: i32 = 3334;

/// The strange baryon identifiers, in catalog order.
pub open spec fn member_ids() -> Seq<int> {
    seq![Lambda as int, Sigma_plus as int, Sigma_0 as int, Sigma_minus as int, Sigma_star_plus as int, Sigma_star_0 as int, Sigma_star_minus as int, Xi_0 as int, Xi_minus as int, Xi_star_0 as int, Xi_star_minus as int, Omega_minus as int]
}

/// The strange baryon members, in catalog order.
pub fn members() -> (v: Vec<ParticleID>)
    ensures
        ids_of(v@) == member_ids(),
{
    let mut v: Vec<ParticleID> = Vec::new();
    v.push(ParticleID::new(Lambda));
    v.push(ParticleID::new(Sigma_plus));
    v.push(ParticleID::new(Sigma_0));
    v.push(ParticleID::new(Sigma_minus));
    v.push(ParticleID::new(Sigma_star_plus));
    v.push(ParticleID::new(Sigma_star_0));
    v.push(ParticleID::new(Sigma_star_minus));
    v.push(ParticleID::new(Xi_0));
    v.push(ParticleID::new(Xi_minus));
    v.push(ParticleID::new(Xi_star_0));
    v.push(ParticleID::new(Xi_star_minus));
    v.push(ParticleID::new(Omega_minus));
    proof {
        assert(ids_of(v@) =~= member_ids());
    }
    v
}

} // verus!
