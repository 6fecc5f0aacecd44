//! Charmed baryon identifiers.
#![allow(non_upper_case_globals)]

use vstd::prelude::*;
use crate::particle::ParticleID;
use crate::particle::ids_of;

verus! {

pub const Lambda_c_plus: i32 = 4122;
pub const Sigma_c_plus_plus: i32 = 4222;
pub const Sigma_c_plus: i32 = 4212;
pub const Sigma_c_0: i32 = 4112;
pub const Sigma_c_star_plus_plus: i32 = 4224;
pub const Sigma_c_star_plus: i32 = 4214;
pub const Sigma_c_star_0: i32 = 4114;
pub const Xi_c_plus: i32 = 4232;
pub const Xi_c_0: i32 = 4132;
pub const Xi_c_prime_plus: i32 = 4322;
pub const Xi_c_prime_0: i32 = 4312;
pub const Xi_c_star_plus: i32 = 4324;
pub const Xi_c_star_0: i32 = 4314;
pub const Omega_c_0: i32 = 4332;
pub const Omega_c_star_0: i32 = 4334;
pub const Xi_c_c_plus: i32 = 4412;
pub const Xi_c_c_plus_plus: i32 = 4422;
pub const Xi_c_c_star_plus: i32 = 4414;
pub const Xi_c_c_star_plus_plus: i32 = 4424;
pub const Omega_c_c_plus: i32 = 4432;
pub const Omega_c_c_star_plus: i32 = 4434;
pub const Omega_c_c_c_plus_plus: i32 = 4444;

/// The charmed baryon identifiers, in catalog order.
pub open spec fn member_ids() -> Seq<int> {
    seq![Lambda_c_plus as int, Sigma_c_plus_plus as int, Sigma_c_plus as int, Sigma_c_0 as int, Sigma_c_star_plus_plus as int, Sigma_c_star_plus as int, Sigma_c_star_0 as int, Xi_c_plus as int, Xi_c_0 as int, Xi_c_prime_plus as int, Xi_c_prime_0 as int, Xi_c_star_plus as int, Xi_c_star_0 as int, Omega_c_0 as int, Omega_c_star_0 as int, Xi_c_c_plus as int, Xi_c_c_plus_plus as int, Xi_c_c_star_plus as int, Xi_c_c_star_plus_plus as int, Omega_c_c_plus as int, Omega_c_c_star_plus as int, Omega_c_c_c_plus_plus as int]
}

/// The charmed baryon members, in catalog order.
pub fn members() -> (v: Vec<ParticleID>)
    ensures
        ids_of(v@) == member_ids(),
{
    let mut v: Vec<ParticleID> = Vec::new();
    v.push(ParticleID::new(Lambda_c_plus));
    v.push(ParticleID::new(Sigma_c_plus_plus));
    v.push(ParticleID::new(Sigma_c_plus));
    v.push(ParticleID::new(Sigma_c_0));
    v.push(ParticleID::new(Sigma_c_star_plus_plus));
    v.push(ParticleID::new(Sigma_c_star_plus));
    v.push(ParticleID::new(Sigma_c_star_0));
    v.push(ParticleID::new(Xi_c_plus));
    v.push(ParticleID::new(Xi_c_0));
    v.push(ParticleID::new(Xi_c_prime_plus));
    v.push(ParticleID::new(Xi_c_prime_0));
    v.push(ParticleID::new(Xi_c_star_plus));
    v.push(ParticleID::new(Xi_c_star_0));
    v.push(ParticleID::new(Omega_c_0));
    v.push(ParticleID::new(Omega_c_star_0));
    v.push(ParticleID::new(Xi_c_c_plus));
    v.push(ParticleID::new(Xi_c_c_plus_plus));
    v.push(ParticleID::new(Xi_c_c_star_plus));
    v.push(ParticleID::new(Xi_c_c_star_plus_plus));
    v.push(ParticleID::new(Omega_c_c_plus));
    v.push(ParticleID::new(Omega_c_c_star_plus));
    v.push(ParticleID::new(Omega_c_c_c_plus_plus));
    proof {
        assert(ids_of(v@) =~= member_ids());
    }
    v
}

} // verus!
