//! Bottom baryon identifiers.
#![allow(non_upper_case_globals)]

use vstd::prelude::*;
use crate::particle::ParticleID;
use crate::particle::ids_of;

verus! {

pub const Lambda_b_0: i32 = 5122;
pub const Sigma_b_minus: i32 = 5112;
pub const Sigma_b_0: i32 = 5212;
pub const Sigma_b_plus: i32 = 5222;
pub const Sigma_b_star_minus: i32 = 5114;
pub const Sigma_b_star_0: i32 = 5214;
pub const Sigma_b_star_plus: i32 = 5224;
pub const Xi_b_minus: i32 = 5132;
pub const Xi_b_0: i32 = 5232;
pub const Xi_b_prime_minus: i32 = 5312;
pub const Xi_b_prime_0: i32 = 5322;
pub const Xi_b_star_minus: i32 = 5314;
pub const Xi_b_star_0: i32 = 5324;
pub const Omega_b_minus: i32 = 5332;
pub const Omega_b_star_minus: i32 = 5334;
pub const Xi_b_c_0: i32 = 5142;
pub const Xi_b_c_plus: i32 = 5242;
pub const Xi_b_c_prime_0: i32 = 5412;
pub const Xi_b_c_prime_plus: i32 = 5422;
pub const Xi_b_c_star_0: i32 = 5414;
pub const Xi_b_c_star_plus: i32 = 5424;
pub const Omega_b_c_0: i32 = 5342;
pub const Omega_b_c_prime_0: i32 = 5432;
pub const Omega_b_c_star_0: i32 = 5434;
pub const Omega_b_c_c_plus: i32 = 5442;
pub const Omega_b_c_c_star_plus: i32 = 5444;
pub const Xi_b_b_minus: i32 = 5512;
pub const Xi_b_b_0: i32 = 5522;
pub const Xi_b_b_star_minus: i32 = 5514;
pub const Xi_b_b_star_0: i32 = 5524;
pub const Omega_b_b_minus: i32 = 5532;
pub const Omega_b_b_star_minus: i32 = 5534;
pub const Omega_b_b_c_0: i32 = 5542;
pub const Omega_b_b_c_star_0: i32 = 5544;
pub const Omega_b_b_b_minus: i32 = 5554;

/// The bottom baryon identifiers, in catalog order.
pub open spec fn member_ids() -> Seq<int> {
    seq![Lambda_b_0 as int, Sigma_b_minus as int, Sigma_b_0 as int, Sigma_b_plus as int, Sigma_b_star_minus as int, Sigma_b_star_0 as int, Sigma_b_star_plus as int, Xi_b_minus as int, Xi_b_0 as int, Xi_b_prime_minus as int, Xi_b_prime_0 as int, Xi_b_star_minus as int, Xi_b_star_0 as int, Omega_b_minus as int, Omega_b_star_minus as int, Xi_b_c_0 as int, Xi_b_c_plus as int, Xi_b_c_prime_0 as int, Xi_b_c_prime_plus as int, Xi_b_c_star_0 as int, Xi_b_c_star_plus as int, Omega_b_c_0 as int, Omega_b_c_prime_0 as int, Omega_b_c_star_0 as int, Omega_b_c_c_plus as int, Omega_b_c_c_star_plus as int, Xi_b_b_minus as int, Xi_b_b_0 as int, Xi_b_b_star_minus as int, Xi_b_b_star_0 as int, Omega_b_b_minus as int, Omega_b_b_star_minus as int, Omega_b_b_c_0 as int, Omega_b_b_c_star_0 as int, Omega_b_b_b_minus as int]
}

/// The bottom baryon members, in catalog order.
pub fn members() -> (v: Vec<ParticleID>)
    ensures
        ids_of(v@) == member_ids(),
{
    let mut v: Vec<ParticleID> = Vec::new();
    v.push(ParticleID::new(Lambda_b_0));
    v.push(ParticleID::new(Sigma_b_minus));
    v.push(ParticleID::new(Sigma_b_0));
    v.push(ParticleID::new(Sigma_b_plus));
    v.push(ParticleID::new(Sigma_b_star_minus));
    v.push(ParticleID::new(Sigma_b_star_0));
    v.push(ParticleID::new(Sigma_b_star_plus));
    v.push(ParticleID::new(Xi_b_minus));
    v.push(ParticleID::new(Xi_b_0));
    v.push(ParticleID::new(Xi_b_prime_minus));
    v.push(ParticleID::new(Xi_b_prime_0));
    v.push(ParticleID::new(Xi_b_star_minus));
    v.push(ParticleID::new(Xi_b_star_0));
    v.push(ParticleID::new(Omega_b_minus));
    v.push(ParticleID::new(Omega_b_star_minus));
    v.push(ParticleID::new(Xi_b_c_0));
    v.push(ParticleID::new(Xi_b_c_plus));
    v.push(ParticleID::new(Xi_b_c_prime_0));
    v.push(ParticleID::new(Xi_b_c_prime_plus));
    v.push(ParticleID::new(Xi_b_c_star_0));
    v.push(ParticleID::new(Xi_b_c_star_plus));
    v.push(ParticleID::new(Omega_b_c_0));
    v.push(ParticleID::new(Omega_b_c_prime_0));
    v.push(ParticleID::new(Omega_b_c_star_0));
    v.push(ParticleID::new(Omega_b_c_c_plus));
    v.push(ParticleID::new(Omega_b_c_c_star_plus));
    v.push(ParticleID::new(Xi_b_b_minus));
    v.push(ParticleID::new(Xi_b_b_0));
    v.push(ParticleID::new(Xi_b_b_star_minus));
    v.push(ParticleID::new(Xi_b_b_star_0));
    v.push(ParticleID::new(Omega_b_b_minus));
    v.push(ParticleID::new(Omega_b_b_star_minus));
    v.push(ParticleID::new(Omega_b_b_c_0));
    v.push(ParticleID::new(Omega_b_b_c_star_0));
    v.push(ParticleID::new(Omega_b_b_b_minus));
    proof {
        assert(ids_of(v@) =~= member_ids());
    }
    v
}

} // verus!
