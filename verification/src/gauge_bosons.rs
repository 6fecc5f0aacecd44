//! Gauge boson identifiers.
#![allow(non_upper_case_globals)]

use vstd::prelude::*;
use crate::particle::ParticleID;
use crate::particle::ids_of;

verus! {

pub const g: i32 = 21;
pub const gamma: i32 = 22;
pub const Z: i32 = 23;
pub const W_plus: i32 = 24;
pub const Z_prime: i32 = 32;
pub const Z_prime_prime: i32 = 33;
pub const W_prime: i32 = 34;

pub const gluon: i32 = g;
pub const photon: i32 = gamma;

/// The gauge boson identifiers, in catalog order.
pub open spec fn member_ids() -> Seq<int> {
    seq![g as int, gamma as int, Z as int, W_plus as int, Z_prime as int, Z_prime_prime as int, W_prime as int]
}

/// The gauge boson members, in catalog order.
pub fn members() -> (v: Vec<ParticleID>)
    ensures
        ids_of(v@) == member_ids(),
{
    let mut v: Vec<ParticleID> = Vec::new();
    v.push(ParticleID::new(g));
    v.push(ParticleID::new(gamma));
    v.push(ParticleID::new(Z));
    v.push(ParticleID::new(W_plus));
    v.push(ParticleID::new(Z_prime));
    v.push(ParticleID::new(Z_prime_prime));
    v.push(ParticleID::new(W_prime));
    proof {
        assert(ids_of(v@) =~= member_ids());
    }
    v
}

} // verus!
