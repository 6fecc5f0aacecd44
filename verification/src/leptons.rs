//! Lepton identifiers: charged leptons and neutrinos.
#![allow(non_upper_case_globals)]

use vstd::prelude::*;
use crate::particle::ParticleID;
use crate::particle::ids_of;

verus! {

pub const e: i32 = 11;
pub const nu_e: i32 = 12;
pub const mu: i32 = 13;
pub const nu_mu: i32 = 14;
pub const tau: i32 = 15;
pub const nu_tau: i32 = 16;
pub const tau_prime: i32 = 17;
pub const nu_tau_prime: i32 = 18;

pub const electron: i32 = e;
pub const electron_neutrino: i32 = nu_e;
pub const muon: i32 = mu;
pub const muon_neutrino: i32 = nu_mu;
pub const tau_neutrino: i32 = nu_tau;
pub const tau_prime_neutrino: i32 = nu_tau_prime;

/// The lepton identifiers, in catalog order.
pub open spec fn member_ids() -> Seq<int> {
    seq![e as int, nu_e as int, mu as int, nu_mu as int, tau as int, nu_tau as int, tau_prime as int, nu_tau_prime as int]
}

/// The lepton members, in catalog order.
pub fn members() -> (v: Vec<ParticleID>)
    ensures
        ids_of(v@) == member_ids(),
{
    let mut v: Vec<ParticleID> = Vec::new();
    v.push(ParticleID::new(e));
    v.push(ParticleID::new(nu_e));
    v.push(ParticleID::new(mu));
    v.push(ParticleID::new(nu_mu));
    v.push(ParticleID::new(tau));
    v.push(ParticleID::new(nu_tau));
    v.push(ParticleID::new(tau_prime));
    v.push(ParticleID::new(nu_tau_prime));
    proof {
        assert(ids_of(v@) =~= member_ids());
    }
    v
}

} // verus!
