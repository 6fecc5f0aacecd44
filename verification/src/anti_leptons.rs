//! Anti-lepton identifiers.
#![allow(non_upper_case_globals)]

use vstd::prelude::*;
use crate::particle::ParticleID;
use crate::particle::ids_of;

verus! {

pub const e_bar: i32 = -11;
pub const nu_e_bar: i32 = -12;
pub const mu_bar: i32 = -13;
pub const nu_mu_bar: i32 = -14;
pub const tau_bar: i32 = -15;
pub const nu_tau_bar: i32 = -16;
pub const tau_prime_bar: i32 = -17;
pub const nu_tau_prime_bar: i32 = -18;

pub const positron: i32 = e_bar;
pub const electron_anti_neutrino: i32 = nu_e_bar;
pub const mu_plus: i32 = mu_bar;
pub const anti_muon: i32 = mu_bar;
pub const muon_anti_neutrino: i32 = nu_mu_bar;
pub const tau_plus: i32 = tau_bar;
pub const anti_tau: i32 = tau_bar;
pub const tau_anti_neutrino: i32 = nu_tau_bar;
pub const tau_prime_anti_neutrino: i32 = nu_tau_prime_bar;

/// The anti-lepton identifiers, in catalog order.
pub open spec fn member_ids() -> Seq<int> {
    seq![e_bar as int, nu_e_bar as int, mu_bar as int, nu_mu_bar as int, tau_bar as int, nu_tau_bar as int, tau_prime_bar as int, nu_tau_prime_bar as int]
}

/// The anti-lepton members, in catalog order.
pub fn members() -> (v: Vec<ParticleID>)
    ensures
        ids_of(v@) == member_ids(),
{
    let mut v: Vec<ParticleID> = Vec::new();
    v.push(ParticleID::new(e_bar));
    v.push(ParticleID::new(nu_e_bar));
    v.push(ParticleID::new(mu_bar));
    v.push(ParticleID::new(nu_mu_bar));
    v.push(ParticleID::new(tau_bar));
    v.push(ParticleID::new(nu_tau_bar));
    v.push(ParticleID::new(tau_prime_bar));
    v.push(ParticleID::new(nu_tau_prime_bar));
    proof {
        assert(ids_of(v@) =~= member_ids());
    }
    v
}

} // verus!
