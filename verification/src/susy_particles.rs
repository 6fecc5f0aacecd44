//! Supersymmetric partner identifiers.
#![allow(non_upper_case_globals)]

use vstd::prelude::*;
use crate::particle::ParticleID;
use crate::particle::ids_of;

verus! {

pub const d_tilde_L: i32 = 1000001;
pub const u_tilde_L: i32 = 1000002;
pub const s_tilde_L: i32 = 1000003;
pub const c_tilde_L: i32 = 1000004;
pub const b_tilde_1: i32 = 1000005;
pub const t_tilde_1: i32 = 1000006;
pub const e_tilde_L: i32 = 1000011;
pub const nu_e_tilde_L: i32 = 1000012;
pub const mu_tilde_L: i32 = 1000013;
pub const nu_mu_tilde_L: i32 = 1000014;
pub const tau_tilde_1: i32 = 1000015;
pub const nu_tau_tilde_L: i32 = 1000016;
pub const d_tilde_R: i32 = 2000001;
pub const u_tilde_R: i32 = 2000002;
pub const s_tilde_R: i32 = 2000003;
pub const c_tilde_R: i32 = 2000004;
pub const b_tilde_2: i32 = 2000005;
pub const t_tilde_2: i32 = 2000006;
pub const e_tilde_R: i32 = 2000011;
pub const mu_tilde_R: i32 = 2000013;
pub const tau_tilde_2: i32 = 2000015;
pub const g_tilde: i32 = 1000021;
pub const chi_tilde_0_1: i32 = 1000022;
pub const chi_tilde_0_2: i32 = 1000023;
pub const chi_tilde_plus_1: i32 = 1000024;
pub const chi_tilde_0_3: i32 = 1000025;
pub const chi_tilde_0_4: i32 = 1000035;
pub const chi_tilde_plus_2: i32 = 1000037;
pub const G_tilde: i32 = 1000039;

/// The supersymmetric partner identifiers, in catalog order.
pub open spec fn member_ids() -> Seq<int> {
    seq![d_tilde_L as int, u_tilde_L as int, s_tilde_L as int, c_tilde_L as int, b_tilde_1 as int, t_tilde_1 as int, e_tilde_L as int, nu_e_tilde_L as int, mu_tilde_L as int, nu_mu_tilde_L as int, tau_tilde_1 as int, nu_tau_tilde_L as int, d_tilde_R as int, u_tilde_R as int, s_tilde_R as int, c_tilde_R as int, b_tilde_2 as int, t_tilde_2 as int, e_tilde_R as int, mu_tilde_R as int, tau_tilde_2 as int, g_tilde as int, chi_tilde_0_1 as int, chi_tilde_0_2 as int, chi_tilde_plus_1 as int, chi_tilde_0_3 as int, chi_tilde_0_4 as int, chi_tilde_plus_2 as int, G_tilde as int]
}

/// The supersymmetric partner members, in catalog order.
pub fn members() -> (v: Vec<ParticleID>)
    ensures
        ids_of(v@) == member_ids(),
{
    let mut v: Vec<ParticleID> = Vec::new();
    v.push(ParticleID::new(d_tilde_L));
    v.push(ParticleID::new(u_tilde_L));
    v.push(ParticleID::new(s_tilde_L));
    v.push(ParticleID::new(c_tilde_L));
    v.push(ParticleID::new(b_tilde_1));
    v.push(ParticleID::new(t_tilde_1));
    v.push(ParticleID::new(e_tilde_L));
    v.push(ParticleID::new(nu_e_tilde_L));
    v.push(ParticleID::new(mu_tilde_L));
    v.push(ParticleID::new(nu_mu_tilde_L));
    v.push(ParticleID::new(tau_tilde_1));
    v.push(ParticleID::new(nu_tau_tilde_L));
    v.push(ParticleID::new(d_tilde_R));
    v.push(ParticleID::new(u_tilde_R));
    v.push(ParticleID::new(s_tilde_R));
    v.push(ParticleID::new(c_tilde_R));
    v.push(ParticleID::new(b_tilde_2));
    v.push(ParticleID::new(t_tilde_2));
    v.push(ParticleID::new(e_tilde_R));
    v.push(ParticleID::new(mu_tilde_R));
    v.push(ParticleID::new(tau_tilde_2));
    v.push(ParticleID::new(g_tilde));
    v.push(ParticleID::new(chi_tilde_0_1));
    v.push(ParticleID::new(chi_tilde_0_2));
    v.push(ParticleID::new(chi_tilde_plus_1));
    v.push(ParticleID::new(chi_tilde_0_3));
    v.push(ParticleID::new(chi_tilde_0_4));
    v.push(ParticleID::new(chi_tilde_plus_2));
    v.push(ParticleID::new(G_tilde));
    proof {
        assert(ids_of(v@) =~= member_ids());
    }
    v
}

} // verus!
