//! Charmonium (c cbar) meson identifiers.
#![allow(non_upper_case_globals)]

use vstd::prelude::*;
use crate::particle::ParticleID;
use crate::particle::ids_of;

verus! {

pub const eta_c_1S: i32 = 441;
pub const chi_c_0_1P: i32 = 10441;
pub const eta_c_2S: i32 = 100441;
pub const Jpsi_1S: i32 = 443;
pub const h_c_1P: i32 = 10443;
pub const chi_c_1_1P: i32 = 20443;
pub const psi_2S: i32 = 100443;
pub const psi_3770: i32 = 30443;
pub const psi_4040: i32 = 9000443;
pub const psi_4160: i32 = 9010443;
pub const psi_4415: i32 = 9020443;
pub const chi_c_2_1P: i32 = 445;
pub const chi_c_2_3930: i32 = 100445;

/// The charmonium meson identifiers, in catalog order.
pub open spec fn member_ids() -> Seq<int> {
    seq![eta_c_1S as int, chi_c_0_1P as int, eta_c_2S as int, Jpsi_1S as int, h_c_1P as int, chi_c_1_1P as int, psi_2S as int, psi_3770 as int, psi_4040 as int, psi_4160 as int, psi_4415 as int, chi_c_2_1P as int, chi_c_2_3930 as int]
}

/// The charmonium meson members, in catalog order.
pub fn members() -> (v: Vec<ParticleID>)
    ensures
        ids_of(v@) == member_ids(),
{
    let mut v: Vec<ParticleID> = Vec::new();
    v.push(ParticleID::new(eta_c_1S));
    v.push(ParticleID::new(chi_c_0_1P));
    v.push(ParticleID::new(eta_c_2S));
    v.push(ParticleID::new(Jpsi_1S));
    v.push(ParticleID::new(h_c_1P));
    v.push(ParticleID::new(chi_c_1_1P));
    v.push(ParticleID::new(psi_2S));
    v.push(ParticleID::new(psi_3770));
    v.push(ParticleID::new(psi_4040));
    v.push(ParticleID::new(psi_4160));
    v.push(ParticleID::new(psi_4415));
    v.push(ParticleID::new(chi_c_2_1P));
    v.push(ParticleID::new(chi_c_2_3930));
    proof {
        assert(ids_of(v@) =~= member_ids());
    }
    v
}

} // verus!
