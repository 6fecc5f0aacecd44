//! Bottomonium (b bbar) meson identifiers.
#![allow(non_upper_case_globals)]

use vstd::prelude::*;
use crate::particle::ParticleID;
use crate::particle::ids_of;

verus! {

pub const eta_b_1S: i32 = 551;
pub const chi_b_0_1P: i32 = 10551;
pub const eta_b_2S: i32 = 100551;
pub const chi_b_0_2P: i32 = 110551;
pub const eta_b_3S: i32 = 200551;
pub const chi_b_0_3P: i32 = 210551;
pub const Upsilon_1S: i32 = 553;
pub const h_b_1P: i32 = 10553;
pub const chi_b_1_1P: i32 = 20553;
pub const Upsilon_1_1D: i32 = 30553;
pub const Upsilon_2S: i32 = 100553;
pub const h_b_2P: i32 = 110553;
pub const chi_b_1_2P: i32 = 120553;
pub const Upsilon_1_2D: i32 = 130553;
pub const Upsilon_3S: i32 = 200553;
pub const h_b_3P: i32 = 210553;
pub const chi_b_1_3P: i32 = 220553;
pub const Upsilon_4S: i32 = 300553;
pub const Upsilon_10860: i32 = 9000553;
pub const Upsilon_11020: i32 = 9010553;
pub const chi_b_2_1P: i32 = 555;
pub const eta_b_2_1D: i32 = 10555;
pub const Upsilon_2_1D: i32 = 20555;
pub const chi_b_2_2P: i32 = 100555;
pub const eta_b_2_2D: i32 = 110555;
pub const Upsilon_2_2D: i32 = 120555;
pub const chi_b_2_3P: i32 = 200555;
pub const Upsilon_3_1D: i32 = 557;
pub const Upsilon_3_2D: i32 = 100557;

/// The bottomonium meson identifiers, in catalog order.
pub open spec fn member_ids() -> Seq<int> {
    seq![eta_b_1S as int, chi_b_0_1P as int, eta_b_2S as int, chi_b_0_2P as int, eta_b_3S as int, chi_b_0_3P as int, Upsilon_1S as int, h_b_1P as int, chi_b_1_1P as int, Upsilon_1_1D as int, Upsilon_2S as int, h_b_2P as int, chi_b_1_2P as int, Upsilon_1_2D as int, Upsilon_3S as int, h_b_3P as int, chi_b_1_3P as int, Upsilon_4S as int, Upsilon_10860 as int, Upsilon_11020 as int, chi_b_2_1P as int, eta_b_2_1D as int, Upsilon_2_1D as int, chi_b_2_2P as int, eta_b_2_2D as int, Upsilon_2_2D as int, chi_b_2_3P as int, Upsilon_3_1D as int, Upsilon_3_2D as int]
}

/// The bottomonium meson members, in catalog order.
pub fn members() -> (v: Vec<ParticleID>)
    ensures
        ids_of(v@) == member_ids(),
{
    let mut v: Vec<ParticleID> = Vec::new();
    v.push(ParticleID::new(eta_b_1S));
    v.push(ParticleID::new(chi_b_0_1P));
    v.push(ParticleID::new(eta_b_2S));
    v.push(ParticleID::new(chi_b_0_2P));
    v.push(ParticleID::new(eta_b_3S));
    v.push(ParticleID::new(chi_b_0_3P));
    v.push(ParticleID::new(Upsilon_1S));
    v.push(ParticleID::new(h_b_1P));
    v.push(ParticleID::new(chi_b_1_1P));
    v.push(ParticleID::new(Upsilon_1_1D));
    v.push(ParticleID::new(Upsilon_2S));
    v.push(ParticleID::new(h_b_2P));
    v.push(ParticleID::new(chi_b_1_2P));
    v.push(ParticleID::new(Upsilon_1_2D));
    v.push(ParticleID::new(Upsilon_3S));
    v.push(ParticleID::new(h_b_3P));
    v.push(ParticleID::new(chi_b_1_3P));
    v.push(ParticleID::new(Upsilon_4S));
    v.push(ParticleID::new(Upsilon_10860));
    v.push(ParticleID::new(Upsilon_11020));
    v.push(ParticleID::new(chi_b_2_1P));
    v.push(ParticleID::new(eta_b_2_1D));
    v.push(ParticleID::new(Upsilon_2_1D));
    v.push(ParticleID::new(chi_b_2_2P));
    v.push(ParticleID::new(eta_b_2_2D));
    v.push(ParticleID::new(Upsilon_2_2D));
    v.push(ParticleID::new(chi_b_2_3P));
    v.push(ParticleID::new(Upsilon_3_1D));
    v.push(ParticleID::new(Upsilon_3_2D));
    proof {
        assert(ids_of(v@) =~= member_ids());
    }
    v
}

} // verus!
