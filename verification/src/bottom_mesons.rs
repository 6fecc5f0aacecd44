//! Bottom meson identifiers.
#![allow(non_upper_case_globals)]

use vstd::prelude::*;
use crate::particle::ParticleID;
use crate::particle::ids_of;

verus! {

pub const B_0: i32 = 511;
pub const B_plus: i32 = 521;
pub const B_0_star_0: i32 = 10511;
pub const B_0_star_plus: i32 = 10521;
pub const B_star_0: i32 = 513;
pub const B_star_plus: i32 = 523;
pub const B_1_L_0: i32 = 10513;
pub const B_1_L_plus: i32 = 10523;
pub const B_1_H_0: i32 = 20513;
pub const B_1_H_plus: i32 = 20523;
pub const B_2_star0: i32 = 515;
pub const B_2_star_plus: i32 = 525;
pub const B_s_0: i32 = 531;
pub const B_s_0_star_0: i32 = 10531;
pub const B_s_star_0: i32 = 533;
pub const B_s_1_L_0: i32 = 10533;
pub const B_s_1_H_0: i32 = 20533;
pub const B_s_2_star_0: i32 = 535;
pub const B_c_plus: i32 = 541;
pub const B_c_0_star_plus: i32 = 10541;
pub const B_c_star_plus: i32 = 543;
pub const B_c_1_L_plus: i32 = 10543;
pub const B_c_1_H_plus: i32 = 20543;
pub const B_c_2_star_plus: i32 = 545;

/// The bottom meson identifiers, in catalog order.
pub open spec fn member_ids() -> Seq<int> {
    seq![B_0 as int, B_plus as int, B_0_star_0 as int, B_0_star_plus as int, B_star_0 as int, B_star_plus as int, B_1_L_0 as int, B_1_L_plus as int, B_1_H_0 as int, B_1_H_plus as int, B_2_star0 as int, B_2_star_plus as int, B_s_0 as int, B_s_0_star_0 as int, B_s_star_0 as int, B_s_1_L_0 as int, B_s_1_H_0 as int, B_s_2_star_0 as int, B_c_plus as int, B_c_0_star_plus as int, B_c_star_plus as int, B_c_1_L_plus as int, B_c_1_H_plus as int, B_c_2_star_plus as int]
}

/// The bottom meson members, in catalog order.
pub fn members() -> (v: Vec<ParticleID>)
    ensures
        ids_of(v@) == member_ids(),
{
    let mut v: Vec<ParticleID> = Vec::new();
    v.push(ParticleID::new(B_0));
    v.push(ParticleID::new(B_plus));
    v.push(ParticleID::new(B_0_star_0));
    v.push(ParticleID::new(B_0_star_plus));
    v.push(ParticleID::new(B_star_0));
    v.push(ParticleID::new(B_star_plus));
    v.push(ParticleID::new(B_1_L_0));
    v.push(ParticleID::new(B_1_L_plus));
    v.push(ParticleID::new(B_1_H_0));
    v.push(ParticleID::new(B_1_H_plus));
    v.push(ParticleID::new(B_2_star0));
    v.push(ParticleID::new(B_2_star_plus));
    v.push(ParticleID::new(B_s_0));
    v.push(ParticleID::new(B_s_0_star_0));
    v.push(ParticleID::new(B_s_star_0));
    v.push(ParticleID::new(B_s_1_L_0));
    v.push(ParticleID::new(B_s_1_H_0));
    v.push(ParticleID::new(B_s_2_star_0));
    v.push(ParticleID::new(B_c_plus));
    v.push(ParticleID::new(B_c_0_star_plus));
    v.push(ParticleID::new(B_c_star_plus));
    v.push(ParticleID::new(B_c_1_L_plus));
    v.push(ParticleID::new(B_c_1_H_plus));
    v.push(ParticleID::new(B_c_2_star_plus));
    proof {
        assert(ids_of(v@) =~= member_ids());
    }
    v
}

} // verus!
