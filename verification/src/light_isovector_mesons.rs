//! Light isovector (isospin 1) meson identifiers.
#![allow(non_upper_case_globals)]

use vstd::prelude::*;
use crate::particle::ParticleID;
use crate::particle::ids_of;

verus! {

pub const pi_0: i32 = 111;
pub const pi_plus: i32 = 211;
pub const a_0_980_0: i32 = 9000111;
pub const a_0_980_plus: i32 = 9000211;
pub const pi_1300_0: i32 = 100111;
pub const pi_1300_plus: i32 = 100211;
pub const a_0_1450_0: i32 = 10111;
pub const a_0_1450_plus: i32 = 10211;
pub const pi_1800_0: i32 = 9010111;
pub const pi_1800_plus: i32 = 9010211;
pub const rho_770_0: i32 = 113;
pub const rho_770_plus: i32 = 213;
pub const b_1_1235_0: i32 = 10113;
pub const b_1_1235_plus: i32 = 10213;
pub const a_1_1260_0: i32 = 20113;
pub const a_1_1260_plus: i32 = 20213;
pub const pi_1_1400_0: i32 = 9000113;
pub const pi_1_1400_plus: i32 = 9000213;
pub const rho_1450_0: i32 = 100113;
pub const rho_1450_plus: i32 = 100213;
pub const pi_1_1600_0: i32 = 9010113;
pub const pi_1_1600_plus: i32 = 9010213;
pub const a_1_1640_0: i32 = 9020113;
pub const a_1_1640_plus: i32 = 9020213;
pub const rho_1700_0: i32 = 30113;
pub const rho_1700_plus: i32 = 30213;
pub const rho_1900_0: i32 = 9030113;
pub const rho_1900_plus: i32 = 9030213;
pub const rho_2150_0: i32 = 9040113;
pub const rho_2150_plus: i32 = 9040213;
pub const a_2_1320_0: i32 = 115;
pub const a_2_1320_plus: i32 = 215;
pub const pi_2_1670_0: i32 = 10115;
pub const pi_2_1670_plus: i32 = 10215;
pub const a_2_1700_0: i32 = 9000115;
pub const a_2_1700_plus: i32 = 9000215;
pub const pi_2_2100_0: i32 = 9010115;
pub const pi_2_2100_plus: i32 = 9010215;
pub const rho_3_1690_0: i32 = 117;
pub const rho_3_1690_plus: i32 = 217;
pub const rho_3_1990_0: i32 = 9000117;
pub const rho_3_1990_plus: i32 = 9000217;
pub const rho_3_2250_0: i32 = 9010117;
pub const rho_3_2250_plus: i32 = 9010217;
pub const a_4_2040_0: i32 = 119;
pub const a_4_2040_plus: i32 = 219;

/// The light isovector meson identifiers, in catalog order.
pub open spec fn member_ids() -> Seq<int> {
    seq![pi_0 as int, pi_plus as int, a_0_980_0 as int, a_0_980_plus as int, pi_1300_0 as int, pi_1300_plus as int, a_0_1450_0 as int, a_0_1450_plus as int, pi_1800_0 as int, pi_1800_plus as int, rho_770_0 as int, rho_770_plus as int, b_1_1235_0 as int, b_1_1235_plus as int, a_1_1260_0 as int, a_1_1260_plus as int, pi_1_1400_0 as int, pi_1_1400_plus as int, rho_1450_0 as int, rho_1450_plus as int, pi_1_1600_0 as int, pi_1_1600_plus as int, a_1_1640_0 as int, a_1_1640_plus as int, rho_1700_0 as int, rho_1700_plus as int, rho_1900_0 as int, rho_1900_plus as int, rho_2150_0 as int, rho_2150_plus as int, a_2_1320_0 as int, a_2_1320_plus as int, pi_2_1670_0 as int, pi_2_1670_plus as int, a_2_1700_0 as int, a_2_1700_plus as int, pi_2_2100_0 as int, pi_2_2100_plus as int, rho_3_1690_0 as int, rho_3_1690_plus as int, rho_3_1990_0 as int, rho_3_1990_plus as int, rho_3_2250_0 as int, rho_3_2250_plus as int, a_4_2040_0 as int, a_4_2040_plus as int]
}

/// The light isovector meson members, in catalog order.
pub fn members() -> (v: Vec<ParticleID>)
    ensures
        ids_of(v@) == member_ids(),
{
    let mut v: Vec<ParticleID> = Vec::new();
    v.push(ParticleID::new(pi_0));
    v.push(ParticleID::new(pi_plus));
    v.push(ParticleID::new(a_0_980_0));
    v.push(ParticleID::new(a_0_980_plus));
    v.push(ParticleID::new(pi_1300_0));
    v.push(ParticleID::new(pi_1300_plus));
    v.push(ParticleID::new(a_0_1450_0));
    v.push(ParticleID::new(a_0_1450_plus));
    v.push(ParticleID::new(pi_1800_0));
    v.push(ParticleID::new(pi_1800_plus));
    v.push(ParticleID::new(rho_770_0));
    v.push(ParticleID::new(rho_770_plus));
    v.push(ParticleID::new(b_1_1235_0));
    v.push(ParticleID::new(b_1_1235_plus));
    v.push(ParticleID::new(a_1_1260_0));
    v.push(ParticleID::new(a_1_1260_plus));
    v.push(ParticleID::new(pi_1_1400_0));
    v.push(ParticleID::new(pi_1_1400_plus));
    v.push(ParticleID::new(rho_1450_0));
    v.push(ParticleID::new(rho_1450_plus));
    v.push(ParticleID::new(pi_1_1600_0));
    v.push(ParticleID::new(pi_1_1600_plus));
    v.push(ParticleID::new(a_1_1640_0));
    v.push(ParticleID::new(a_1_1640_plus));
    v.push(ParticleID::new(rho_1700_0));
    v.push(ParticleID::new(rho_1700_plus));
    v.push(ParticleID::new(rho_1900_0));
    v.push(ParticleID::new(rho_1900_plus));
    v.push(ParticleID::new(rho_2150_0));
    v.push(ParticleID::new(rho_2150_plus));
    v.push(ParticleID::new(a_2_1320_0));
    v.push(ParticleID::new(a_2_1320_plus));
    v.push(ParticleID::new(pi_2_1670_0));
    v.push(ParticleID::new(pi_2_1670_plus));
    v.push(ParticleID::new(a_2_1700_0));
    v.push(ParticleID::new(a_2_1700_plus));
    v.push(ParticleID::new(pi_2_2100_0));
    v.push(ParticleID::new(pi_2_2100_plus));
    v.push(ParticleID::new(rho_3_1690_0));
    v.push(ParticleID::new(rho_3_1690_plus));
    v.push(ParticleID::new(rho_3_1990_0));
    v.push(ParticleID::new(rho_3_1990_plus));
    v.push(ParticleID::new(rho_3_2250_0));
    v.push(ParticleID::new(rho_3_2250_plus));
    v.push(ParticleID::new(a_4_2040_0));
    v.push(ParticleID::new(a_4_2040_plus));
    proof {
        assert(ids_of(v@) =~= member_ids());
    }
    v
}

} // verus!
