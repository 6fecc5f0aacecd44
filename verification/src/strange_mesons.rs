//! Strange meson identifiers.
#![allow(non_upper_case_globals)]

use vstd::prelude::*;
use crate::particle::ParticleID;
use crate::particle::ids_of;

verus! {

pub const K_0_L: i32 = 130;
pub const K_0_S: i32 = 310;
pub const K_0: i32 = 311;
pub const K_plus: i32 = 321;
pub const K_0_star_700_0: i32 = 9000311;
pub const K_0_star_700_plus: i32 = 9000321;
pub const K_0_star_1430_0: i32 = 10311;
pub const K_0_star_1430_plus: i32 = 10321;
pub const K_1460_0: i32 = 100311;
pub const K_1460_plus: i32 = 100321;
pub const K_1830_0: i32 = 9010311;
pub const K_1830_plus: i32 = 9010321;
pub const K_0_star_1950_0: i32 = 9020311;
pub const K_0_star_1950_plus: i32 = 9020321;
pub const K_star_892_0: i32 = 313;
pub const K_star_892_plus: i32 = 323;
pub const K_1_1270_0: i32 = 10313;
pub const K_1_1270_plus: i32 = 10323;
pub const K_1_1400_0: i32 = 20313;
pub const K_1_1400_plus: i32 = 20323;
pub const K_star_1410_0: i32 = 100313;
pub const K_star_1410_plus: i32 = 100323;
pub const K_1_1650_0: i32 = 9000313;
pub const K_1_1650_plus: i32 = 9000323;
pub const K_star_1680_0: i32 = 30313;
pub const K_star_1680_plus: i32 = 30323;
pub const K_2_star_1430_0: i32 = 315;
pub const K_2_star_1430_plus: i32 = 325;
pub const K_2_1580_0: i32 = 9000315;
pub const K_2_1580_plus: i32 = 9000325;
pub const K_2_1770_0: i32 = 10315;
pub const K_2_1770_plus: i32 = 10325;
pub const K_2_1820_0: i32 = 20315;
pub const K_2_1820_plus: i32 = 20325;
pub const K_2_star_1980_0: i32 = 9010315;
pub const K_2_star_1980_plus: i32 = 9010325;
pub const K_2_2250_0: i32 = 9020315;
pub const K_2_2250_plus: i32 = 9020325;
pub const K_3_star_1780_0: i32 = 317;
pub const K_3_star_1780_plus: i32 = 327;
pub const K_3_2320_0: i32 = 9010317;
pub const K_3_2320_plus: i32 = 9010327;
pub const K_4_star_2045_0: i32 = 319;
pub const K_4_star_2045_plus: i32 = 329;
pub const K_4_2500_0: i32 = 9000319;
pub const K_4_2500_plus: i32 = 9000329;

/// The strange meson identifiers, in catalog order.
pub open spec fn member_ids() -> Seq<int> {
    seq![K_0_L as int, K_0_S as int, K_0 as int, K_plus as int, K_0_star_700_0 as int, K_0_star_700_plus as int, K_0_star_1430_0 as int, K_0_star_1430_plus as int, K_1460_0 as int, K_1460_plus as int, K_1830_0 as int, K_1830_plus as int, K_0_star_1950_0 as int, K_0_star_1950_plus as int, K_star_892_0 as int, K_star_892_plus as int, K_1_1270_0 as int, K_1_1270_plus as int, K_1_1400_0 as int, K_1_1400_plus as int, K_star_1410_0 as int, K_star_1410_plus as int, K_1_1650_0 as int, K_1_1650_plus as int, K_star_1680_0 as int, K_star_1680_plus as int, K_2_star_1430_0 as int, K_2_star_1430_plus as int, K_2_1580_0 as int, K_2_1580_plus as int, K_2_1770_0 as int, K_2_1770_plus as int, K_2_1820_0 as int, K_2_1820_plus as int, K_2_star_1980_0 as int, K_2_star_1980_plus as int, K_2_2250_0 as int, K_2_2250_plus as int, K_3_star_1780_0 as int, K_3_star_1780_plus as int, K_3_2320_0 as int, K_3_2320_plus as int, K_4_star_2045_0 as int, K_4_star_2045_plus as int, K_4_2500_0 as int, K_4_2500_plus as int]
}

/// The strange meson members, in catalog order.
pub fn members() -> (v: Vec<ParticleID>)
    ensures
        ids_of(v@) == member_ids(),
{
    let mut v: Vec<ParticleID> = Vec::new();
    v.push(ParticleID::new(K_0_L));
    v.push(ParticleID::new(K_0_S));
    v.push(ParticleID::new(K_0));
    v.push(ParticleID::new(K_plus));
    v.push(ParticleID::new(K_0_star_700_0));
    v.push(ParticleID::new(K_0_star_700_plus));
    v.push(ParticleID::new(K_0_star_1430_0));
    v.push(ParticleID::new(K_0_star_1430_plus));
    v.push(ParticleID::new(K_1460_0));
    v.push(ParticleID::new(K_1460_plus));
    v.push(ParticleID::new(K_1830_0));
    v.push(ParticleID::new(K_1830_plus));
    v.push(ParticleID::new(K_0_star_1950_0));
    v.push(ParticleID::new(K_0_star_1950_plus));
    v.push(ParticleID::new(K_star_892_0));
    v.push(ParticleID::new(K_star_892_plus));
    v.push(ParticleID::new(K_1_1270_0));
    v.push(ParticleID::new(K_1_1270_plus));
    v.push(ParticleID::new(K_1_1400_0));
    v.push(ParticleID::new(K_1_1400_plus));
    v.push(ParticleID::new(K_star_1410_0));
    v.push(ParticleID::new(K_star_1410_plus));
    v.push(ParticleID::new(K_1_1650_0));
    v.push(ParticleID::new(K_1_1650_plus));
    v.push(ParticleID::new(K_star_1680_0));
    v.push(ParticleID::new(K_star_1680_plus));
    v.push(ParticleID::new(K_2_star_1430_0));
    v.push(ParticleID::new(K_2_star_1430_plus));
    v.push(ParticleID::new(K_2_1580_0));
    v.push(ParticleID::new(K_2_1580_plus));
    v.push(ParticleID::new(K_2_1770_0));
    v.push(ParticleID::new(K_2_1770_plus));
    v.push(ParticleID::new(K_2_1820_0));
    v.push(ParticleID::new(K_2_1820_plus));
    v.push(ParticleID::new(K_2_star_1980_0));
    v.push(ParticleID::new(K_2_star_1980_plus));
    v.push(ParticleID::new(K_2_2250_0));
    v.push(ParticleID::new(K_2_2250_plus));
    v.push(ParticleID::new(K_3_star_1780_0));
    v.push(ParticleID::new(K_3_star_1780_plus));
    v.push(ParticleID::new(K_3_2320_0));
    v.push(ParticleID::new(K_3_2320_plus));
    v.push(ParticleID::new(K_4_star_2045_0));
    v.push(ParticleID::new(K_4_star_2045_plus));
    v.push(ParticleID::new(K_4_2500_0));
    v.push(ParticleID::new(K_4_2500_plus));
    proof {
        assert(ids_of(v@) =~= member_ids());
    }
    v
}

} // verus!
