//! Light isoscalar (isospin 0) meson identifiers.
#![allow(non_upper_case_globals)]

use vstd::prelude::*;
use crate::particle::ParticleID;
use crate::particle::ids_of;

verus! {

pub const eta: i32 = 221;
pub const eta_prime_958: i32 = 331;
pub const f_0_500: i32 = 9000221;
pub const f_0_980: i32 = 9010221;
pub const eta_1295: i32 = 100221;
pub const f_0_1370: i32 = 10221;
pub const eta_1405: i32 = 9020221;
pub const eta_1475: i32 = 100331;
pub const f_0_1500: i32 = 9030221;
pub const f_0_1710: i32 = 10331;
pub const eta_1760: i32 = 9040221;
pub const f_0_2020: i32 = 9050221;
pub const f_0_2100: i32 = 9060221;
pub const f_0_2200: i32 = 9070221;
pub const eta_2225: i32 = 9080221;
pub const omega_782: i32 = 223;
pub const phi_1020: i32 = 333;
pub const h_1_1170: i32 = 10223;
pub const f_1_1285: i32 = 20223;
pub const h_1_1380: i32 = 10333;
pub const f_1_1420: i32 = 20333;
pub const omega_1420: i32 = 100223;
pub const f_1_1510: i32 = 9000223;
pub const h_1_1595: i32 = 9010223;
pub const omega_1650: i32 = 30223;
pub const phi_1680: i32 = 100333;
pub const f_2_1270: i32 = 225;
pub const f_2_1430: i32 = 9000225;
pub const f_2_prime_1525: i32 = 335;
pub const f_2_1565: i32 = 9010225;
pub const f_2_1640: i32 = 9020225;
pub const eta_2_1645: i32 = 10225;
pub const f_2_1810: i32 = 9030225;
pub const eta_2_1870: i32 = 10335;
pub const f_2_1910: i32 = 9040225;
pub const f_2_1950: i32 = 9050225;
pub const f_2_2010: i32 = 9060225;
pub const f_2_2150: i32 = 9070225;
pub const f_2_2300: i32 = 9080225;
pub const f_2_2340: i32 = 9090225;
pub const omega_3_1670: i32 = 227;
pub const phi_3_1850: i32 = 337;
pub const f_4_2050: i32 = 229;
pub const f_J_2220: i32 = 9000229;
pub const f_4_2300: i32 = 9010229;

/// The light isoscalar meson identifiers, in catalog order.
pub open spec fn member_ids() -> Seq<int> {
    seq![eta as int, eta_prime_958 as int, f_0_500 as int, f_0_980 as int, eta_1295 as int, f_0_1370 as int, eta_1405 as int, eta_1475 as int, f_0_1500 as int, f_0_1710 as int, eta_1760 as int, f_0_2020 as int, f_0_2100 as int, f_0_2200 as int, eta_2225 as int, omega_782 as int, phi_1020 as int, h_1_1170 as int, f_1_1285 as int, h_1_1380 as int, f_1_1420 as int, omega_1420 as int, f_1_1510 as int, h_1_1595 as int, omega_1650 as int, phi_1680 as int, f_2_1270 as int, f_2_1430 as int, f_2_prime_1525 as int, f_2_1565 as int, f_2_1640 as int, eta_2_1645 as int, f_2_1810 as int, eta_2_1870 as int, f_2_1910 as int, f_2_1950 as int, f_2_2010 as int, f_2_2150 as int, f_2_2300 as int, f_2_2340 as int, omega_3_1670 as int, phi_3_1850 as int, f_4_2050 as int, f_J_2220 as int, f_4_2300 as int]
}

/// The light isoscalar meson members, in catalog order.
pub fn members() -> (v: Vec<ParticleID>)
    ensures
        ids_of(v@) == member_ids(),
{
    let mut v: Vec<ParticleID> = Vec::new();
    v.push(ParticleID::new(eta));
    v.push(ParticleID::new(eta_prime_958));
    v.push(ParticleID::new(f_0_500));
    v.push(ParticleID::new(f_0_980));
    v.push(ParticleID::new(eta_1295));
    v.push(ParticleID::new(f_0_1370));
    v.push(ParticleID::new(eta_1405));
    v.push(ParticleID::new(eta_1475));
    v.push(ParticleID::new(f_0_1500));
    v.push(ParticleID::new(f_0_1710));
    v.push(ParticleID::new(eta_1760));
    v.push(ParticleID::new(f_0_2020));
    v.push(ParticleID::new(f_0_2100));
    v.push(ParticleID::new(f_0_2200));
    v.push(ParticleID::new(eta_2225));
    v.push(ParticleID::new(omega_782));
    v.push(ParticleID::new(phi_1020));
    v.push(ParticleID::new(h_1_1170));
    v.push(ParticleID::new(f_1_1285));
    v.push(ParticleID::new(h_1_1380));
    v.push(ParticleID::new(f_1_1420));
    v.push(ParticleID::new(omega_1420));
    v.push(ParticleID::new(f_1_1510));
    v.push(ParticleID::new(h_1_1595));
    v.push(ParticleID::new(omega_1650));
    v.push(ParticleID::new(phi_1680));
    v.push(ParticleID::new(f_2_1270));
    v.push(ParticleID::new(f_2_1430));
    v.push(ParticleID::new(f_2_prime_1525));
    v.push(ParticleID::new(f_2_1565));
    v.push(ParticleID::new(f_2_1640));
    v.push(ParticleID::new(eta_2_1645));
    v.push(ParticleID::new(f_2_1810));
    v.push(ParticleID::new(eta_2_1870));
    v.push(ParticleID::new(f_2_1910));
    v.push(ParticleID::new(f_2_1950));
    v.push(ParticleID::new(f_2_2010));
    v.push(ParticleID::new(f_2_2150));
    v.push(ParticleID::new(f_2_2300));
    v.push(ParticleID::new(f_2_2340));
    v.push(ParticleID::new(omega_3_1670));
    v.push(ParticleID::new(phi_3_1850));
    v.push(ParticleID::new(f_4_2050));
    v.push(ParticleID::new(f_J_2220));
    v.push(ParticleID::new(f_4_2300));
    proof {
        assert(ids_of(v@) =~= member_ids());
    }
    v
}

} // verus!
