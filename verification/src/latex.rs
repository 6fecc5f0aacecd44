//! LaTeX symbols of the catalogued identifiers.

use vstd::prelude::*;
use crate::particle::str_opt_view;

verus! {

/// Table section: elementary.
pub open spec fn latex_elementary_spec(id: int) -> Option<Seq<char>> {
    if id == 1 {
        Some("d"@)
    } else if id == 2 {
        Some("u"@)
    } else if id == 3 {
        Some("s"@)
    } else if id == 4 {
        Some("c"@)
    } else if id == 5 {
        Some("b"@)
    } else if id == 6 {
        Some("t"@)
    } else if id == 7 {
        Some("b'"@)
    } else if id == 9 {
        Some("t'"@)
    } else if id == 11 {
        Some("e^-"@)
    } else if id == 12 {
        Some("\\nu_e"@)
    } else if id == 13 {
        Some("\\mu^-"@)
    } else if id == 14 {
        Some("\\nu_\\mu"@)
    } else if id == 15 {
        Some("\\tau^-"@)
    } else if id == 16 {
        Some("\\nu_\\tau"@)
    } else if id == 17 {
        Some("\\tau'^-"@)
    } else if id == 18 {
        Some("\\nu_{\\tau'}"@)
    } else if id == 21 {
        Some("g"@)
    } else if id == 22 {
        Some("\\gamma"@)
    } else if id == 23 {
        Some("Z"@)
    } else if id == 24 {
        Some("W^+"@)
    } else if id == 25 {
        Some("h"@)
    } else if id == 32 {
        Some("Z'"@)
    } else if id == 33 {
        Some("Z''"@)
    } else if id == 34 {
        Some("W'"@)
    } else if id == 35 {
        Some("H^0"@)
    } else if id == 36 {
        Some("A^0"@)
    } else if id == 37 {
        Some("H^+"@)
    } else if id == 38 {
        Some("H^{++}"@)
    } else if id == 40 {
        Some("a_0"@)
    } else if id == 2212 {
        Some("p"@)
    } else if id == 2112 {
        Some("n"@)
    } else if id == -1 {
        Some("\\bar{d}"@)
    } else if id == -2 {
        Some("\\bar{u}"@)
    } else if id == -3 {
        Some("\\bar{s}"@)
    } else if id == -4 {
        Some("\\bar{c}"@)
    } else if id == -5 {
        Some("\\bar{b}"@)
    } else if id == -6 {
        Some("\\bar{t}"@)
    } else if id == -7 {
        Some("\\bar{b}'"@)
    } else if id == -9 {
        Some("\\bar{t}'"@)
    } else if id == -11 {
        Some("e^+"@)
    } else if id == -12 {
        Some("\\bar{\\nu}_e"@)
    } else if id == -13 {
        Some("\\mu^+"@)
    } else if id == -14 {
        Some("\\bar{\\nu}_\\mu"@)
    } else if id == -15 {
        Some("\\tau^+"@)
    } else if id == -16 {
        Some("\\bar{\\nu}_\\tau"@)
    } else if id == -17 {
        Some("\\tau'^+"@)
    } else if id == -18 {
        Some("\\bar{\\nu}_{\\tau'}"@)
    } else if id == -24 {
        Some("W^-"@)
    } else if id == -34 {
        Some("W^{--}"@)
    } else if id == -37 {
        Some("H^-"@)
    } else if id == -38 {
        Some("H^{--}"@)
    } else if id == -2212 {
        Some("\\bar{p}"@)
    } else if id == -2112 {
        Some("\\bar{p}"@)
    } else {
        None
    }
}

fn latex_elementary(id: i32) -> (r: Option<&'static str>)
    ensures
        str_opt_view(r) == latex_elementary_spec(id as int),
{
    if id == 1 {
        Some("d")
    } else if id == 2 {
        Some("u")
    } else if id == 3 {
        Some("s")
    } else if id == 4 {
        Some("c")
    } else if id == 5 {
        Some("b")
    } else if id == 6 {
        Some("t")
    } else if id == 7 {
        Some("b'")
    } else if id == 9 {
        Some("t'")
    } else if id == 11 {
        Some("e^-")
    } else if id == 12 {
        Some("\\nu_e")
    } else if id == 13 {
        Some("\\mu^-")
    } else if id == 14 {
        Some("\\nu_\\mu")
    } else if id == 15 {
        Some("\\tau^-")
    } else if id == 16 {
        Some("\\nu_\\tau")
    } else if id == 17 {
        Some("\\tau'^-")
    } else if id == 18 {
        Some("\\nu_{\\tau'}")
    } else if id == 21 {
        Some("g")
    } else if id == 22 {
        Some("\\gamma")
    } else if id == 23 {
        Some("Z")
    } else if id == 24 {
        Some("W^+")
    } else if id == 25 {
        Some("h")
    } else if id == 32 {
        Some("Z'")
    } else if id == 33 {
        Some("Z''")
    } else if id == 34 {
        Some("W'")
    } else if id == 35 {
        Some("H^0")
    } else if id == 36 {
        Some("A^0")
    } else if id == 37 {
        Some("H^+")
    } else if id == 38 {
        Some("H^{++}")
    } else if id == 40 {
        Some("a_0")
    } else if id == 2212 {
        Some("p")
    } else if id == 2112 {
        Some("n")
    } else if id == -1 {
        Some("\\bar{d}")
    } else if id == -2 {
        Some("\\bar{u}")
    } else if id == -3 {
        Some("\\bar{s}")
    } else if id == -4 {
        Some("\\bar{c}")
    } else if id == -5 {
        Some("\\bar{b}")
    } else if id == -6 {
        Some("\\bar{t}")
    } else if id == -7 {
        Some("\\bar{b}'")
    } else if id == -9 {
        Some("\\bar{t}'")
    } else if id == -11 {
        Some("e^+")
    } else if id == -12 {
        Some("\\bar{\\nu}_e")
    } else if id == -13 {
        Some("\\mu^+")
    } else if id == -14 {
        Some("\\bar{\\nu}_\\mu")
    } else if id == -15 {
        Some("\\tau^+")
    } else if id == -16 {
        Some("\\bar{\\nu}_\\tau")
    } else if id == -17 {
        Some("\\tau'^+")
    } else if id == -18 {
        Some("\\bar{\\nu}_{\\tau'}")
    } else if id == -24 {
        Some("W^-")
    } else if id == -34 {
        Some("W^{--}")
    } else if id == -37 {
        Some("H^-")
    } else if id == -38 {
        Some("H^{--}")
    } else if id == -2212 {
        Some("\\bar{p}")
    } else if id == -2112 {
        Some("\\bar{p}")
    } else {
        None
    }
}

/// Table section: light isovector mesons.
pub open spec fn latex_light_isovector_mesons_spec(id: int) -> Option<Seq<char>> {
    if id == 111 {
        Some("\\pi^0"@)
    } else if id == 211 {
        Some("\\pi^+"@)
    } else if id == 9000111 {
        Some("a_0(980)^0"@)
    } else if id == 9000211 {
        Some("a_0(980)^+"@)
    } else if id == 100111 {
        Some("\\pi(1300)^0"@)
    } else if id == 100211 {
        Some("\\pi(1300)^+"@)
    } else if id == 10111 {
        Some("a_0(1450)^0"@)
    } else if id == 10211 {
        Some("a_0(1450)^+"@)
    } else if id == 9010111 {
        Some("\\pi(1800)^0"@)
    } else if id == 9010211 {
        Some("\\pi(1800)^+"@)
    } else if id == 113 {
        Some("\\rho(770)^0"@)
    } else if id == 213 {
        Some("\\rho(770)^+"@)
    } else if id == 10113 {
        Some("b_1(1235)^0"@)
    } else if id == 10213 {
        Some("b_1(1235)^+"@)
    } else if id == 20113 {
        Some("a_1(1260)^0"@)
    } else if id == 20213 {
        Some("a_1(1260)^+"@)
    } else if id == 9000113 {
        Some("\\pi_1(1400)^0"@)
    } else if id == 9000213 {
        Some("\\pi_1(1400)^+"@)
    } else if id == 100113 {
        Some("\\rho(1450)^0"@)
    } else if id == 100213 {
        Some("\\rho(1450)^+"@)
    } else if id == 9010113 {
        Some("\\pi_1(1600)^0"@)
    } else if id == 9010213 {
        Some("\\pi_1(1600)^+"@)
    } else if id == 9020113 {
        Some("a_1(1640)^0"@)
    } else if id == 9020213 {
        Some("a_1(1640)^+"@)
    } else if id == 30113 {
        Some("\\rho(1700)^0"@)
    } else if id == 30213 {
        Some("\\rho(1700)^+"@)
    } else if id == 9030113 {
        Some("\\rho(1900)^0"@)
    } else if id == 9030213 {
        Some("\\rho(1900)^+"@)
    } else if id == 9040113 {
        Some("\\rho(2150)^0"@)
    } else if id == 9040213 {
        Some("\\rho(2150)^+"@)
    } else if id == 115 {
        Some("a_2(1320)^0"@)
    } else if id == 215 {
        Some("a_2(1320)^+"@)
    } else if id == 10115 {
        Some("\\pi_2(1670)^0"@)
    } else if id == 10215 {
        Some("\\pi_2(1670)^+"@)
    } else if id == 9000115 {
        Some("a_2(1700)^0"@)
    } else if id == 9000215 {
        Some("a_2(1700)^+"@)
    } else if id == 9010115 {
        Some("\\pi_2(2100)^0"@)
    } else if id == 9010215 {
        Some("\\pi_2(2100)^+"@)
    } else if id == 117 {
        Some("\\rho_3(1690)^0"@)
    } else if id == 217 {
        Some("\\rho_3(1690)^+"@)
    } else if id == 9000117 {
        Some("\\rho_3(1990)^0"@)
    } else if id == 9000217 {
        Some("\\rho_3(1990)^+"@)
    } else if id == 9010117 {
        Some("\\rho_3(2250)^0"@)
    } else if id == 9010217 {
        Some("\\rho_3(2250)^+"@)
    } else if id == 119 {
        Some("a_4(2040)^0"@)
    } else if id == 219 {
        Some("a_4(2040)^+"@)
    } else {
        None
    }
}

fn latex_light_isovector_mesons(id: i32) -> (r: Option<&'static str>)
    ensures
        str_opt_view(r) == latex_light_isovector_mesons_spec(id as int),
{
    if id == 111 {
        Some("\\pi^0")
    } else if id == 211 {
        Some("\\pi^+")
    } else if id == 9000111 {
        Some("a_0(980)^0")
    } else if id == 9000211 {
        Some("a_0(980)^+")
    } else if id == 100111 {
        Some("\\pi(1300)^0")
    } else if id == 100211 {
        Some("\\pi(1300)^+")
    } else if id == 10111 {
        Some("a_0(1450)^0")
    } else if id == 10211 {
        Some("a_0(1450)^+")
    } else if id == 9010111 {
        Some("\\pi(1800)^0")
    } else if id == 9010211 {
        Some("\\pi(1800)^+")
    } else if id == 113 {
        Some("\\rho(770)^0")
    } else if id == 213 {
        Some("\\rho(770)^+")
    } else if id == 10113 {
        Some("b_1(1235)^0")
    } else if id == 10213 {
        Some("b_1(1235)^+")
    } else if id == 20113 {
        Some("a_1(1260)^0")
    } else if id == 20213 {
        Some("a_1(1260)^+")
    } else if id == 9000113 {
        Some("\\pi_1(1400)^0")
    } else if id == 9000213 {
        Some("\\pi_1(1400)^+")
    } else if id == 100113 {
        Some("\\rho(1450)^0")
    } else if id == 100213 {
        Some("\\rho(1450)^+")
    } else if id == 9010113 {
        Some("\\pi_1(1600)^0")
    } else if id == 9010213 {
        Some("\\pi_1(1600)^+")
    } else if id == 9020113 {
        Some("a_1(1640)^0")
    } else if id == 9020213 {
        Some("a_1(1640)^+")
    } else if id == 30113 {
        Some("\\rho(1700)^0")
    } else if id == 30213 {
        Some("\\rho(1700)^+")
    } else if id == 9030113 {
        Some("\\rho(1900)^0")
    } else if id == 9030213 {
        Some("\\rho(1900)^+")
    } else if id == 9040113 {
        Some("\\rho(2150)^0")
    } else if id == 9040213 {
        Some("\\rho(2150)^+")
    } else if id == 115 {
        Some("a_2(1320)^0")
    } else if id == 215 {
        Some("a_2(1320)^+")
    } else if id == 10115 {
        Some("\\pi_2(1670)^0")
    } else if id == 10215 {
        Some("\\pi_2(1670)^+")
    } else if id == 9000115 {
        Some("a_2(1700)^0")
    } else if id == 9000215 {
        Some("a_2(1700)^+")
    } else if id == 9010115 {
        Some("\\pi_2(2100)^0")
    } else if id == 9010215 {
        Some("\\pi_2(2100)^+")
    } else if id == 117 {
        Some("\\rho_3(1690)^0")
    } else if id == 217 {
        Some("\\rho_3(1690)^+")
    } else if id == 9000117 {
        Some("\\rho_3(1990)^0")
    } else if id == 9000217 {
        Some("\\rho_3(1990)^+")
    } else if id == 9010117 {
        Some("\\rho_3(2250)^0")
    } else if id == 9010217 {
        Some("\\rho_3(2250)^+")
    } else if id == 119 {
        Some("a_4(2040)^0")
    } else if id == 219 {
        Some("a_4(2040)^+")
    } else {
        None
    }
}

/// Table section: light isoscalar mesons.
pub open spec fn latex_light_isoscalar_mesons_spec(id: int) -> Option<Seq<char>> {
    if id == 221 {
        Some("\\eta"@)
    } else if id == 331 {
        Some("\\eta'(958)"@)
    } else if id == 9000221 {
        Some("f_0(500)"@)
    } else if id == 9010221 {
        Some("f_0(980)"@)
    } else if id == 100221 {
        Some("\\eta(1295)"@)
    } else if id == 10221 {
        Some("f_0(1370)"@)
    } else if id == 9020221 {
        Some("\\eta(1405)"@)
    } else if id == 100331 {
        Some("\\eta(1475)"@)
    } else if id == 9030221 {
        Some("f_0(1500)"@)
    } else if id == 10331 {
        Some("f_0(1710)"@)
    } else if id == 9040221 {
        Some("\\eta(1760)"@)
    } else if id == 9050221 {
        Some("f_0(2020)"@)
    } else if id == 9060221 {
        Some("f_0(2100)"@)
    } else if id == 9070221 {
        Some("f_0(2200)"@)
    } else if id == 9080221 {
        Some("\\eta(2225)"@)
    } else if id == 223 {
        Some("\\omega(782)"@)
    } else if id == 333 {
        Some("\\phi(1020)"@)
    } else if id == 10223 {
        Some("h_1(1170)"@)
    } else if id == 20223 {
        Some("f_1(1285)"@)
    } else if id == 10333 {
        Some("h_1(1380)"@)
    } else if id == 20333 {
        Some("f_1(1420)"@)
    } else if id == 100223 {
        Some("\\omega(1420)"@)
    } else if id == 9000223 {
        Some("f_1(1510)"@)
    } else if id == 9010223 {
        Some("h_1(1595)"@)
    } else if id == 30223 {
        Some("\\omega(1650)"@)
    } else if id == 100333 {
        Some("\\phi(1680)"@)
    } else if id == 225 {
        Some("f_2(1270)"@)
    } else if id == 9000225 {
        Some("f_2(1430)"@)
    } else if id == 335 {
        Some("f_2'(1525)"@)
    } else if id == 9010225 {
        Some("f_2(1565)"@)
    } else if id == 9020225 {
        Some("f_2(1640)"@)
    } else if id == 10225 {
        Some("\\eta_2(1645)"@)
    } else if id == 9030225 {
        Some("f_2(1810)"@)
    } else if id == 10335 {
        Some("\\eta_2(1870)"@)
    } else if id == 9040225 {
        Some("f_2(1910)"@)
    } else if id == 9050225 {
        Some("f_2(1950)"@)
    } else if id == 9060225 {
        Some("f_2(2010)"@)
    } else if id == 9070225 {
        Some("f_2(2150)"@)
    } else if id == 9080225 {
        Some("f_2(2300)"@)
    } else if id == 9090225 {
        Some("f_2(2340)"@)
    } else if id == 227 {
        Some("\\omega_3(1670)"@)
    } else if id == 337 {
        Some("\\phi_3(1850)"@)
    } else if id == 229 {
        Some("f_4(2050)"@)
    } else if id == 9000229 {
        Some("f_J(2220)"@)
    } else if id == 9010229 {
        Some("f_4(2300)"@)
    } else {
        None
    }
}

fn latex_light_isoscalar_mesons(id: i32) -> (r: Option<&'static str>)
    ensures
        str_opt_view(r) == latex_light_isoscalar_mesons_spec(id as int),
{
    if id == 221 {
        Some("\\eta")
    } else if id == 331 {
        Some("\\eta'(958)")
    } else if id == 9000221 {
        Some("f_0(500)")
    } else if id == 9010221 {
        Some("f_0(980)")
    } else if id == 100221 {
        Some("\\eta(1295)")
    } else if id == 10221 {
        Some("f_0(1370)")
    } else if id == 9020221 {
        Some("\\eta(1405)")
    } else if id == 100331 {
        Some("\\eta(1475)")
    } else if id == 9030221 {
        Some("f_0(1500)")
    } else if id == 10331 {
        Some("f_0(1710)")
    } else if id == 9040221 {
        Some("\\eta(1760)")
    } else if id == 9050221 {
        Some("f_0(2020)")
    } else if id == 9060221 {
        Some("f_0(2100)")
    } else if id == 9070221 {
        Some("f_0(2200)")
    } else if id == 9080221 {
        Some("\\eta(2225)")
    } else if id == 223 {
        Some("\\omega(782)")
    } else if id == 333 {
        Some("\\phi(1020)")
    } else if id == 10223 {
        Some("h_1(1170)")
    } else if id == 20223 {
        Some("f_1(1285)")
    } else if id == 10333 {
        Some("h_1(1380)")
    } else if id == 20333 {
        Some("f_1(1420)")
    } else if id == 100223 {
        Some("\\omega(1420)")
    } else if id == 9000223 {
        Some("f_1(1510)")
    } else if id == 9010223 {
        Some("h_1(1595)")
    } else if id == 30223 {
        Some("\\omega(1650)")
    } else if id == 100333 {
        Some("\\phi(1680)")
    } else if id == 225 {
        Some("f_2(1270)")
    } else if id == 9000225 {
        Some("f_2(1430)")
    } else if id == 335 {
        Some("f_2'(1525)")
    } else if id == 9010225 {
        Some("f_2(1565)")
    } else if id == 9020225 {
        Some("f_2(1640)")
    } else if id == 10225 {
        Some("\\eta_2(1645)")
    } else if id == 9030225 {
        Some("f_2(1810)")
    } else if id == 10335 {
        Some("\\eta_2(1870)")
    } else if id == 9040225 {
        Some("f_2(1910)")
    } else if id == 9050225 {
        Some("f_2(1950)")
    } else if id == 9060225 {
        Some("f_2(2010)")
    } else if id == 9070225 {
        Some("f_2(2150)")
    } else if id == 9080225 {
        Some("f_2(2300)")
    } else if id == 9090225 {
        Some("f_2(2340)")
    } else if id == 227 {
        Some("\\omega_3(1670)")
    } else if id == 337 {
        Some("\\phi_3(1850)")
    } else if id == 229 {
        Some("f_4(2050)")
    } else if id == 9000229 {
        Some("f_J(2220)")
    } else if id == 9010229 {
        Some("f_4(2300)")
    } else {
        None
    }
}

/// Table section: strange mesons.
pub open spec fn latex_strange_mesons_spec(id: int) -> Option<Seq<char>> {
    if id == 130 {
        Some("K^0_L"@)
    } else if id == 310 {
        Some("K^0_S"@)
    } else if id == 311 {
        Some("K^0"@)
    } else if id == 321 {
        Some("K^+"@)
    } else if id == 9000311 {
        Some("K_0^*(700)^0"@)
    } else if id == 9000321 {
        Some("K_0^*(700)^+"@)
    } else if id == 10311 {
        Some("K_0^*(1430)^0"@)
    } else if id == 10321 {
        Some("K_0^*(1430)^+"@)
    } else if id == 100311 {
        Some("K(1460)^0"@)
    } else if id == 100321 {
        Some("K(1460)^+"@)
    } else if id == 9010311 {
        Some("K(1830)^0"@)
    } else if id == 9010321 {
        Some("K(1830)^+"@)
    } else if id == 9020311 {
        Some("K_0^*(1950)^0"@)
    } else if id == 9020321 {
        Some("K_0^*(1950)^+"@)
    } else if id == 313 {
        Some("K^*(892)^0"@)
    } else if id == 323 {
        Some("K^*(892)^+"@)
    } else if id == 10313 {
        Some("K_1(1270)^0"@)
    } else if id == 10323 {
        Some("K_1(1270)^+"@)
    } else if id == 20313 {
        Some("K_1(1400)^0"@)
    } else if id == 20323 {
        Some("K_1(1400)^+"@)
    } else if id == 100313 {
        Some("K^*(1410)^0"@)
    } else if id == 100323 {
        Some("K^*(1410)^+"@)
    } else if id == 9000313 {
        Some("K_1(1650)^0"@)
    } else if id == 9000323 {
        Some("K_1(1650)^+"@)
    } else if id == 30313 {
        Some("K^*(1680)^0"@)
    } else if id == 30323 {
        Some("K^*(1680)^+"@)
    } else if id == 315 {
        Some("K_2^*(1430)^0"@)
    } else if id == 325 {
        Some("K_2^*(1430)^+"@)
    } else if id == 9000315 {
        Some("K_2(1580)^0"@)
    } else if id == 9000325 {
        Some("K_2(1580)^+"@)
    } else if id == 10315 {
        Some("K_2(1770)^0"@)
    } else if id == 10325 {
        Some("K_2(1770)^+"@)
    } else if id == 20315 {
        Some("K_2(1820)^0"@)
    } else if id == 20325 {
        Some("K_2(1820)^+"@)
    } else if id == 9010315 {
        Some("K_2^*(1980)^0"@)
    } else if id == 9010325 {
        Some("K_2^*(1980)^+"@)
    } else if id == 9020315 {
        Some("K_2(2250)^0"@)
    } else if id == 9020325 {
        Some("K_2(2250)^+"@)
    } else if id == 317 {
        Some("K_3^*(1780)^0"@)
    } else if id == 327 {
        Some("K_3^*(1780)^+"@)
    } else if id == 9010317 {
        Some("K_3(2320)^0"@)
    } else if id == 9010327 {
        Some("K_3(2320)^+"@)
    } else if id == 319 {
        Some("K_4^*(2045)^0"@)
    } else if id == 329 {
        Some("K_4^*(2045)^+"@)
    } else if id == 9000319 {
        Some("K_4(2500)^0"@)
    } else if id == 9000329 {
        Some("K_4(2500)^+"@)
    } else {
        None
    }
}

fn latex_strange_mesons(id: i32) -> (r: Option<&'static str>)
    ensures
        str_opt_view(r) == latex_strange_mesons_spec(id as int),
{
    if id == 130 {
        Some("K^0_L")
    } else if id == 310 {
        Some("K^0_S")
    } else if id == 311 {
        Some("K^0")
    } else if id == 321 {
        Some("K^+")
    } else if id == 9000311 {
        Some("K_0^*(700)^0")
    } else if id == 9000321 {
        Some("K_0^*(700)^+")
    } else if id == 10311 {
        Some("K_0^*(1430)^0")
    } else if id == 10321 {
        Some("K_0^*(1430)^+")
    } else if id == 100311 {
        Some("K(1460)^0")
    } else if id == 100321 {
        Some("K(1460)^+")
    } else if id == 9010311 {
        Some("K(1830)^0")
    } else if id == 9010321 {
        Some("K(1830)^+")
    } else if id == 9020311 {
        Some("K_0^*(1950)^0")
    } else if id == 9020321 {
        Some("K_0^*(1950)^+")
    } else if id == 313 {
        Some("K^*(892)^0")
    } else if id == 323 {
        Some("K^*(892)^+")
    } else if id == 10313 {
        Some("K_1(1270)^0")
    } else if id == 10323 {
        Some("K_1(1270)^+")
    } else if id == 20313 {
        Some("K_1(1400)^0")
    } else if id == 20323 {
        Some("K_1(1400)^+")
    } else if id == 100313 {
        Some("K^*(1410)^0")
    } else if id == 100323 {
        Some("K^*(1410)^+")
    } else if id == 9000313 {
        Some("K_1(1650)^0")
    } else if id == 9000323 {
        Some("K_1(1650)^+")
    } else if id == 30313 {
        Some("K^*(1680)^0")
    } else if id == 30323 {
        Some("K^*(1680)^+")
    } else if id == 315 {
        Some("K_2^*(1430)^0")
    } else if id == 325 {
        Some("K_2^*(1430)^+")
    } else if id == 9000315 {
        Some("K_2(1580)^0")
    } else if id == 9000325 {
        Some("K_2(1580)^+")
    } else if id == 10315 {
        Some("K_2(1770)^0")
    } else if id == 10325 {
        Some("K_2(1770)^+")
    } else if id == 20315 {
        Some("K_2(1820)^0")
    } else if id == 20325 {
        Some("K_2(1820)^+")
    } else if id == 9010315 {
        Some("K_2^*(1980)^0")
    } else if id == 9010325 {
        Some("K_2^*(1980)^+")
    } else if id == 9020315 {
        Some("K_2(2250)^0")
    } else if id == 9020325 {
        Some("K_2(2250)^+")
    } else if id == 317 {
        Some("K_3^*(1780)^0")
    } else if id == 327 {
        Some("K_3^*(1780)^+")
    } else if id == 9010317 {
        Some("K_3(2320)^0")
    } else if id == 9010327 {
        Some("K_3(2320)^+")
    } else if id == 319 {
        Some("K_4^*(2045)^0")
    } else if id == 329 {
        Some("K_4^*(2045)^+")
    } else if id == 9000319 {
        Some("K_4(2500)^0")
    } else if id == 9000329 {
        Some("K_4(2500)^+")
    } else {
        None
    }
}

/// Table section: charmed mesons.
pub open spec fn latex_charmed_mesons_spec(id: int) -> Option<Seq<char>> {
    if id == 411 {
        Some("D^+"@)
    } else if id == 421 {
        Some("D^0"@)
    } else if id == 10411 {
        Some("D_0^*(2400)^+"@)
    } else if id == 10421 {
        Some("D_0^*(2400)^0"@)
    } else if id == 413 {
        Some("D^*(2010)^+"@)
    } else if id == 423 {
        Some("D^*(2010)^0"@)
    } else if id == 10413 {
        Some("D_1(2420)^+"@)
    } else if id == 10423 {
        Some("D_1(2420)^0"@)
    } else if id == 20413 {
        Some("D_1(H)^+"@)
    } else if id == 20423 {
        Some("D_1(2430)^0"@)
    } else if id == 415 {
        Some("D_2(2460)^+"@)
    } else if id == 425 {
        Some("D_2(2460)^0"@)
    } else if id == 431 {
        Some("D_s^+"@)
    } else if id == 10431 {
        Some("D_{s0}^*(2317)^+"@)
    } else if id == 433 {
        Some("D_s^{*+}"@)
    } else if id == 10433 {
        Some("D_{s1}(2536)^+"@)
    } else if id == 20433 {
        Some("D_{s1}(2460)^+"@)
    } else if id == 435 {
        Some("D_{s2}^*(2573)^+"@)
    } else {
        None
    }
}

fn latex_charmed_mesons(id: i32) -> (r: Option<&'static str>)
    ensures
        str_opt_view(r) == latex_charmed_mesons_spec(id as int),
{
    if id == 411 {
        Some("D^+")
    } else if id == 421 {
        Some("D^0")
    } else if id == 10411 {
        Some("D_0^*(2400)^+")
    } else if id == 10421 {
        Some("D_0^*(2400)^0")
    } else if id == 413 {
        Some("D^*(2010)^+")
    } else if id == 423 {
        Some("D^*(2010)^0")
    } else if id == 10413 {
        Some("D_1(2420)^+")
    } else if id == 10423 {
        Some("D_1(2420)^0")
    } else if id == 20413 {
        Some("D_1(H)^+")
    } else if id == 20423 {
        Some("D_1(2430)^0")
    } else if id == 415 {
        Some("D_2(2460)^+")
    } else if id == 425 {
        Some("D_2(2460)^0")
    } else if id == 431 {
        Some("D_s^+")
    } else if id == 10431 {
        Some("D_{s0}^*(2317)^+")
    } else if id == 433 {
        Some("D_s^{*+}")
    } else if id == 10433 {
        Some("D_{s1}(2536)^+")
    } else if id == 20433 {
        Some("D_{s1}(2460)^+")
    } else if id == 435 {
        Some("D_{s2}^*(2573)^+")
    } else {
        None
    }
}

/// Table section: bottom mesons.
pub open spec fn latex_bottom_mesons_spec(id: int) -> Option<Seq<char>> {
    if id == 511 {
        Some("B^0"@)
    } else if id == 521 {
        Some("B^+"@)
    } else if id == 10511 {
        Some("B_0^{*0}"@)
    } else if id == 10521 {
        Some("B_0^{*+}"@)
    } else if id == 513 {
        Some("B^{*0}"@)
    } else if id == 523 {
        Some("B^{*+}"@)
    } else if id == 10513 {
        Some("B_1(L)^0"@)
    } else if id == 10523 {
        Some("B_1(L)^+"@)
    } else if id == 20513 {
        Some("B_1(H)^0"@)
    } else if id == 20523 {
        Some("B_1(L)^+"@)
    } else if id == 515 {
        Some("B_2^{*0}"@)
    } else if id == 525 {
        Some("B_2^{*+}"@)
    } else if id == 531 {
        Some("B_s^0"@)
    } else if id == 10531 {
        Some("B_{s0}^{*0}"@)
    } else if id == 533 {
        Some("B_s^{*0}"@)
    } else if id == 10533 {
        Some("B_{s1}(L)^0"@)
    } else if id == 20533 {
        Some("B_{s1}(H)^0"@)
    } else if id == 535 {
        Some("B_{s2}^{*0}"@)
    } else if id == 541 {
        Some("B_c^+"@)
    } else if id == 10541 {
        Some("B_{c0}^{*+}"@)
    } else if id == 543 {
        Some("B_c^{*+}"@)
    } else if id == 10543 {
        Some("B_{c1}(L)^+"@)
    } else if id == 20543 {
        Some("B_{c1}(H)^+"@)
    } else if id == 545 {
        Some("B_{c2}^{*+}"@)
    } else {
        None
    }
}

fn latex_bottom_mesons(id: i32) -> (r: Option<&'static str>)
    ensures
        str_opt_view(r) == latex_bottom_mesons_spec(id as int),
{
    if id == 511 {
        Some("B^0")
    } else if id == 521 {
        Some("B^+")
    } else if id == 10511 {
        Some("B_0^{*0}")
    } else if id == 10521 {
        Some("B_0^{*+}")
    } else if id == 513 {
        Some("B^{*0}")
    } else if id == 523 {
        Some("B^{*+}")
    } else if id == 10513 {
        Some("B_1(L)^0")
    } else if id == 10523 {
        Some("B_1(L)^+")
    } else if id == 20513 {
        Some("B_1(H)^0")
    } else if id == 20523 {
        Some("B_1(L)^+")
    } else if id == 515 {
        Some("B_2^{*0}")
    } else if id == 525 {
        Some("B_2^{*+}")
    } else if id == 531 {
        Some("B_s^0")
    } else if id == 10531 {
        Some("B_{s0}^{*0}")
    } else if id == 533 {
        Some("B_s^{*0}")
    } else if id == 10533 {
        Some("B_{s1}(L)^0")
    } else if id == 20533 {
        Some("B_{s1}(H)^0")
    } else if id == 535 {
        Some("B_{s2}^{*0}")
    } else if id == 541 {
        Some("B_c^+")
    } else if id == 10541 {
        Some("B_{c0}^{*+}")
    } else if id == 543 {
        Some("B_c^{*+}")
    } else if id == 10543 {
        Some("B_{c1}(L)^+")
    } else if id == 20543 {
        Some("B_{c1}(H)^+")
    } else if id == 545 {
        Some("B_{c2}^{*+}")
    } else {
        None
    }
}

/// Table section: ccbar mesons.
pub open spec fn latex_ccbar_mesons_spec(id: int) -> Option<Seq<char>> {
    if id == 441 {
        Some("\\eta_c(1S)"@)
    } else if id == 10441 {
        Some("\\chi_{c0}(1P)"@)
    } else if id == 100441 {
        Some("\\eta_c(2S)"@)
    } else if id == 443 {
        Some("J/\\psi(1S)"@)
    } else if id == 10443 {
        Some("h_c(1P)"@)
    } else if id == 20443 {
        Some("\\chi_{c1}(1P)"@)
    } else if id == 100443 {
        Some("\\psi(2S)"@)
    } else if id == 30443 {
        Some("\\psi(3770)"@)
    } else if id == 9000443 {
        Some("\\psi(4040)"@)
    } else if id == 9010443 {
        Some("\\psi(4160)"@)
    } else if id == 9020443 {
        Some("\\psi(4415)"@)
    } else if id == 445 {
        Some("\\chi_{c2}(1P)"@)
    } else if id == 100445 {
        Some("\\chi_{c2}(3930)"@)
    } else {
        None
    }
}

fn latex_ccbar_mesons(id: i32) -> (r: Option<&'static str>)
    ensures
        str_opt_view(r) == latex_ccbar_mesons_spec(id as int),
{
    if id == 441 {
        Some("\\eta_c(1S)")
    } else if id == 10441 {
        Some("\\chi_{c0}(1P)")
    } else if id == 100441 {
        Some("\\eta_c(2S)")
    } else if id == 443 {
        Some("J/\\psi(1S)")
    } else if id == 10443 {
        Some("h_c(1P)")
    } else if id == 20443 {
        Some("\\chi_{c1}(1P)")
    } else if id == 100443 {
        Some("\\psi(2S)")
    } else if id == 30443 {
        Some("\\psi(3770)")
    } else if id == 9000443 {
        Some("\\psi(4040)")
    } else if id == 9010443 {
        Some("\\psi(4160)")
    } else if id == 9020443 {
        Some("\\psi(4415)")
    } else if id == 445 {
        Some("\\chi_{c2}(1P)")
    } else if id == 100445 {
        Some("\\chi_{c2}(3930)")
    } else {
        None
    }
}

/// Table section: bbbar mesons.
pub open spec fn latex_bbbar_mesons_spec(id: int) -> Option<Seq<char>> {
    if id == 551 {
        Some("\\eta_b(1S)"@)
    } else if id == 10551 {
        Some("\\chi_{b0}(1P)"@)
    } else if id == 100551 {
        Some("\\eta_b(2S)"@)
    } else if id == 110551 {
        Some("\\chi_{b0}(2P)"@)
    } else if id == 200551 {
        Some("\\eta_b(3S)"@)
    } else if id == 210551 {
        Some("\\chi_{b0}(3P)"@)
    } else if id == 553 {
        Some("\\Upsilon(1S)"@)
    } else if id == 10553 {
        Some("h_b(1P)"@)
    } else if id == 20553 {
        Some("\\chi_b"@)
    } else if id == 30553 {
        Some("\\Upsilon_1(1D)"@)
    } else if id == 100553 {
        Some("\\Upsilon(2S)"@)
    } else if id == 110553 {
        Some("h_b(2P)"@)
    } else if id == 120553 {
        Some("\\chi_{b1}(2P)"@)
    } else if id == 130553 {
        Some("\\Upsilon_1(2D)"@)
    } else if id == 200553 {
        Some("\\Upsilon(3S)"@)
    } else if id == 210553 {
        Some("h_b(3P)"@)
    } else if id == 220553 {
        Some("\\chi_{b1}(3P)"@)
    } else if id == 300553 {
        Some("\\Upsilon(4S)"@)
    } else if id == 9000553 {
        Some("\\Upsilon(10860)"@)
    } else if id == 9010553 {
        Some("\\Upsilon(11020)"@)
    } else if id == 555 {
        Some("\\chi_{b2}(1P)"@)
    } else if id == 10555 {
        Some("\\eta_{b2}(1P)"@)
    } else if id == 20555 {
        Some("\\Upsilon_2(1D)"@)
    } else if id == 100555 {
        Some("\\chi_{b2}(2P)"@)
    } else if id == 110555 {
        Some("\\eta_{b2}(2D)"@)
    } else if id == 120555 {
        Some("\\Upsilon_2(2D)"@)
    } else if id == 200555 {
        Some("\\chi_{b2}(3P)"@)
    } else if id == 557 {
        Some("\\Upsilon_3(1D)"@)
    } else if id == 100557 {
        Some("\\Upsilon_3(2D)"@)
    } else {
        None
    }
}

fn latex_bbbar_mesons(id: i32) -> (r: Option<&'static str>)
    ensures
        str_opt_view(r) == latex_bbbar_mesons_spec(id as int),
{
    if id == 551 {
        Some("\\eta_b(1S)")
    } else if id == 10551 {
        Some("\\chi_{b0}(1P)")
    } else if id == 100551 {
        Some("\\eta_b(2S)")
    } else if id == 110551 {
        Some("\\chi_{b0}(2P)")
    } else if id == 200551 {
        Some("\\eta_b(3S)")
    } else if id == 210551 {
        Some("\\chi_{b0}(3P)")
    } else if id == 553 {
        Some("\\Upsilon(1S)")
    } else if id == 10553 {
        Some("h_b(1P)")
    } else if id == 20553 {
        Some("\\chi_b")
    } else if id == 30553 {
        Some("\\Upsilon_1(1D)")
    } else if id == 100553 {
        Some("\\Upsilon(2S)")
    } else if id == 110553 {
        Some("h_b(2P)")
    } else if id == 120553 {
        Some("\\chi_{b1}(2P)")
    } else if id == 130553 {
        Some("\\Upsilon_1(2D)")
    } else if id == 200553 {
        Some("\\Upsilon(3S)")
    } else if id == 210553 {
        Some("h_b(3P)")
    } else if id == 220553 {
        Some("\\chi_{b1}(3P)")
    } else if id == 300553 {
        Some("\\Upsilon(4S)")
    } else if id == 9000553 {
        Some("\\Upsilon(10860)")
    } else if id == 9010553 {
        Some("\\Upsilon(11020)")
    } else if id == 555 {
        Some("\\chi_{b2}(1P)")
    } else if id == 10555 {
        Some("\\eta_{b2}(1P)")
    } else if id == 20555 {
        Some("\\Upsilon_2(1D)")
    } else if id == 100555 {
        Some("\\chi_{b2}(2P)")
    } else if id == 110555 {
        Some("\\eta_{b2}(2D)")
    } else if id == 120555 {
        Some("\\Upsilon_2(2D)")
    } else if id == 200555 {
        Some("\\chi_{b2}(3P)")
    } else if id == 557 {
        Some("\\Upsilon_3(1D)")
    } else if id == 100557 {
        Some("\\Upsilon_3(2D)")
    } else {
        None
    }
}

/// Table section: light strange baryons.
pub open spec fn latex_light_strange_baryons_spec(id: int) -> Option<Seq<char>> {
    if id == 2224 {
        Some("\\Delta^{++}"@)
    } else if id == 2214 {
        Some("\\Delta^+"@)
    } else if id == 2114 {
        Some("\\Delta^0"@)
    } else if id == 1114 {
        Some("\\Delta^-"@)
    } else if id == 3122 {
        Some("\\Lambda"@)
    } else if id == 3222 {
        Some("\\Sigma^+"@)
    } else if id == 3212 {
        Some("\\Sigma^0"@)
    } else if id == 3112 {
        Some("\\Sigma^-"@)
    } else if id == 3224 {
        Some("\\Sigma^{*+}"@)
    } else if id == 3214 {
        Some("\\Sigma^{*0}"@)
    } else if id == 3114 {
        Some("\\Sigma^{*-}"@)
    } else if id == 3322 {
        Some("\\Xi^0"@)
    } else if id == 3312 {
        Some("\\Xi^-"@)
    } else if id == 3324 {
        Some("\\Xi^{*0}"@)
    } else if id == 3314 {
        Some("\\Xi^{*-}"@)
    } else if id == 3334 {
        Some("\\Omega^-"@)
    } else {
        None
    }
}

fn latex_light_strange_baryons(id: i32) -> (r: Option<&'static str>)
    ensures
        str_opt_view(r) == latex_light_strange_baryons_spec(id as int),
{
    if id == 2224 {
        Some("\\Delta^{++}")
    } else if id == 2214 {
        Some("\\Delta^+")
    } else if id == 2114 {
        Some("\\Delta^0")
    } else if id == 1114 {
        Some("\\Delta^-")
    } else if id == 3122 {
        Some("\\Lambda")
    } else if id == 3222 {
        Some("\\Sigma^+")
    } else if id == 3212 {
        Some("\\Sigma^0")
    } else if id == 3112 {
        Some("\\Sigma^-")
    } else if id == 3224 {
        Some("\\Sigma^{*+}")
    } else if id == 3214 {
        Some("\\Sigma^{*0}")
    } else if id == 3114 {
        Some("\\Sigma^{*-}")
    } else if id == 3322 {
        Some("\\Xi^0")
    } else if id == 3312 {
        Some("\\Xi^-")
    } else if id == 3324 {
        Some("\\Xi^{*0}")
    } else if id == 3314 {
        Some("\\Xi^{*-}")
    } else if id == 3334 {
        Some("\\Omega^-")
    } else {
        None
    }
}

/// Table section: charmed baryons.
pub open spec fn latex_charmed_baryons_spec(id: int) -> Option<Seq<char>> {
    if id == 4122 {
        Some("\\Lambda_c^+"@)
    } else if id == 4222 {
        Some("\\Sigma_c^{++}"@)
    } else if id == 4212 {
        Some("\\Sigma_c^+"@)
    } else if id == 4112 {
        Some("\\Sigma_c^0"@)
    } else if id == 4224 {
        Some("\\Sigma_c^{*++}"@)
    } else if id == 4214 {
        Some("\\Sigma_c^{*+}"@)
    } else if id == 4114 {
        Some("\\Sigma_c^{*0}"@)
    } else if id == 4232 {
        Some("\\Xi_c^+"@)
    } else if id == 4132 {
        Some("\\Xi_c^0"@)
    } else if id == 4322 {
        Some("\\Xi_c'^+"@)
    } else if id == 4312 {
        Some("\\Xi_c'^0"@)
    } else if id == 4324 {
        Some("\\Xi_c^{*+}"@)
    } else if id == 4314 {
        Some("\\Xi_c^{*0}"@)
    } else if id == 4332 {
        Some("\\Omega_c^0"@)
    } else if id == 4334 {
        Some("\\Omega_c^{*0}"@)
    } else if id == 4412 {
        Some("\\Xi_{cc}^+"@)
    } else if id == 4422 {
        Some("\\Xi_{cc}^{++}"@)
    } else if id == 4414 {
        Some("\\Xi_{cc}^{*+}"@)
    } else if id == 4424 {
        Some("\\Xi_{cc}^{*++}"@)
    } else if id == 4432 {
        Some("\\Omega_{cc}^+"@)
    } else if id == 4434 {
        Some("\\Omega_{cc}^{*+}"@)
    } else if id == 4444 {
        Some("\\Omega_{ccc}^{++}"@)
    } else {
        None
    }
}

fn latex_charmed_baryons(id: i32) -> (r: Option<&'static str>)
    ensures
        str_opt_view(r) == latex_charmed_baryons_spec(id as int),
{
    if id == 4122 {
        Some("\\Lambda_c^+")
    } else if id == 4222 {
        Some("\\Sigma_c^{++}")
    } else if id == 4212 {
        Some("\\Sigma_c^+")
    } else if id == 4112 {
        Some("\\Sigma_c^0")
    } else if id == 4224 {
        Some("\\Sigma_c^{*++}")
    } else if id == 4214 {
        Some("\\Sigma_c^{*+}")
    } else if id == 4114 {
        Some("\\Sigma_c^{*0}")
    } else if id == 4232 {
        Some("\\Xi_c^+")
    } else if id == 4132 {
        Some("\\Xi_c^0")
    } else if id == 4322 {
        Some("\\Xi_c'^+")
    } else if id == 4312 {
        Some("\\Xi_c'^0")
    } else if id == 4324 {
        Some("\\Xi_c^{*+}")
    } else if id == 4314 {
        Some("\\Xi_c^{*0}")
    } else if id == 4332 {
        Some("\\Omega_c^0")
    } else if id == 4334 {
        Some("\\Omega_c^{*0}")
    } else if id == 4412 {
        Some("\\Xi_{cc}^+")
    } else if id == 4422 {
        Some("\\Xi_{cc}^{++}")
    } else if id == 4414 {
        Some("\\Xi_{cc}^{*+}")
    } else if id == 4424 {
        Some("\\Xi_{cc}^{*++}")
    } else if id == 4432 {
        Some("\\Omega_{cc}^+")
    } else if id == 4434 {
        Some("\\Omega_{cc}^{*+}")
    } else if id == 4444 {
        Some("\\Omega_{ccc}^{++}")
    } else {
        None
    }
}

/// Table section: bottom baryons.
pub open spec fn latex_bottom_baryons_spec(id: int) -> Option<Seq<char>> {
    if id == 5122 {
        Some("\\Lambda_b^0"@)
    } else if id == 5112 {
        Some("\\Sigma_b^-"@)
    } else if id == 5212 {
        Some("\\Sigma_b^0"@)
    } else if id == 5222 {
        Some("\\Sigma_b^+"@)
    } else if id == 5114 {
        Some("\\Sigma_b^{*-}"@)
    } else if id == 5214 {
        Some("\\Sigma_b^0"@)
    } else if id == 5224 {
        Some("\\Sigma_b^+"@)
    } else if id == 5132 {
        Some("\\Xi_b^-"@)
    } else if id == 5232 {
        Some("\\Xi_b^0"@)
    } else if id == 5312 {
        Some("\\Xi_b'^-"@)
    } else if id == 5322 {
        Some("\\Xi_b^0"@)
    } else if id == 5314 {
        Some("\\Xi_b^-"@)
    } else if id == 5324 {
        Some("\\Xi_b^0"@)
    } else if id == 5332 {
        Some("\\Omega_b^-"@)
    } else if id == 5334 {
        Some("\\Omega_b^{*-}"@)
    } else if id == 5142 {
        Some("\\Xi_{bc}^0"@)
    } else if id == 5242 {
        Some("\\Xi_{bc}^+"@)
    } else if id == 5412 {
        Some("\\Xi_{bc}'^0"@)
    } else if id == 5422 {
        Some("\\Xi_{bc}'^+"@)
    } else if id == 5414 {
        Some("\\Xi_{bc}^{*0}"@)
    } else if id == 5424 {
        Some("\\Xi_{bc}^{*+}"@)
    } else if id == 5342 {
        Some("\\Omega_{bc}^0"@)
    } else if id == 5432 {
        Some("\\Omega_{bc}'^0"@)
    } else if id == 5434 {
        Some("\\Omega_{bc}^{*0}"@)
    } else if id == 5442 {
        Some("\\Omega_{bcc}^+"@)
    } else if id == 5444 {
        Some("\\Omega_{bcc}^{*+}"@)
    } else if id == 5512 {
        Some("\\Xi_{bb}^-"@)
    } else if id == 5522 {
        Some("\\Xi_{bb}^0"@)
    } else if id == 5514 {
        Some("\\Xi_{bb}^{*-}"@)
    } else if id == 5524 {
        Some("\\Xi_{bb}^{*-}"@)
    } else if id == 5532 {
        Some("\\Omega_{bb}^-"@)
    } else if id == 5534 {
        Some("\\Omega_{bb}^{*-}"@)
    } else if id == 5542 {
        Some("\\Omega_{bbc}^0"@)
    } else if id == 5544 {
        Some("\\Omega_{bbc}^{*0}"@)
    } else if id == 5554 {
        Some("\\Omega_{bbb}^-"@)
    } else if id == 100221132 {
        Some("\\Theta^+"@)
    } else if id == 100331122 {
        Some("\\Phi^{--}"@)
    } else {
        None
    }
}

fn latex_bottom_baryons(id: i32) -> (r: Option<&'static str>)
    ensures
        str_opt_view(r) == latex_bottom_baryons_spec(id as int),
{
    if id == 5122 {
        Some("\\Lambda_b^0")
    } else if id == 5112 {
        Some("\\Sigma_b^-")
    } else if id == 5212 {
        Some("\\Sigma_b^0")
    } else if id == 5222 {
        Some("\\Sigma_b^+")
    } else if id == 5114 {
        Some("\\Sigma_b^{*-}")
    } else if id == 5214 {
        Some("\\Sigma_b^0")
    } else if id == 5224 {
        Some("\\Sigma_b^+")
    } else if id == 5132 {
        Some("\\Xi_b^-")
    } else if id == 5232 {
        Some("\\Xi_b^0")
    } else if id == 5312 {
        Some("\\Xi_b'^-")
    } else if id == 5322 {
        Some("\\Xi_b^0")
    } else if id == 5314 {
        Some("\\Xi_b^-")
    } else if id == 5324 {
        Some("\\Xi_b^0")
    } else if id == 5332 {
        Some("\\Omega_b^-")
    } else if id == 5334 {
        Some("\\Omega_b^{*-}")
    } else if id == 5142 {
        Some("\\Xi_{bc}^0")
    } else if id == 5242 {
        Some("\\Xi_{bc}^+")
    } else if id == 5412 {
        Some("\\Xi_{bc}'^0")
    } else if id == 5422 {
        Some("\\Xi_{bc}'^+")
    } else if id == 5414 {
        Some("\\Xi_{bc}^{*0}")
    } else if id == 5424 {
        Some("\\Xi_{bc}^{*+}")
    } else if id == 5342 {
        Some("\\Omega_{bc}^0")
    } else if id == 5432 {
        Some("\\Omega_{bc}'^0")
    } else if id == 5434 {
        Some("\\Omega_{bc}^{*0}")
    } else if id == 5442 {
        Some("\\Omega_{bcc}^+")
    } else if id == 5444 {
        Some("\\Omega_{bcc}^{*+}")
    } else if id == 5512 {
        Some("\\Xi_{bb}^-")
    } else if id == 5522 {
        Some("\\Xi_{bb}^0")
    } else if id == 5514 {
        Some("\\Xi_{bb}^{*-}")
    } else if id == 5524 {
        Some("\\Xi_{bb}^{*-}")
    } else if id == 5532 {
        Some("\\Omega_{bb}^-")
    } else if id == 5534 {
        Some("\\Omega_{bb}^{*-}")
    } else if id == 5542 {
        Some("\\Omega_{bbc}^0")
    } else if id == 5544 {
        Some("\\Omega_{bbc}^{*0}")
    } else if id == 5554 {
        Some("\\Omega_{bbb}^-")
    } else if id == 100221132 {
        Some("\\Theta^+")
    } else if id == 100331122 {
        Some("\\Phi^{--}")
    } else {
        None
    }
}

/// The LaTeX markup assigned to each catalogued identifier;
/// identifiers outside the table have none. The three display
/// tables are authored independently and cover different identifiers.
pub open spec fn latex_symbol_spec(id: int) -> Option<Seq<char>> {
    if latex_elementary_spec(id) is Some {
        latex_elementary_spec(id)
    } else if latex_light_isovector_mesons_spec(id) is Some {
        latex_light_isovector_mesons_spec(id)
    } else if latex_light_isoscalar_mesons_spec(id) is Some {
        latex_light_isoscalar_mesons_spec(id)
    } else if latex_strange_mesons_spec(id) is Some {
        latex_strange_mesons_spec(id)
    } else if latex_charmed_mesons_spec(id) is Some {
        latex_charmed_mesons_spec(id)
    } else if latex_bottom_mesons_spec(id) is Some {
        latex_bottom_mesons_spec(id)
    } else if latex_ccbar_mesons_spec(id) is Some {
        latex_ccbar_mesons_spec(id)
    } else if latex_bbbar_mesons_spec(id) is Some {
        latex_bbbar_mesons_spec(id)
    } else if latex_light_strange_baryons_spec(id) is Some {
        latex_light_strange_baryons_spec(id)
    } else if latex_charmed_baryons_spec(id) is Some {
        latex_charmed_baryons_spec(id)
    } else if latex_bottom_baryons_spec(id) is Some {
        latex_bottom_baryons_spec(id)
    } else {
        None
    }
}

/// Exhaustive table lookup, one section at a time.
pub(crate) fn lookup(id: i32) -> (r: Option<&'static str>)
    ensures
        str_opt_view(r) == latex_symbol_spec(id as int),
{
    let r = latex_elementary(id);
    if r.is_some() {
        return r;
    }
    let r = latex_light_isovector_mesons(id);
    if r.is_some() {
        return r;
    }
    let r = latex_light_isoscalar_mesons(id);
    if r.is_some() {
        return r;
    }
    let r = latex_strange_mesons(id);
    if r.is_some() {
        return r;
    }
    let r = latex_charmed_mesons(id);
    if r.is_some() {
        return r;
    }
    let r = latex_bottom_mesons(id);
    if r.is_some() {
        return r;
    }
    let r = latex_ccbar_mesons(id);
    if r.is_some() {
        return r;
    }
    let r = latex_bbbar_mesons(id);
    if r.is_some() {
        return r;
    }
    let r = latex_light_strange_baryons(id);
    if r.is_some() {
        return r;
    }
    let r = latex_charmed_baryons(id);
    if r.is_some() {
        return r;
    }
    latex_bottom_baryons(id)
}

} // verus!
