use particle_id::ParticleID;
use particle_id::anti_leptons;
use particle_id::anti_quarks;
use particle_id::baryons;
use particle_id::bbbar_mesons;
use particle_id::bottom_baryons;
use particle_id::bottom_mesons;
use particle_id::ccbar_mesons;
use particle_id::charmed_baryons;
use particle_id::charmed_mesons;
use particle_id::diquarks;
use particle_id::gauge_bosons;
use particle_id::hadrons;
use particle_id::higgs_bosons;
use particle_id::leptons;
use particle_id::light_anti_baryons;
use particle_id::light_baryons;
use particle_id::light_isoscalar_mesons;
use particle_id::light_isovector_mesons;
use particle_id::light_mesons;
use particle_id::mesons;
use particle_id::pentaquarks;
use particle_id::quarks;
use particle_id::special_particles;
use particle_id::strange_baryons;
use particle_id::strange_mesons;
use particle_id::susy_particles;

#[test]
fn category_sizes() {
    assert_eq!(quarks::members().len(), 8);
    assert_eq!(leptons::members().len(), 8);
    assert_eq!(gauge_bosons::members().len(), 7);
    assert_eq!(higgs_bosons::members().len(), 6);
    assert_eq!(special_particles::members().len(), 6);
    assert_eq!(diquarks::members().len(), 25);
    assert_eq!(susy_particles::members().len(), 29);
    assert_eq!(light_isovector_mesons::members().len(), 46);
    assert_eq!(light_isoscalar_mesons::members().len(), 45);
    assert_eq!(strange_mesons::members().len(), 46);
    assert_eq!(charmed_mesons::members().len(), 18);
    assert_eq!(bottom_mesons::members().len(), 24);
    assert_eq!(ccbar_mesons::members().len(), 13);
    assert_eq!(bbbar_mesons::members().len(), 29);
    assert_eq!(light_baryons::members().len(), 6);
    assert_eq!(strange_baryons::members().len(), 12);
    assert_eq!(charmed_baryons::members().len(), 22);
    assert_eq!(bottom_baryons::members().len(), 35);
    assert_eq!(pentaquarks::members().len(), 2);
    assert_eq!(anti_quarks::members().len(), 8);
    assert_eq!(anti_leptons::members().len(), 8);
}

#[test]
fn composite_sizes_are_the_sums_of_their_parts() {
    let light = light_mesons::members().len();
    assert_eq!(
        light,
        light_isoscalar_mesons::members().len() + light_isovector_mesons::members().len()
    );
    assert_eq!(light, 91);
    let meson_count = mesons::members().len();
    assert_eq!(
        meson_count,
        light
            + strange_mesons::members().len()
            + charmed_mesons::members().len()
            + bottom_mesons::members().len()
            + ccbar_mesons::members().len()
            + bbbar_mesons::members().len()
    );
    assert_eq!(meson_count, 221);
    let baryon_count = baryons::members().len();
    assert_eq!(
        baryon_count,
        light_baryons::members().len()
            + strange_baryons::members().len()
            + charmed_baryons::members().len()
            + bottom_baryons::members().len()
    );
    assert_eq!(baryon_count, 75);
    assert_eq!(hadrons::members().len(), meson_count + baryon_count);
    assert_eq!(hadrons::members().len(), 296);
}

#[test]
fn composites_concatenate_in_declaration_order() {
    let h = hadrons::members();
    let m = mesons::members();
    let b = baryons::members();
    assert_eq!(&h[..m.len()], &m[..]);
    assert_eq!(&h[m.len()..], &b[..]);
    // the first hadron is the first light isoscalar meson, eta
    assert_eq!(h[0].id(), 221);
    // the first baryon is the proton
    assert_eq!(h[m.len()].id(), 2212);
    // the last baryon closes the bottom baryon table
    assert_eq!(h[h.len() - 1].id(), 5554);
}

#[test]
fn named_constants_carry_their_catalog_values() {
    assert_eq!(quarks::d, 1);
    assert_eq!(quarks::t, 6);
    assert_eq!(quarks::t_prime, 9);
    assert_eq!(leptons::e, 11);
    assert_eq!(leptons::nu_tau_prime, 18);
    assert_eq!(gauge_bosons::g, 21);
    assert_eq!(gauge_bosons::W_plus, 24);
    assert_eq!(higgs_bosons::h, 25);
    assert_eq!(special_particles::G, 39);
    assert_eq!(light_baryons::p, 2212);
    assert_eq!(light_anti_baryons::p_bar, -2212);
    assert_eq!(pentaquarks::Theta_plus, 100221132);
    assert_eq!(susy_particles::d_tilde_L, 1000001);
    assert_eq!(particle_id::susy_anti_particles::d_tilde_bar_L, -1000001);
    assert_eq!(particle_id::anti_gauge_and_higgs_bosons::W_minus, -24);
}

#[test]
fn aliases_share_the_numeric_value() {
    assert_eq!(quarks::down, quarks::d);
    assert_eq!(quarks::top, quarks::t);
    assert_eq!(leptons::electron, leptons::e);
    assert_eq!(leptons::muon_neutrino, leptons::nu_mu);
    assert_eq!(gauge_bosons::photon, gauge_bosons::gamma);
    assert_eq!(higgs_bosons::Higgs, higgs_bosons::h);
    assert_eq!(light_baryons::proton, light_baryons::p);
    assert_eq!(anti_leptons::positron, anti_leptons::e_bar);
    assert_eq!(anti_leptons::mu_plus, anti_leptons::mu_bar);
    assert_eq!(anti_quarks::anti_top, anti_quarks::t_bar);
}

#[test]
fn aliased_constants_behave_identically() {
    let a = ParticleID::new(quarks::down);
    let b = ParticleID::new(quarks::d);
    assert_eq!(a, b);
    assert_eq!(a.name(), b.name());
    assert_eq!(a.symbol(), b.symbol());
    assert_eq!(a.latex_symbol(), b.latex_symbol());
    assert_eq!(a.is_quark(), b.is_quark());
    assert_eq!(a.anti(), b.anti());
    let c = ParticleID::new(gauge_bosons::photon);
    let d = ParticleID::new(gauge_bosons::gamma);
    assert_eq!(c, d);
    assert_eq!(c.name(), Some("photon"));
    assert_eq!(d.name(), Some("photon"));
    assert_eq!(c.is_gauge_boson(), d.is_gauge_boson());
}

#[test]
fn collection_members_agree_with_constants() {
    let q = quarks::members();
    assert_eq!(q[0], ParticleID::new(quarks::d));
    assert_eq!(q[7], ParticleID::new(quarks::t_prime));
    let l = leptons::members();
    assert_eq!(l[0].id(), 11);
    assert_eq!(l[7].id(), 18);
    let aq = anti_quarks::members();
    assert_eq!(aq[0].id(), -1);
    assert_eq!(aq[7].id(), -9);
    // every quark in the table satisfies the quark predicate except
    // the boundary entries d (1) and t_prime (9)
    for p in &q {
        assert_eq!(p.is_quark(), p.id() != 1 && p.id() != 9);
    }
    for p in &l {
        assert!(p.is_lepton());
    }
}
