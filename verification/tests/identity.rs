use particle_id::ParticleID;

#[test]
fn construction_round_trip() {
    for x in [0, 1, -1, 22, 2212, -2212, 999999, i32::MAX, i32::MIN] {
        assert_eq!(ParticleID::new(x).id(), x);
    }
}

#[test]
fn anti_flips_sign() {
    assert_eq!(ParticleID::new(11).anti().id(), -11);
    assert_eq!(ParticleID::new(-11).anti().id(), 11);
    assert_eq!(ParticleID::new(0).anti().id(), 0);
}

#[test]
fn anti_is_involutive() {
    for x in [1, -1, 22, 2212, -1000024, i32::MAX] {
        let v = ParticleID::new(x);
        assert_eq!(v.anti().anti(), v);
    }
}

#[test]
fn abs_clears_sign() {
    assert!(ParticleID::new(-2212).abs().id() >= 0);
    assert_eq!(ParticleID::new(-2212).abs().id(), 2212);
    let v = ParticleID::new(443);
    assert_eq!(v.abs(), v);
    assert_eq!(ParticleID::new(0).abs().id(), 0);
}

#[test]
fn anti_particle_sign_test() {
    assert!(!ParticleID::new(11).is_anti_particle());
    assert!(ParticleID::new(-11).is_anti_particle());
    assert!(!ParticleID::new(0).is_anti_particle());
}

#[test]
fn quark_range_is_strict() {
    // the boundary values themselves are excluded
    assert!(!ParticleID::new(1).is_quark());
    assert!(!ParticleID::new(9).is_quark());
    for x in 2..=8 {
        assert!(ParticleID::new(x).is_quark());
    }
    assert!(!ParticleID::new(0).is_quark());
    assert!(!ParticleID::new(10).is_quark());
    assert!(!ParticleID::new(-6).is_quark());
}

#[test]
fn anti_quark_matches_quark_of_anti() {
    for x in [-10, -9, -8, -6, -2, -1, 0, 1, 2, 6, 8, 9, 10] {
        let v = ParticleID::new(x);
        assert_eq!(v.is_anti_quark(), v.anti().is_quark());
    }
    assert!(ParticleID::new(-6).is_anti_quark());
    assert!(!ParticleID::new(6).is_anti_quark());
}

#[test]
fn lepton_range_is_inclusive() {
    for x in 11..=18 {
        assert!(ParticleID::new(x).is_lepton());
    }
    assert!(!ParticleID::new(10).is_lepton());
    assert!(!ParticleID::new(19).is_lepton());
    assert!(!ParticleID::new(-13).is_lepton());
}

#[test]
fn anti_lepton_matches_lepton_of_anti() {
    for x in [-19, -18, -15, -11, -10, 0, 11, 15, 18] {
        let v = ParticleID::new(x);
        assert_eq!(v.is_anti_lepton(), v.anti().is_lepton());
    }
}

#[test]
fn neutrinos_are_even_leptons() {
    // the muon neutrino is a neutrino, the muon is not
    assert!(ParticleID::new(14).is_neutrino());
    assert!(!ParticleID::new(13).is_neutrino());
    for x in 11..=18 {
        let v = ParticleID::new(x);
        assert_eq!(v.is_neutrino(), v.is_lepton() && v.id() % 2 == 0);
        assert_eq!(v.is_charged_lepton(), v.is_lepton() && v.id() % 2 == 1);
        assert!(v.is_neutrino() != v.is_charged_lepton());
    }
    assert!(!ParticleID::new(20).is_neutrino());
    assert!(!ParticleID::new(-14).is_neutrino());
}

#[test]
fn anti_neutrino_matches_neutrino_of_anti() {
    for x in [-18, -17, -14, -13, -12, -11, 11, 12, 14] {
        let v = ParticleID::new(x);
        assert_eq!(v.is_anti_neutrino(), v.anti().is_neutrino());
    }
    assert!(ParticleID::new(-14).is_anti_neutrino());
    assert!(!ParticleID::new(14).is_anti_neutrino());
}

#[test]
fn charged_anti_lepton_needs_negative_value() {
    for x in [-18, -15, -13, -12, -11, 11, 13, 15] {
        let v = ParticleID::new(x);
        assert_eq!(
            v.is_charged_anti_lepton(),
            v.is_anti_particle() && v.anti().is_charged_lepton()
        );
    }
    assert!(ParticleID::new(-13).is_charged_anti_lepton());
    assert!(!ParticleID::new(13).is_charged_anti_lepton());
    assert!(!ParticleID::new(-14).is_charged_anti_lepton());
}

#[test]
fn gauge_boson_range_excludes_higgs() {
    for x in 21..=24 {
        assert!(ParticleID::new(x).is_gauge_boson());
        assert!(ParticleID::new(-x).is_gauge_boson());
    }
    // the Higgs sits just past the gauge boson block
    assert!(!ParticleID::new(25).is_gauge_boson());
    assert!(!ParticleID::new(20).is_gauge_boson());
    assert!(!ParticleID::new(32).is_gauge_boson());
    assert!(!ParticleID::new(0).is_gauge_boson());
}

#[test]
fn ordering_and_equality_follow_the_integer() {
    let a = ParticleID::new(11);
    let b = ParticleID::new(22);
    assert!(a < b);
    assert!(ParticleID::new(-5) < ParticleID::new(5));
    assert_eq!(ParticleID::new(7), ParticleID::new(7));
    assert_ne!(ParticleID::new(7), ParticleID::new(8));
}
