use particle_id::ParticleID;

#[test]
fn names_of_common_particles() {
    assert_eq!(ParticleID::new(2212).name(), Some("proton"));
    assert_eq!(ParticleID::new(2112).name(), Some("neutron"));
    assert_eq!(ParticleID::new(22).name(), Some("photon"));
    assert_eq!(ParticleID::new(11).name(), Some("electron"));
    assert_eq!(ParticleID::new(-11).name(), Some("positron"));
    assert_eq!(ParticleID::new(12).name(), Some("electron neutrino"));
    assert_eq!(ParticleID::new(13).name(), Some("muon"));
    assert_eq!(ParticleID::new(1).name(), Some("down"));
    assert_eq!(ParticleID::new(-1).name(), Some("anti-down"));
    assert_eq!(ParticleID::new(25).name(), Some("Higgs"));
    assert_eq!(ParticleID::new(-2212).name(), Some("anti-proton"));
    assert_eq!(ParticleID::new(-2112).name(), Some("anti-neutron"));
}

#[test]
fn name_of_uncatalogued_id_is_none() {
    assert_eq!(ParticleID::new(999999).name(), None);
    assert_eq!(ParticleID::new(0).name(), None);
    // the name table does not cover mesons
    assert_eq!(ParticleID::new(111).name(), None);
}

#[test]
fn symbols_of_common_particles() {
    assert_eq!(ParticleID::new(22).symbol(), Some("γ"));
    assert_eq!(ParticleID::new(12).symbol(), Some("νₑ"));
    assert_eq!(ParticleID::new(2212).symbol(), Some("p"));
    assert_eq!(ParticleID::new(-2212).symbol(), Some(" ̅p"));
    assert_eq!(ParticleID::new(24).symbol(), Some("W⁺"));
    assert_eq!(ParticleID::new(-24).symbol(), Some("W⁻"));
    assert_eq!(ParticleID::new(111).symbol(), Some("π⁰"));
    assert_eq!(ParticleID::new(443).symbol(), Some("J/ψ(1S)"));
    assert_eq!(ParticleID::new(3122).symbol(), Some("Λ"));
    assert_eq!(ParticleID::new(999999).symbol(), None);
}

#[test]
fn latex_symbols_of_common_particles() {
    assert_eq!(ParticleID::new(22).latex_symbol(), Some("\\gamma"));
    assert_eq!(ParticleID::new(12).latex_symbol(), Some("\\nu_e"));
    assert_eq!(ParticleID::new(2212).latex_symbol(), Some("p"));
    assert_eq!(ParticleID::new(-2212).latex_symbol(), Some("\\bar{p}"));
    assert_eq!(ParticleID::new(11).latex_symbol(), Some("e^-"));
    assert_eq!(ParticleID::new(-11).latex_symbol(), Some("e^+"));
    assert_eq!(ParticleID::new(111).latex_symbol(), Some("\\pi^0"));
    assert_eq!(ParticleID::new(443).latex_symbol(), Some("J/\\psi(1S)"));
    assert_eq!(ParticleID::new(5554).latex_symbol(), Some("\\Omega_{bbb}^-"));
    assert_eq!(ParticleID::new(999999).latex_symbol(), None);
}

#[test]
fn display_tables_have_unequal_coverage() {
    // mesons carry symbols but no English name
    let pion = ParticleID::new(111);
    assert!(pion.name().is_none());
    assert!(pion.symbol().is_some());
    assert!(pion.latex_symbol().is_some());
    // the graviton is catalogued as a constant but appears in no table
    let graviton = ParticleID::new(39);
    assert!(graviton.name().is_none());
    assert!(graviton.symbol().is_none());
    assert!(graviton.latex_symbol().is_none());
}

#[test]
fn particle_and_anti_particle_strings_are_authored_independently() {
    // the anti-neutron's LaTeX entry reads "\bar{p}", not "\bar{n}":
    // each string is its own table entry, so such mismatches survive
    assert_eq!(ParticleID::new(-2112).latex_symbol(), Some("\\bar{p}"));
    assert_eq!(ParticleID::new(-2112).symbol(), Some(" ̅n"));
    assert_eq!(ParticleID::new(-2112).name(), Some("anti-neutron"));
}
