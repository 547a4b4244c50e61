use sw_galaxy_map::hyperspace::GalacticRegion;

#[test]
fn region_parse_is_permissive() {
    assert_eq!(
        GalacticRegion::parse("Outer Rim"),
        Some(GalacticRegion::OuterRim)
    );
    assert_eq!(
        GalacticRegion::parse("outer-rim"),
        Some(GalacticRegion::OuterRim)
    );
    assert_eq!(
        GalacticRegion::parse("  CORE__WORLDS "),
        Some(GalacticRegion::CoreWorlds)
    );
    assert_eq!(
        GalacticRegion::parse("Unknown Region"),
        Some(GalacticRegion::UnknownRegions)
    );
    assert_eq!(GalacticRegion::parse("n/a"), None);
}

#[test]
fn region_parse_exact_names() {
    assert_eq!(
        GalacticRegion::parse("deep core"),
        Some(GalacticRegion::DeepCore)
    );
    assert_eq!(GalacticRegion::parse("core"), Some(GalacticRegion::CoreWorlds));
    assert_eq!(
        GalacticRegion::parse("Expansion"),
        Some(GalacticRegion::ExpansionRegion)
    );
    assert_eq!(GalacticRegion::parse("Mid-Rim"), Some(GalacticRegion::MidRim));
    assert_eq!(
        GalacticRegion::parse("HUTT SPACE"),
        Some(GalacticRegion::HuttSpace)
    );
    assert_eq!(
        GalacticRegion::parse("wild_space"),
        Some(GalacticRegion::WildSpace)
    );
    assert_eq!(GalacticRegion::parse(""), None);
    assert_eq!(GalacticRegion::parse("   "), None);
}

#[test]
fn region_normalization_folds_separators() {
    assert_eq!(
        sw_galaxy_map::hyperspace::normalize_region_name("  Inner__  Rim "),
        b"inner rim".to_vec()
    );
    assert_eq!(
        sw_galaxy_map::hyperspace::normalize_region_name("-_-"),
        b"".to_vec()
    );
}

#[test]
fn first_region_candidate_wins() {
    let c1 = Some("not a region");
    let c2 = Some("Colonies");
    let c3 = Some("Outer Rim");
    let got = sw_galaxy_map::hyperspace::parse_first_region(&[c1, c2, c3]);
    assert_eq!(got, Some(GalacticRegion::Colonies));
    assert_eq!(sw_galaxy_map::hyperspace::parse_first_region(&[None, None]), None);
}

#[test]
fn planet_region_fields_are_scanned_in_order() {
    let p = sw_galaxy_map::model::Planet {
        fid: 7,
        planet: "Coruscant".to_string(),
        planet_norm: "coruscant".to_string(),
        region: Some("Outer Rim".to_string()),
        c_region: Some("junk".to_string()),
        c_region_li: Some("Core Worlds".to_string()),
        x: 0,
        y: 0,
    };
    assert_eq!(
        sw_galaxy_map::model::extract_galactic_region(&p),
        Some(GalacticRegion::CoreWorlds)
    );
}
