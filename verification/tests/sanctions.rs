use the_bridge::kyc::{ScreenStep, SanctionsChecker};

#[test]
fn sanctioned_country_scores_ninety_plus_half_its_risk() {
    let c = SanctionsChecker::new();
    let s = c.screen("ir", "Acme Trading");
    assert_eq!(s.jurisdiction, "IR");
    assert!(s.sanctioned_jurisdiction);
    assert!(s.steps.is_empty());
    assert_eq!(s.points, 90 + 95 / 2);
}

#[test]
fn exact_name_ignores_case() {
    let c = SanctionsChecker::default();
    let s = c.screen("US", "hamas");
    assert!(!s.sanctioned_jurisdiction);
    assert_eq!(s.steps, vec![ScreenStep::Exact { entity: 3 }]);
    assert_eq!(s.points, 100 + 10 / 2);
}

#[test]
fn sound_alike_name_is_a_candidate() {
    let c = SanctionsChecker::new();
    let s = c.screen("US", "Hammas");
    assert_eq!(s.steps, vec![ScreenStep::SoundsLike { entity: 3 }]);
    assert_eq!(s.points, 5);
}

#[test]
fn alias_sound_alike_is_a_candidate() {
    let c = SanctionsChecker::new();
    let s = c.screen("GB", "ISIL");
    assert_eq!(s.steps, vec![ScreenStep::SoundsLikeAlias { entity: 2, alias: 1 }]);
}

#[test]
fn empty_name_is_not_matched() {
    let c = SanctionsChecker::new();
    let s = c.screen("KP", "");
    assert!(s.steps.is_empty());
    assert!(s.sanctioned_jurisdiction);
    assert_eq!(s.points, 90 + 47);
}

#[test]
fn points_add_up_over_country_and_name() {
    let c = SanctionsChecker::new();
    let s = c.screen("ir", "KIM JONG UN");
    assert_eq!(s.steps[0], ScreenStep::Exact { entity: 11 });
    assert_eq!(s.points, 90 + 100 + 47);
}
