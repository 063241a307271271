use the_bridge::kyc::{
    classify_jurisdiction, default_sanctioned_countries, default_sanctioned_entities, grade_aml_risk,
    initial_disclosure, soundex, upgrade_disclosure, JurisdictionRisk, LeiValidator,
};
use the_bridge::matching::{actual_window_ns, compute_jitter_micros, jitter_from_counter, splitmix64, window_with_jitter};
use the_bridge::revenue::{default_volume_tiers, volume_discount, ParticipantTier};
use the_bridge::types::DisclosureLevel;

#[test]
fn soundex_codes() {
    assert_eq!(soundex("Robert"), "R163");
    assert_eq!(soundex("Tymczak"), "T520");
    assert_eq!(soundex("Pfister"), "P123");
    assert_eq!(soundex("a"), "A000");
    assert_eq!(soundex(""), "");
    assert_eq!(soundex("123 !!"), "");
    assert_eq!(soundex("al-qaeda"), "A423");
}

#[test]
fn jurisdiction_classes() {
    assert!(matches!(classify_jurisdiction("KP"), (JurisdictionRisk::Blacklist, 95)));
    assert!(matches!(classify_jurisdiction("NG"), (JurisdictionRisk::Greylist, 70)));
    assert!(matches!(classify_jurisdiction("RU"), (JurisdictionRisk::High, 80)));
    assert!(matches!(classify_jurisdiction("AE"), (JurisdictionRisk::Medium, 40)));
    assert!(matches!(classify_jurisdiction("US"), (JurisdictionRisk::Low, 10)));
    assert!(matches!(classify_jurisdiction("XX"), (JurisdictionRisk::Medium, 50)));
    assert!(matches!(classify_jurisdiction("us"), (JurisdictionRisk::Medium, 50)));
}

#[test]
fn aml_grades() {
    assert_eq!(grade_aml_risk(10), (10, "LOW", true, false));
    assert_eq!(grade_aml_risk(35), (35, "MEDIUM", true, false));
    assert_eq!(grade_aml_risk(60), (60, "HIGH", false, false));
    assert_eq!(grade_aml_risk(80), (80, "CRITICAL", false, true));
    assert_eq!(grade_aml_risk(250), (100, "CRITICAL", false, true));
}

#[test]
fn disclosure_ladder() {
    assert_eq!(upgrade_disclosure(&DisclosureLevel::Public, true, false, false), Some(DisclosureLevel::Verified));
    assert_eq!(upgrade_disclosure(&DisclosureLevel::Public, false, true, true), None);
    assert_eq!(upgrade_disclosure(&DisclosureLevel::Verified, false, true, false), Some(DisclosureLevel::Institutional));
    assert_eq!(upgrade_disclosure(&DisclosureLevel::Institutional, true, true, true), Some(DisclosureLevel::Sovereign));
    assert_eq!(upgrade_disclosure(&DisclosureLevel::Sovereign, true, true, true), None);
    assert_eq!(initial_disclosure(19), DisclosureLevel::Verified);
    assert_eq!(initial_disclosure(20), DisclosureLevel::Public);
}

#[test]
fn lei_validation() {
    let v = LeiValidator;
    assert!(!v.validate(""));
    assert!(!v.validate("5493001KJTIIGC8Y1R12"));
    assert!(!v.validate("ABCD00000000000000!!"));
    assert!(!v.validate("SHORT"));
}

#[test]
fn lei_validation_follows_the_documented_rules() {
    let v = LeiValidator;
    let good = format!("ABCD{}60", "0".repeat(14));
    assert!(v.validate(&good));
    assert!(!v.validate(&format!("ABCD{}61", "0".repeat(14))));
    assert!(!v.validate(&format!("abcd{}60", "0".repeat(14))));
    assert!(!v.validate(&format!("AB1D{}60", "0".repeat(14))));
    assert!(!v.validate(&format!("ABCD{}6A", "0".repeat(14))));
    assert!(!v.validate(&format!("ABCD{}60", "0".repeat(13))));
}

#[test]
fn sanctions_reference_lists() {
    let countries = default_sanctioned_countries();
    assert_eq!(countries.len(), 20);
    assert_eq!(countries[0], "IR");
    assert_eq!(countries[19], "KY");
    let entities = default_sanctioned_entities();
    assert_eq!(entities.len(), 13);
    assert_eq!(entities[0].name, "AL QAEDA");
    assert_eq!(entities[7].program, "OFAC_UKRAINE_RELATED");
    assert_eq!(entities[12].name, "BASHAR AL ASSAD");
}

#[test]
fn tiers_by_volume() {
    assert_eq!(ParticipantTier::from_volume(0), ParticipantTier::Standard);
    assert_eq!(ParticipantTier::from_volume(10_000_000), ParticipantTier::Standard);
    assert_eq!(ParticipantTier::from_volume(10_000_001), ParticipantTier::Professional);
    assert_eq!(ParticipantTier::from_volume(1_000_000_000), ParticipantTier::Institutional);
    assert_eq!(ParticipantTier::from_volume(10_000_000_000), ParticipantTier::Prime);
    assert_eq!(ParticipantTier::from_volume(10_000_000_001), ParticipantTier::Sovereign);
    assert!(ParticipantTier::from_volume(5).rank() <= ParticipantTier::from_volume(50_000_000_000).rank());
    assert_eq!(ParticipantTier::Sovereign.rank(), 4);
}

#[test]
fn volume_discounts() {
    let tiers = default_volume_tiers();
    assert_eq!(tiers.len(), 4);
    assert_eq!(volume_discount(&tiers, 5_000_000, true), 0);
    assert_eq!(volume_discount(&tiers, 10_000_000, true), 1);
    assert_eq!(volume_discount(&tiers, 10_000_000, false), 2);
    assert_eq!(volume_discount(&tiers, 500_000_000, false), 3);
    assert_eq!(volume_discount(&tiers, 2_000_000_000, true), 3);
    assert_eq!(volume_discount(&tiers, u64::MAX, true), 0);
    assert_eq!(volume_discount(&[], 1, true), 0);
}

#[test]
fn splitmix_known_value() {
    assert_eq!(splitmix64(0), 0xE220A8397B1DCDAF);
}

#[test]
fn jitter_stays_in_range() {
    assert_eq!(jitter_from_counter(0, 7, 123), 0);
    for w in 0..200u64 {
        let j = jitter_from_counter(500, w, w * 31);
        assert!((-500..=500).contains(&j));
        let k = compute_jitter_micros(500, w);
        assert!((-500..=500).contains(&k));
    }
    let expected = (splitmix64(7 + (0x1_2345u64 & 0xFFFF)) % 1001) as i64 - 500;
    assert_eq!(jitter_from_counter(500, 7, 0x1_2345), expected);
}

#[test]
fn window_moves_by_jitter() {
    assert_eq!(window_with_jitter(1_000_000, 100), 1_100_000);
    assert_eq!(window_with_jitter(1_000_000, -100), 900_000);
    assert_eq!(window_with_jitter(50_000, -100), 0);
    let w = actual_window_ns(10_000_000, 1_000, 3);
    assert!((9_000_000..=11_000_000).contains(&w));
}
