use the_bridge::aml::{AmlMonitor, TransactionValue, ValueTier};

fn normal() -> TransactionValue {
    TransactionValue { near_threshold: false, round_number: false, tier: ValueTier::Normal, value_text: "500".to_string() }
}

fn near() -> TransactionValue {
    TransactionValue { near_threshold: true, round_number: false, tier: ValueTier::Normal, value_text: "9500".to_string() }
}

#[test]
fn quiet_transaction_passes_clean() {
    let mut m = AmlMonitor::new();
    let r = m.check_transaction_at(1, "buy", &normal(), "US", 0, 1_000_000, 11, 99);
    assert_eq!(r.risk_score, 0);
    assert_eq!(r.risk_level, "LOW");
    assert!(r.passed);
    assert!(!r.sar_required);
    assert!(r.flags.is_empty());
    assert_eq!(r.checked_at, 1_000_000);
    assert_eq!(m.total_sars(), 0);
}

#[test]
fn sanctions_risk_carries_over_at_half() {
    let mut m = AmlMonitor::new();
    let r = m.check_transaction_at(1, "buy", &normal(), "US", 75, 0, 1, 2);
    assert_eq!(r.risk_score, 37);
    assert_eq!(r.risk_level, "MEDIUM");
    assert!(r.passed);
}

#[test]
fn structuring_needs_three_near_threshold() {
    let mut m = AmlMonitor::new();
    let a = m.check_transaction_at(7, "buy", &near(), "US", 0, 0, 1, 100);
    let b = m.check_transaction_at(7, "buy", &near(), "US", 0, 20_000, 2, 100);
    let c = m.check_transaction_at(7, "buy", &near(), "US", 0, 40_000, 3, 100);
    assert_eq!(a.risk_score, 0);
    assert_eq!(b.risk_score, 0);
    assert_eq!(c.risk_score, 40);
    assert_eq!(c.flags, vec!["STRUCTURING_DETECTED: 3 transactions near $10000 threshold".to_string()]);
    assert_eq!(c.risk_level, "MEDIUM");
    // another tenant has its own history
    let other = m.check_transaction_at(8, "buy", &near(), "US", 0, 40_000, 4, 100);
    assert_eq!(other.risk_score, 0);
}

#[test]
fn velocity_is_elevated_at_three_and_high_at_five() {
    let mut m = AmlMonitor::new();
    let mut last = None;
    for i in 0..5u128 {
        let r = m.check_transaction_at(3, "buy", &normal(), "US", 0, 1_000 + i as i64, i, 500);
        if i == 2 {
            assert_eq!(r.risk_score, 20);
            assert_eq!(r.flags, vec!["ELEVATED_VELOCITY: 3 transactions in 10 seconds".to_string()]);
        }
        last = Some(r);
    }
    let r = last.unwrap();
    assert_eq!(r.risk_score, 35);
    assert_eq!(r.flags, vec!["HIGH_VELOCITY: 5 transactions in 10 seconds".to_string()]);
    // outside the ten-second window the old ones no longer count
    let later = m.check_transaction_at(3, "buy", &normal(), "US", 0, 1_000 + 10_004, 9, 500);
    assert_eq!(later.risk_score, 0);
}

#[test]
fn alternating_sides_flag_oscillation() {
    let mut m = AmlMonitor::new();
    let sides = ["buy", "sell", "buy", "sell"];
    let mut r = None;
    for (i, side) in sides.iter().enumerate() {
        r = Some(m.check_transaction_at(5, side, &normal(), "US", 0, i as i64, i as u128, 0));
    }
    let r = r.unwrap();
    assert_eq!(
        r.flags,
        vec!["ELEVATED_VELOCITY: 4 transactions in 10 seconds".to_string(), "RAPID_BUY_SELL_OSCILLATION".to_string()]
    );
    assert_eq!(r.risk_score, 50);
    // same side twice in a row breaks the pattern
    let mut m2 = AmlMonitor::new();
    for (i, side) in ["buy", "sell", "sell", "buy"].iter().enumerate() {
        r2_check(&mut m2, side, i);
    }
}

fn r2_check(m: &mut AmlMonitor, side: &str, i: usize) {
    let r = m.check_transaction_at(6, side, &normal(), "US", 0, i as i64, i as u128, 0);
    assert!(!r.flags.iter().any(|f| f == "RAPID_BUY_SELL_OSCILLATION"));
}

#[test]
fn round_and_large_values() {
    let mut m = AmlMonitor::new();
    let v = TransactionValue { near_threshold: false, round_number: true, tier: ValueTier::Elevated, value_text: "60000".to_string() };
    let r = m.check_transaction_at(9, "sell", &v, "GB", 0, 0, 1, 2);
    assert_eq!(r.flags, vec!["ROUND_NUMBER_TRANSACTION".to_string(), "ELEVATED_VALUE: $60000".to_string()]);
    assert_eq!(r.risk_score, 25);
}

#[test]
fn critical_screen_files_a_report() {
    let mut m = AmlMonitor::new();
    let v = TransactionValue { near_threshold: false, round_number: false, tier: ValueTier::High, value_text: "150000".to_string() };
    let r = m.check_transaction_at(42, "buy", &v, "IR", 100, 5_000, 77, 1234);
    assert_eq!(r.risk_score, 100);
    assert_eq!(r.risk_level, "CRITICAL");
    assert!(!r.passed);
    assert!(r.sar_required);
    assert_eq!(r.flags, vec!["HIGH_VALUE: $150000".to_string(), "HIGH_RISK_JURISDICTION: IR".to_string()]);
    assert_eq!(m.total_sars(), 1);
    let log = m.get_sar_log(10);
    assert_eq!(log.len(), 1);
    assert_eq!(log[0].id, 1234);
    assert_eq!(log[0].tenant_id, 42);
    assert_eq!(log[0].transaction_ids, vec![77]);
    assert_eq!(log[0].risk_score, 100);
    assert_eq!(log[0].narrative, "AUTO_SAR: Risk score 100 - HIGH_VALUE: $150000; HIGH_RISK_JURISDICTION: IR");
    assert_eq!(log[0].filed_at, 5_000);
    assert!(!log[0].filed_to_regulator);
}

#[test]
fn high_risk_jurisdiction_alone_is_graded() {
    let mut m = AmlMonitor::new();
    // RU scores 80: a third of it is added
    let r = m.check_transaction_at(1, "buy", &normal(), "RU", 0, 0, 1, 2);
    assert_eq!(r.risk_score, 26);
    assert_eq!(r.flags, vec!["HIGH_RISK_JURISDICTION: RU".to_string()]);
    // a greylist code (70) is not flagged here
    let r = m.check_transaction_at(2, "buy", &normal(), "PA", 0, 0, 3, 4);
    assert!(r.flags.is_empty());
}

#[test]
fn history_keeps_the_last_hundred() {
    let mut m = AmlMonitor::new();
    for i in 0..104u128 {
        m.check_transaction_at(1, "buy", &normal(), "US", 0, (i as i64) * 20_000, i, 0);
    }
    let v = TransactionValue { near_threshold: false, round_number: false, tier: ValueTier::High, value_text: "1e6".to_string() };
    let r = m.check_transaction_at(1, "buy", &v, "KP", 110, 104 * 20_000, 104, 9);
    assert!(r.sar_required);
    let log = m.get_sar_log(1);
    assert_eq!(log[0].transaction_ids.len(), 100);
    assert_eq!(log[0].transaction_ids[0], 5);
    assert_eq!(log[0].transaction_ids[99], 104);
}

#[test]
fn report_log_is_newest_first_and_limited() {
    let mut m = AmlMonitor::new();
    let v = TransactionValue { near_threshold: false, round_number: false, tier: ValueTier::High, value_text: "2e5".to_string() };
    for i in 0..3u128 {
        m.check_transaction_at(i, "buy", &v, "IR", 120, 0, i, 100 + i);
    }
    assert_eq!(m.total_sars(), 3);
    let log = m.get_sar_log(2);
    assert_eq!(log.len(), 2);
    assert_eq!(log[0].id, 102);
    assert_eq!(log[1].id, 101);
    assert_eq!(m.get_sar_log(0).len(), 0);
}

#[test]
fn clock_reading_screen_records_the_transaction() {
    let mut m = AmlMonitor::new();
    let r = m.check_transaction(1, "buy", &normal(), "US", 0);
    assert!(r.passed);
    assert!(r.checked_at > 0);
}
