use the_bridge::onboarding::{
    audit_hash, blank_address, default_custodian_integrations, default_settlement_config, find_enabled_custodian,
    full_custody_services, initial_settlement_instructions, initial_source_of_funds, initial_stage_list,
    new_workflow, workflow_id_for, FundSource, NettingPreference, OnboardingStatus, StageOutcome,
    WorkflowEngine,
};

#[test]
fn stage_names_and_terminal_stages() {
    assert_eq!(OnboardingStatus::KYCReview.name(), "KYCReview");
    assert_eq!(OnboardingStatus::SettlementInstructionSetup.name(), "SettlementInstructionSetup");
    assert!(OnboardingStatus::Activated.is_terminal());
    assert!(OnboardingStatus::Rejected.is_terminal());
    assert!(!OnboardingStatus::OnHold.is_terminal());
    assert_eq!(initial_stage_list().len(), 7);
    assert_eq!(workflow_id_for("CLIENT_1"), "WF_CLIENT_1");
}

#[test]
fn new_workflow_starts_at_document_collection() {
    let w = new_workflow("C1", 24, 1000);
    assert_eq!(w.workflow_id, "WF_C1");
    assert_eq!(w.client_id, "C1");
    assert_eq!(w.current_stage, OnboardingStatus::DocumentCollection);
    assert_eq!(w.stage_started_at, 1000);
    assert_eq!(w.stage_sla_hours, 3);
    assert!(w.completed_stages.is_empty());
    assert_eq!(
        w.pending_tasks,
        vec![
            "DocumentCollection",
            "DocumentVerification",
            "KYCReview",
            "AMLScreening",
            "SanctionsScreening",
            "PEPScreening",
            "AdverseMediaCheck"
        ]
    );
    assert!(!w.escalated);
    assert!(w.escalation_reason.is_none());
}

#[test]
fn advancing_records_the_closed_stage() {
    let mut e = WorkflowEngine::default();
    e.create_workflow("C1", 24, 100);
    e.create_workflow("C2", 24, 100);
    assert_eq!(e.active_count(), 2);

    let r = e.advance_stage("C1", OnboardingStatus::KYCReview, "alice", StageOutcome::Approved, "docs ok".to_string(), 500);
    assert_eq!(r, Some(OnboardingStatus::KYCReview));
    let w = e.get_workflow("C1").unwrap();
    assert_eq!(w.current_stage, OnboardingStatus::KYCReview);
    assert_eq!(w.stage_started_at, 500);
    assert_eq!(w.completed_stages.len(), 1);
    let c = &w.completed_stages[0];
    assert_eq!(c.stage, OnboardingStatus::DocumentCollection);
    assert_eq!(c.started_at, 100);
    assert_eq!(c.completed_at, 500);
    assert_eq!(c.officer, "alice");
    assert_eq!(c.outcome, StageOutcome::Approved);
    assert_eq!(c.notes, "docs ok");

    // the other workflow is untouched
    let w2 = e.get_workflow("C2").unwrap();
    assert_eq!(w2.current_stage, OnboardingStatus::DocumentCollection);
    assert!(w2.completed_stages.is_empty());
}

#[test]
fn terminal_stage_ends_the_workflow() {
    let mut e = WorkflowEngine::default();
    e.create_workflow("C1", 24, 0);
    let r = e.advance_stage("C1", OnboardingStatus::Activated, "bob", StageOutcome::Approved, String::new(), 10);
    assert_eq!(r, None);
    assert!(e.get_workflow("C1").is_none());
    assert_eq!(e.active_count(), 0);
    assert_eq!(e.completed_workflows().len(), 1);
    assert_eq!(e.completed_workflows()[0].current_stage, OnboardingStatus::Activated);
    // nothing left to advance
    let again = e.advance_stage("C1", OnboardingStatus::KYCReview, "bob", StageOutcome::Approved, String::new(), 20);
    assert_eq!(again, None);
    assert_eq!(e.completed_workflows().len(), 1);
}

#[test]
fn unknown_client_is_left_alone() {
    let mut e = WorkflowEngine::default();
    e.create_workflow("C1", 24, 0);
    assert_eq!(e.advance_stage("ZZ", OnboardingStatus::KYCReview, "x", StageOutcome::Rejected, String::new(), 5), None);
    assert_eq!(e.active_count(), 1);
    assert!(e.get_workflow("ZZ").is_none());
}

#[test]
fn recreating_replaces_the_workflow() {
    let mut e = WorkflowEngine::default();
    e.create_workflow("C1", 24, 0);
    e.advance_stage("C1", OnboardingStatus::KYCReview, "x", StageOutcome::Approved, String::new(), 5);
    e.create_workflow("C1", 14, 9);
    assert_eq!(e.active_count(), 1);
    let w = e.get_workflow("C1").unwrap();
    assert_eq!(w.stage_started_at, 9);
    assert_eq!(w.stage_sla_hours, 2);
    assert!(w.completed_stages.is_empty());
}

#[test]
fn overdue_stages_escalate_once() {
    let mut e = WorkflowEngine::default();
    e.create_workflow("C1", 24, 0); // 3 hours per stage
    e.create_workflow("C2", 24, 5000);
    e.escalate_overdue(3 * 3600);
    assert!(!e.get_workflow("C1").unwrap().escalated);
    e.escalate_overdue(3 * 3600 + 1);
    let w = e.get_workflow("C1").unwrap();
    assert!(w.escalated);
    assert_eq!(w.escalation_reason.as_deref(), Some("SLA breach: stage DocumentCollection exceeded 3 hours"));
    assert!(!e.get_workflow("C2").unwrap().escalated);
    // a second check at the same time changes nothing
    e.escalate_overdue(3 * 3600 + 1);
    let w_again = e.get_workflow("C1").unwrap();
    assert_eq!(w_again.escalation_reason, w.escalation_reason);
}

#[test]
fn client_defaults() {
    let a = blank_address("AE");
    assert_eq!(a.country, "AE");
    assert!(a.line1.is_empty() && a.city.is_empty() && a.postal_code.is_empty());
    assert!(a.line2.is_none() && a.state.is_none());

    let s = initial_settlement_instructions();
    assert_eq!(s.settlement_cycle, "T+1");
    assert_eq!(s.netting_preference, NettingPreference::NetByCurrency);
    assert_eq!(s.fail_tolerance_days, 3);
    assert!(s.dvp_enabled && s.pvp_enabled && s.cash_sweep_enabled && s.collateral_management && s.tax_reclaim_service);

    let f = initial_source_of_funds(50_000_000);
    assert_eq!(f.primary_source, FundSource::OperatingRevenue);
    assert_eq!(f.expected_inflows_usd_monthly, 5_000_000);
    assert_eq!(f.expected_outflows_usd_monthly, 5_000_000);
}

#[test]
fn custodians_and_settlement_defaults() {
    let c = default_custodian_integrations();
    assert_eq!(c.len(), 2);
    assert_eq!(c[0].custodian_id, "BNY_MELLON");
    assert_eq!(c[0].supported_markets, vec!["US", "EU", "UK", "APAC"]);
    assert_eq!(c[0].settlement_systems, vec!["DTCC", "Euroclear", "Clearstream"]);
    assert_eq!(c[0].fee_bps, 1);
    assert_eq!(c[1].custodian_id, "STATE_STREET");
    assert_eq!(c[1].fee_bps, 2);
    assert_eq!(find_enabled_custodian(&c, "BNY_MELLON"), Some(0));
    assert_eq!(find_enabled_custodian(&c, "STATE_STREET"), Some(1));
    assert_eq!(find_enabled_custodian(&c, "NOPE"), None);
    let mut disabled = c.clone();
    disabled[0].enabled = false;
    assert_eq!(find_enabled_custodian(&disabled, "BNY_MELLON"), None);

    let s = default_settlement_config();
    assert_eq!(s.default_settlement_cycle, "T+1");
    assert_eq!(s.supported_currencies, vec!["USD", "EUR", "GBP", "JPY", "AED"]);

    let (tax, ca) = full_custody_services();
    assert!(tax.withholding_tax_reclaim && tax.treaty_benefits);
    assert!(ca.voting_rights && ca.dividend_processing);
}

#[test]
fn audit_hash_is_md5_of_the_entry_text() {
    let h = audit_hash("CLIENT_1", "INITIATE_ONBOARDING", OnboardingStatus::Initiated, "Onboarding initiated");
    assert_eq!(h, format!("{:x}", md5::compute("CLIENT_1INITIATE_ONBOARDING0Onboarding initiated")));
    assert_eq!(h.len(), 32);
    let k = audit_hash("C", "A", OnboardingStatus::Expired, "");
    assert_eq!(k, format!("{:x}", md5::compute("CA19")));
    assert_eq!(OnboardingStatus::LegalReview.code(), 15);
}

#[test]
fn audit_hash_of_bare_stage_number() {
    // client, action and details empty: the text is the stage number "0"
    assert_eq!(audit_hash("", "", OnboardingStatus::Initiated, ""), "cfcd208495d565ef66e7dff9f98764da");
}
