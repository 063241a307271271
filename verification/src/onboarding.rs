//! Institutional onboarding: the stages a client passes through, the
//! workflow that records each stage as it is completed, the escalation of
//! stages that overrun their service level, and the fixed parts of the
//! onboarding configuration.

use vstd::prelude::*;
use crate::text::{copy_strings, decimal, hex_encode, hex_lower, owned, push_decimal, push_str, str_eq, texts};
use vstd::string::*;
use vstd::utf8::encode_utf8;

verus! {

/// Where a client stands in onboarding.
#[derive(Debug, Clone, Copy, PartialEq, Eq, Structural)]
pub enum OnboardingStatus {
    Initiated,
    DocumentCollection,
    DocumentVerification,
    KYCReview,
    AMLScreening,
    SanctionsScreening,
    PEPScreening,
    AdverseMediaCheck,
    EnhancedDueDiligence,
    RiskAssessment,
    AccountSetup,
    PrimeBrokerLinking,
    CustodianSetup,
    SettlementInstructionSetup,
    ComplianceOfficerApproval,
    LegalReview,
    Activated,
    Rejected,
    OnHold,
    Expired,
}

impl OnboardingStatus {
    /// The name of the stage, as written in task lists and messages.
    pub open spec fn spec_name(self) -> Seq<char> {
        match self {
            OnboardingStatus::Initiated => "Initiated"@,
            OnboardingStatus::DocumentCollection => "DocumentCollection"@,
            OnboardingStatus::DocumentVerification => "DocumentVerification"@,
            OnboardingStatus::KYCReview => "KYCReview"@,
            OnboardingStatus::AMLScreening => "AMLScreening"@,
            OnboardingStatus::SanctionsScreening => "SanctionsScreening"@,
            OnboardingStatus::PEPScreening => "PEPScreening"@,
            OnboardingStatus::AdverseMediaCheck => "AdverseMediaCheck"@,
            OnboardingStatus::EnhancedDueDiligence => "EnhancedDueDiligence"@,
            OnboardingStatus::RiskAssessment => "RiskAssessment"@,
            OnboardingStatus::AccountSetup => "AccountSetup"@,
            OnboardingStatus::PrimeBrokerLinking => "PrimeBrokerLinking"@,
            OnboardingStatus::CustodianSetup => "CustodianSetup"@,
            OnboardingStatus::SettlementInstructionSetup => "SettlementInstructionSetup"@,
            OnboardingStatus::ComplianceOfficerApproval => "ComplianceOfficerApproval"@,
            OnboardingStatus::LegalReview => "LegalReview"@,
            OnboardingStatus::Activated => "Activated"@,
            OnboardingStatus::Rejected => "Rejected"@,
            OnboardingStatus::OnHold => "OnHold"@,
            OnboardingStatus::Expired => "Expired"@,
        }
    }

    /// The name of the stage.
    pub fn name(&self) -> (r: String)
        ensures
            r@ == self.spec_name(),
    {
        match self {
            OnboardingStatus::Initiated => owned("Initiated"),
            OnboardingStatus::DocumentCollection => owned("DocumentCollection"),
            OnboardingStatus::DocumentVerification => owned("DocumentVerification"),
            OnboardingStatus::KYCReview => owned("KYCReview"),
            OnboardingStatus::AMLScreening => owned("AMLScreening"),
            OnboardingStatus::SanctionsScreening => owned("SanctionsScreening"),
            OnboardingStatus::PEPScreening => owned("PEPScreening"),
            OnboardingStatus::AdverseMediaCheck => owned("AdverseMediaCheck"),
            OnboardingStatus::EnhancedDueDiligence => owned("EnhancedDueDiligence"),
            OnboardingStatus::RiskAssessment => owned("RiskAssessment"),
            OnboardingStatus::AccountSetup => owned("AccountSetup"),
            OnboardingStatus::PrimeBrokerLinking => owned("PrimeBrokerLinking"),
            OnboardingStatus::CustodianSetup => owned("CustodianSetup"),
            OnboardingStatus::SettlementInstructionSetup => owned("SettlementInstructionSetup"),
            OnboardingStatus::ComplianceOfficerApproval => owned("ComplianceOfficerApproval"),
            OnboardingStatus::LegalReview => owned("LegalReview"),
            OnboardingStatus::Activated => owned("Activated"),
            OnboardingStatus::Rejected => owned("Rejected"),
            OnboardingStatus::OnHold => owned("OnHold"),
            OnboardingStatus::Expired => owned("Expired"),
        }
    }

    /// The number of the stage: its place in the order of stages, from 0.
    pub open spec fn spec_code(self) -> u32 {
        match self {
            OnboardingStatus::Initiated => 0,
            OnboardingStatus::DocumentCollection => 1,
            OnboardingStatus::DocumentVerification => 2,
            OnboardingStatus::KYCReview => 3,
            OnboardingStatus::AMLScreening => 4,
            OnboardingStatus::SanctionsScreening => 5,
            OnboardingStatus::PEPScreening => 6,
            OnboardingStatus::AdverseMediaCheck => 7,
            OnboardingStatus::EnhancedDueDiligence => 8,
            OnboardingStatus::RiskAssessment => 9,
            OnboardingStatus::AccountSetup => 10,
            OnboardingStatus::PrimeBrokerLinking => 11,
            OnboardingStatus::CustodianSetup => 12,
            OnboardingStatus::SettlementInstructionSetup => 13,
            OnboardingStatus::ComplianceOfficerApproval => 14,
            OnboardingStatus::LegalReview => 15,
            OnboardingStatus::Activated => 16,
            OnboardingStatus::Rejected => 17,
            OnboardingStatus::OnHold => 18,
            OnboardingStatus::Expired => 19,
        }
    }

    /// The number of the stage.
    pub fn code(&self) -> (r: u32)
        ensures
            r == self.spec_code(),
    {
        match self {
            OnboardingStatus::Initiated => 0,
            OnboardingStatus::DocumentCollection => 1,
            OnboardingStatus::DocumentVerification => 2,
            OnboardingStatus::KYCReview => 3,
            OnboardingStatus::AMLScreening => 4,
            OnboardingStatus::SanctionsScreening => 5,
            OnboardingStatus::PEPScreening => 6,
            OnboardingStatus::AdverseMediaCheck => 7,
            OnboardingStatus::EnhancedDueDiligence => 8,
            OnboardingStatus::RiskAssessment => 9,
            OnboardingStatus::AccountSetup => 10,
            OnboardingStatus::PrimeBrokerLinking => 11,
            OnboardingStatus::CustodianSetup => 12,
            OnboardingStatus::SettlementInstructionSetup => 13,
            OnboardingStatus::ComplianceOfficerApproval => 14,
            OnboardingStatus::LegalReview => 15,
            OnboardingStatus::Activated => 16,
            OnboardingStatus::Rejected => 17,
            OnboardingStatus::OnHold => 18,
            OnboardingStatus::Expired => 19,
        }
    }

    /// Whether onboarding ends at this stage: the client is activated or
    /// rejected.
    pub open spec fn spec_is_terminal(self) -> bool {
        self is Activated || self is Rejected
    }

    /// Whether onboarding ends at this stage.
    pub fn is_terminal(&self) -> (r: bool)
        ensures
            r == self.spec_is_terminal(),
    {
        match self {
            OnboardingStatus::Activated | OnboardingStatus::Rejected => true,
            _ => false,
        }
    }
}

/// The MD5 digest of bytes.
pub uninterp spec fn md5_spec(data: Seq<u8>) -> Seq<u8>;

/// `md5::compute`: the 16-byte MD5 digest of the bytes.
#[verifier::external_body]
fn md5_digest(data: &[u8]) -> (r: [u8; 16])
    ensures
        r@ == md5_spec(data@),
{
    md5::compute(data).0
}

/// The text an audit entry's hash is taken of: the client, the action, the
/// stage's number and the details, run together.
pub open spec fn audit_text(client_id: Seq<char>, action: Seq<char>, stage: OnboardingStatus, details: Seq<char>) -> Seq<char> {
    client_id + action + decimal(stage.spec_code() as nat) + details
}

/// The hash of an audit entry: the lowercase hexadecimal MD5 digest of the
/// UTF-8 bytes of its text.
pub fn audit_hash(client_id: &str, action: &str, stage: OnboardingStatus, details: &str) -> (r: String)
    ensures
        r@ == hex_lower(md5_spec(encode_utf8(audit_text(client_id@, action@, stage, details@)))),
{
    let mut text = owned(client_id);
    push_str(&mut text, action);
    push_decimal(&mut text, stage.code() as u64);
    push_str(&mut text, details);
    let digest = md5_digest(text.as_str().as_bytes());
    hex_encode(digest.as_slice())
}

/// How a completed stage ended.
#[derive(Debug, Clone, Copy, PartialEq, Eq, Structural)]
pub enum StageOutcome {
    Approved,
    Rejected,
    Conditional,
    Escalated,
}

/// The screening stages a new workflow starts with, in order.
pub open spec fn initial_stages() -> Seq<OnboardingStatus> {
    seq![
        OnboardingStatus::DocumentCollection,
        OnboardingStatus::DocumentVerification,
        OnboardingStatus::KYCReview,
        OnboardingStatus::AMLScreening,
        OnboardingStatus::SanctionsScreening,
        OnboardingStatus::PEPScreening,
        OnboardingStatus::AdverseMediaCheck,
    ]
}

/// The screening stages a new workflow starts with.
pub fn initial_stage_list() -> (r: Vec<OnboardingStatus>)
    ensures
        r@ == initial_stages(),
{
    let r = vec![
        OnboardingStatus::DocumentCollection,
        OnboardingStatus::DocumentVerification,
        OnboardingStatus::KYCReview,
        OnboardingStatus::AMLScreening,
        OnboardingStatus::SanctionsScreening,
        OnboardingStatus::PEPScreening,
        OnboardingStatus::AdverseMediaCheck,
    ];
    assert(r@ =~= initial_stages());
    r
}

/// The pending-task names of a new workflow: one per initial stage.
pub open spec fn initial_task_names() -> Seq<Seq<char>> {
    initial_stages().map_values(|s: OnboardingStatus| s.spec_name())
}

/// The workflow identifier of a client.
pub open spec fn workflow_id_of(client_id: Seq<char>) -> Seq<char> {
    "WF_"@ + client_id
}

/// The workflow identifier of a client: `WF_` and the client's id.
pub fn workflow_id_for(client_id: &str) -> (r: String)
    ensures
        r@ == workflow_id_of(client_id@),
{
    let mut s = owned("WF_");
    push_str(&mut s, client_id);
    s
}

/// One stage of a workflow, as it was closed.
#[derive(Debug, Clone)]
pub struct CompletedStage {
    pub stage: OnboardingStatus,
    pub started_at: u64,
    pub completed_at: u64,
    pub officer: String,
    pub outcome: StageOutcome,
    pub notes: String,
}

impl CompletedStage {
    /// A copy with the same fields.
    pub fn duplicate(&self) -> (r: CompletedStage)
        ensures
            r == *self,
    {
        CompletedStage {
            stage: self.stage,
            started_at: self.started_at,
            completed_at: self.completed_at,
            officer: self.officer.clone(),
            outcome: self.outcome,
            notes: self.notes.clone(),
        }
    }
}

/// The onboarding workflow of one client.
#[derive(Debug, Clone)]
pub struct WorkflowInstance {
    pub workflow_id: String,
    pub client_id: String,
    pub current_stage: OnboardingStatus,
    pub stage_started_at: u64,
    pub stage_sla_hours: u32,
    pub completed_stages: Vec<CompletedStage>,
    pub pending_tasks: Vec<String>,
    pub assigned_officers: Vec<String>,
    pub escalated: bool,
    pub escalation_reason: Option<String>,
}

impl WorkflowInstance {
    /// Whether two workflows hold the same data.
    pub open spec fn same_as(&self, other: &WorkflowInstance) -> bool {
        &&& self.workflow_id == other.workflow_id
        &&& self.client_id == other.client_id
        &&& self.current_stage == other.current_stage
        &&& self.stage_started_at == other.stage_started_at
        &&& self.stage_sla_hours == other.stage_sla_hours
        &&& self.completed_stages@ == other.completed_stages@
        &&& self.pending_tasks@ == other.pending_tasks@
        &&& self.assigned_officers@ == other.assigned_officers@
        &&& self.escalated == other.escalated
        &&& self.escalation_reason == other.escalation_reason
    }

    /// A copy holding the same data.
    pub fn duplicate(&self) -> (r: WorkflowInstance)
        ensures
            r.same_as(self),
    {
        let mut stages: Vec<CompletedStage> = Vec::new();
        let mut i: usize = 0;
        while i < self.completed_stages.len()
            invariant
                i <= self.completed_stages@.len(),
                stages@ == self.completed_stages@.take(i as int),
            decreases self.completed_stages@.len() - i,
        {
            stages.push(self.completed_stages[i].duplicate());
            assert(stages@ =~= self.completed_stages@.take(i + 1));
            i = i + 1;
        }
        assert(stages@ =~= self.completed_stages@);
        WorkflowInstance {
            workflow_id: self.workflow_id.clone(),
            client_id: self.client_id.clone(),
            current_stage: self.current_stage,
            stage_started_at: self.stage_started_at,
            stage_sla_hours: self.stage_sla_hours,
            completed_stages: stages,
            pending_tasks: copy_strings(&self.pending_tasks),
            assigned_officers: copy_strings(&self.assigned_officers),
            escalated: self.escalated,
            escalation_reason: match &self.escalation_reason {
                Some(m) => Some(m.clone()),
                None => None,
            },
        }
    }
}

/// Whether `w` is the workflow opened for a client at time `now`, with a
/// total service level of `sla_hours` spread over the initial stages.
pub open spec fn is_new_workflow(w: WorkflowInstance, client_id: Seq<char>, sla_hours: u32, now: u64) -> bool {
    &&& w.workflow_id@ == workflow_id_of(client_id)
    &&& w.client_id@ == client_id
    &&& w.current_stage == OnboardingStatus::DocumentCollection
    &&& w.stage_started_at == now
    &&& w.stage_sla_hours == sla_hours / 7
    &&& w.completed_stages@.len() == 0
    &&& texts(w.pending_tasks@) == initial_task_names()
    &&& w.assigned_officers@.len() == 0
    &&& !w.escalated
    &&& w.escalation_reason is None
}

/// The workflow opened for a client at time `now`: at document collection,
/// with one pending task per initial stage and the total service level
/// divided evenly over those stages.
pub fn new_workflow(client_id: &str, onboarding_sla_hours: u32, now: u64) -> (r: WorkflowInstance)
    ensures
        is_new_workflow(r, client_id@, onboarding_sla_hours, now),
{
    let stages = initial_stage_list();
    let mut tasks: Vec<String> = Vec::new();
    let mut i: usize = 0;
    while i < stages.len()
        invariant
            stages@ == initial_stages(),
            i <= stages@.len(),
            tasks@.len() == i,
            forall|j: int| 0 <= j < i ==> #[trigger] tasks@[j]@ == stages@[j].spec_name(),
        decreases stages@.len() - i,
    {
        let name = stages[i].name();
        tasks.push(name);
        i = i + 1;
    }
    assert(texts(tasks@) =~= initial_task_names());
    let n: u32 = 7;
    WorkflowInstance {
        workflow_id: workflow_id_for(client_id),
        client_id: owned(client_id),
        current_stage: OnboardingStatus::DocumentCollection,
        stage_started_at: now,
        stage_sla_hours: onboarding_sla_hours / n,
        completed_stages: Vec::new(),
        pending_tasks: tasks,
        assigned_officers: Vec::new(),
        escalated: false,
        escalation_reason: None,
    }
}

/// Whether the workflow at index `i` of `s` has the identifier `id`.
pub open spec fn holds_id(s: Seq<WorkflowInstance>, id: Seq<char>, i: int) -> bool {
    0 <= i < s.len() && s[i].workflow_id@ == id
}

/// Whether some workflow of `s` has the identifier `id`.
pub open spec fn has_id(s: Seq<WorkflowInstance>, id: Seq<char>) -> bool {
    exists|i: int| holds_id(s, id, i)
}

/// Whether no two workflows of `s` share an identifier.
pub open spec fn ids_unique(s: Seq<WorkflowInstance>) -> bool {
    forall|i: int, j: int| 0 <= i < j < s.len() ==> s[i].workflow_id@ != s[j].workflow_id@
}

/// The record of a closed stage: the stage that was current, when it
/// started, when it was closed, by whom, how, and with what notes.
pub open spec fn is_stage_record(
    c: CompletedStage,
    stage: OnboardingStatus,
    started_at: u64,
    now: u64,
    officer: Seq<char>,
    outcome: StageOutcome,
    notes: Seq<char>,
) -> bool {
    &&& c.stage == stage
    &&& c.started_at == started_at
    &&& c.completed_at == now
    &&& c.officer@ == officer
    &&& c.outcome == outcome
    &&& c.notes@ == notes
}

/// Whether `w2` is `w` moved on to `new_stage` at `now`: the stage that
/// was current is appended to the completed stages, and nothing else but
/// the current stage and its start changes.
pub open spec fn is_advanced(
    w2: WorkflowInstance,
    w: WorkflowInstance,
    new_stage: OnboardingStatus,
    officer: Seq<char>,
    outcome: StageOutcome,
    notes: Seq<char>,
    now: u64,
) -> bool {
    &&& w2.workflow_id == w.workflow_id
    &&& w2.client_id == w.client_id
    &&& w2.current_stage == new_stage
    &&& w2.stage_started_at == now
    &&& w2.stage_sla_hours == w.stage_sla_hours
    &&& w2.completed_stages@.len() == w.completed_stages@.len() + 1
    &&& w2.completed_stages@.drop_last() == w.completed_stages@
    &&& is_stage_record(w2.completed_stages@.last(), w.current_stage, w.stage_started_at, now, officer, outcome, notes)
    &&& w2.pending_tasks == w.pending_tasks
    &&& w2.assigned_officers == w.assigned_officers
    &&& w2.escalated == w.escalated
    &&& w2.escalation_reason == w.escalation_reason
}

/// Whether the current stage of `w` has run longer than its service level
/// at time `now`.
pub open spec fn is_overdue(w: WorkflowInstance, now: u64) -> bool {
    now - w.stage_started_at > w.stage_sla_hours * 3600
}

/// The reason recorded when a stage overruns its service level.
pub open spec fn breach_reason(w: WorkflowInstance) -> Seq<char> {
    "SLA breach: stage "@ + w.current_stage.spec_name() + " exceeded "@ + decimal(w.stage_sla_hours as nat) + " hours"@
}

/// Whether `w2` is `w` after the service-level check at `now`: an overdue
/// stage not yet escalated is escalated with the breach reason; any other
/// workflow is left as it is.
pub open spec fn is_checked(w2: WorkflowInstance, w: WorkflowInstance, now: u64) -> bool {
    if is_overdue(w, now) && !w.escalated {
        &&& w2.workflow_id == w.workflow_id
        &&& w2.client_id == w.client_id
        &&& w2.current_stage == w.current_stage
        &&& w2.stage_started_at == w.stage_started_at
        &&& w2.stage_sla_hours == w.stage_sla_hours
        &&& w2.completed_stages == w.completed_stages
        &&& w2.pending_tasks == w.pending_tasks
        &&& w2.assigned_officers == w.assigned_officers
        &&& w2.escalated
        &&& w2.escalation_reason matches Some(m) && m@ == breach_reason(w)
    } else {
        w2 == w
    }
}

/// Whether the list `b` is the list `a` after the service-level check at
/// `now`, workflow by workflow.
pub open spec fn is_checked_all(b: Seq<WorkflowInstance>, a: Seq<WorkflowInstance>, now: u64) -> bool {
    &&& b.len() == a.len()
    &&& forall|i: int| 0 <= i < a.len() ==> #[trigger] is_checked(b[i], a[i], now)
}

/// The onboarding workflows: those under way, keyed by workflow
/// identifier, and those that ended.
pub struct WorkflowEngine {
    active_workflows: Vec<WorkflowInstance>,
    completed_workflows: Vec<WorkflowInstance>,
}

/// The index of the workflow with identifier `id`, if any.
fn position(v: &Vec<WorkflowInstance>, id: &String) -> (r: Option<usize>)
    ensures
        match r {
            Some(i) => holds_id(v@, id@, i as int),
            None => !has_id(v@, id@),
        },
{
    let mut i: usize = 0;
    while i < v.len()
        invariant
            i <= v@.len(),
            forall|j: int| 0 <= j < i ==> v@[j].workflow_id@ != id@,
        decreases v@.len() - i,
    {
        if v[i].workflow_id == *id {
            return Some(i);
        }
        i = i + 1;
    }
    assert forall|j: int| !holds_id(v@, id@, j) by {}
    None
}

impl WorkflowEngine {
    #[verifier::type_invariant]
    closed spec fn inv(&self) -> bool {
        ids_unique(self.active_workflows@)
    }

    /// The workflows under way.
    pub closed spec fn active(&self) -> Seq<WorkflowInstance> {
        self.active_workflows@
    }

    /// The workflows that ended, oldest first.
    pub closed spec fn completed(&self) -> Seq<WorkflowInstance> {
        self.completed_workflows@
    }

    /// The workflows under way.
    pub fn active_workflows(&self) -> (r: &Vec<WorkflowInstance>)
        ensures
            r@ == self.active(),
            ids_unique(self.active()),
    {
        proof {
            use_type_invariant(self);
        }
        &self.active_workflows
    }

    /// The workflows that ended, oldest first.
    pub fn completed_workflows(&self) -> (r: &Vec<WorkflowInstance>)
        ensures
            r@ == self.completed(),
    {
        &self.completed_workflows
    }

    /// The number of workflows under way.
    pub fn active_count(&self) -> (r: usize)
        ensures
            r == self.active().len(),
    {
        self.active_workflows.len()
    }

    /// Opens the workflow of a client at time `now`. A workflow already
    /// open under the same identifier is replaced in place.
    pub fn create_workflow(&mut self, client_id: &str, onboarding_sla_hours: u32, now: u64)
        ensures
            ids_unique(final(self).active()),
            final(self).completed() == old(self).completed(),
            has_id(old(self).active(), workflow_id_of(client_id@)) ==> (forall|i: int|
                holds_id(old(self).active(), workflow_id_of(client_id@), i) ==> {
                    &&& final(self).active().len() == old(self).active().len()
                    &&& is_new_workflow(final(self).active()[i], client_id@, onboarding_sla_hours, now)
                    &&& forall|j: int| 0 <= j < old(self).active().len() && j != i ==> final(self).active()[j] == old(self).active()[j]
                }),
            !has_id(old(self).active(), workflow_id_of(client_id@)) ==> {
                &&& final(self).active().len() == old(self).active().len() + 1
                &&& final(self).active().drop_last() == old(self).active()
                &&& is_new_workflow(final(self).active().last(), client_id@, onboarding_sla_hours, now)
            },
    {
        proof {
            use_type_invariant(&*self);
        }
        let w = new_workflow(client_id, onboarding_sla_hours, now);
        let id = workflow_id_for(client_id);
        let mut v: Vec<WorkflowInstance> = Vec::new();
        std::mem::swap(&mut v, &mut self.active_workflows);
        let ghost before = v@;
        match position(&v, &id) {
            Some(i) => {
                let _replaced = v.remove(i);
                v.insert(i, w);
                proof {
                    assert(v@ =~= before.update(i as int, v@[i as int]));
                    assert forall|j: int| 0 <= j < v@.len() implies #[trigger] v@[j].workflow_id@ == before[j].workflow_id@ by {}
                }
            },
            None => {
                v.push(w);
                proof {
                    assert(v@.drop_last() =~= before);
                    assert forall|j: int| 0 <= j < before.len() implies #[trigger] v@[j].workflow_id@ != v@.last().workflow_id@ by {
                        assert(!holds_id(before, id@, j));
                    }
                }
            },
        }
        self.active_workflows = v;
    }

    /// Moves the workflow of a client on to `new_stage` at time `now`,
    /// closing the stage that was current with the officer, outcome and
    /// notes. A workflow that reaches activation or rejection leaves the
    /// workflows under way and joins those that ended. Returns the stage
    /// the client's own record takes: the new stage while the workflow is
    /// still under way, and nothing when there was no such workflow or it
    /// has just ended.
    pub fn advance_stage(
        &mut self,
        client_id: &str,
        new_stage: OnboardingStatus,
        officer: &str,
        outcome: StageOutcome,
        notes: String,
        now: u64,
    ) -> (r: Option<OnboardingStatus>)
        ensures
            ids_unique(final(self).active()),
            final(self).active().len() + final(self).completed().len()
                == old(self).active().len() + old(self).completed().len(),
            !has_id(old(self).active(), workflow_id_of(client_id@)) ==> {
                &&& r is None
                &&& final(self).active() == old(self).active()
                &&& final(self).completed() == old(self).completed()
            },
            forall|i: int| holds_id(old(self).active(), workflow_id_of(client_id@), i) ==> {
                if new_stage.spec_is_terminal() {
                    &&& r is None
                    &&& final(self).active() == old(self).active().remove(i)
                    &&& !has_id(final(self).active(), workflow_id_of(client_id@))
                    &&& final(self).completed().len() == old(self).completed().len() + 1
                    &&& final(self).completed().drop_last() == old(self).completed()
                    &&& is_advanced(final(self).completed().last(), old(self).active()[i], new_stage, officer@, outcome, notes@, now)
                } else {
                    &&& r == Some(new_stage)
                    &&& final(self).active().len() == old(self).active().len()
                    &&& is_advanced(final(self).active()[i], old(self).active()[i], new_stage, officer@, outcome, notes@, now)
                    &&& forall|j: int| 0 <= j < old(self).active().len() && j != i ==> final(self).active()[j] == old(self).active()[j]
                    &&& final(self).completed() == old(self).completed()
                }
            },
    {
        proof {
            use_type_invariant(&*self);
        }
        let id = workflow_id_for(client_id);
        match position(&self.active_workflows, &id) {
            None => None,
            Some(i) => {
                let mut v: Vec<WorkflowInstance> = Vec::new();
                std::mem::swap(&mut v, &mut self.active_workflows);
                let ghost before = v@;
                let mut w = v.remove(i);
                let ghost w0 = w;
                let record = CompletedStage {
                    stage: w.current_stage,
                    started_at: w.stage_started_at,
                    completed_at: now,
                    officer: owned(officer),
                    outcome: outcome,
                    notes: notes,
                };
                w.completed_stages.push(record);
                w.current_stage = new_stage;
                w.stage_started_at = now;
                proof {
                    assert(w.completed_stages@.drop_last() =~= w0.completed_stages@);
                }
                if new_stage.is_terminal() {
                    proof {
                        assert forall|a: int, b: int| 0 <= a < b < v@.len() implies v@[a].workflow_id@ != v@[b].workflow_id@ by {
                            let a0 = if a < i { a } else { a + 1 };
                            let b0 = if b < i { b } else { b + 1 };
                            assert(v@[a] == before[a0]);
                            assert(v@[b] == before[b0]);
                        }
                        assert forall|j: int| !holds_id(v@, id@, j) by {
                            if 0 <= j < v@.len() {
                                let j0 = if j < i { j } else { j + 1 };
                                assert(v@[j] == before[j0]);
                            }
                        }
                    }
                    self.active_workflows = v;
                    let ghost done_before = self.completed_workflows@;
                    let mut done: Vec<WorkflowInstance> = Vec::new();
                    std::mem::swap(&mut done, &mut self.completed_workflows);
                    done.push(w);
                    proof {
                        assert(done@.drop_last() =~= done_before);
                    }
                    self.completed_workflows = done;
                    None
                } else {
                    v.insert(i, w);
                    proof {
                        assert(v@ =~= before.update(i as int, v@[i as int]));
                        assert forall|j: int| 0 <= j < v@.len() implies #[trigger] v@[j].workflow_id@ == before[j].workflow_id@ by {}
                    }
                    self.active_workflows = v;
                    Some(new_stage)
                }
            },
        }
    }

    /// Escalates, at time `now`, every workflow whose current stage has run
    /// longer than its service level and that is not escalated yet,
    /// recording the breach as the reason.
    pub fn escalate_overdue(&mut self, now: u64)
        requires
            forall|i: int| 0 <= i < old(self).active().len() ==> #[trigger] old(self).active()[i].stage_started_at <= now,
        ensures
            ids_unique(final(self).active()),
            is_checked_all(final(self).active(), old(self).active(), now),
            final(self).completed() == old(self).completed(),
    {
        proof {
            use_type_invariant(&*self);
        }
        let mut v: Vec<WorkflowInstance> = Vec::new();
        std::mem::swap(&mut v, &mut self.active_workflows);
        let ghost before = v@;
        assert forall|j: int| 0 <= j < before.len() implies #[trigger] before[j].stage_started_at <= now by {
            assert(before[j] == old(self).active()[j]);
        }
        let mut i: usize = 0;
        while i < v.len()
            invariant
                v@.len() == before.len(),
                i <= v@.len(),
                ids_unique(before),
                forall|j: int| 0 <= j < before.len() ==> #[trigger] before[j].stage_started_at <= now,
                forall|j: int| 0 <= j < i ==> #[trigger] is_checked(v@[j], before[j], now),
                forall|j: int| i <= j < v@.len() ==> #[trigger] v@[j] == before[j],
                forall|j: int| 0 <= j < v@.len() ==> #[trigger] v@[j].workflow_id@ == before[j].workflow_id@,
            decreases v@.len() - i,
        {
            let ghost mid = v@;
            let mut w = v.remove(i);
            assert(w == before[i as int]);
            let elapsed: u64 = now - w.stage_started_at;
            let sla_seconds: u64 = w.stage_sla_hours as u64 * 3600;
            if elapsed > sla_seconds && !w.escalated {
                let mut reason = owned("SLA breach: stage ");
                let stage_name = w.current_stage.name();
                push_str(&mut reason, stage_name.as_str());
                push_str(&mut reason, " exceeded ");
                push_decimal(&mut reason, w.stage_sla_hours as u64);
                push_str(&mut reason, " hours");
                w.escalated = true;
                w.escalation_reason = Some(reason);
            }
            v.insert(i, w);
            proof {
                assert(v@ =~= mid.update(i as int, v@[i as int]));
            }
            i = i + 1;
        }
        proof {
            assert forall|a: int, b: int| 0 <= a < b < v@.len() implies v@[a].workflow_id@ != v@[b].workflow_id@ by {
                assert(v@[a].workflow_id@ == before[a].workflow_id@);
                assert(v@[b].workflow_id@ == before[b].workflow_id@);
            }
        }
        self.active_workflows = v;
    }

    /// The workflow of a client while it is under way.
    pub fn get_workflow(&self, client_id: &str) -> (r: Option<WorkflowInstance>)
        ensures
            match r {
                Some(w) => exists|i: int| holds_id(self.active(), workflow_id_of(client_id@), i) && w.same_as(&self.active()[i]),
                None => !has_id(self.active(), workflow_id_of(client_id@)),
            },
    {
        let id = workflow_id_for(client_id);
        match position(&self.active_workflows, &id) {
            Some(i) => {
                let w = self.active_workflows[i].duplicate();
                assert(holds_id(self.active(), workflow_id_of(client_id@), i as int));
                Some(w)
            },
            None => None,
        }
    }
}

/// Running the service-level check twice at the same time changes nothing
/// the second time: an escalated workflow is never escalated again, and a
/// workflow the first check left alone is left alone again.
pub proof fn lemma_check_idempotent(a: Seq<WorkflowInstance>, b: Seq<WorkflowInstance>, c: Seq<WorkflowInstance>, now: u64)
    requires
        is_checked_all(b, a, now),
        is_checked_all(c, b, now),
    ensures
        c == b,
{
    assert forall|i: int| 0 <= i < b.len() implies c[i] == b[i] by {
        assert(is_checked(b[i], a[i], now));
        assert(is_checked(c[i], b[i], now));
    }
    assert(c =~= b);
}

impl Default for WorkflowEngine {
    /// No workflows at all.
    fn default() -> (r: WorkflowEngine)
        ensures
            r.active().len() == 0,
            r.completed().len() == 0,
    {
        WorkflowEngine { active_workflows: Vec::new(), completed_workflows: Vec::new() }
    }
}

/// A postal address.
#[derive(Debug, Clone)]
pub struct Address {
    pub line1: String,
    pub line2: Option<String>,
    pub city: String,
    pub state: Option<String>,
    pub postal_code: String,
    pub country: String,
}

/// The address a new client starts with: empty but for the country, which
/// is the client's jurisdiction.
pub fn blank_address(country: &str) -> (r: Address)
    ensures
        r.line1@.len() == 0,
        r.line2 is None,
        r.city@.len() == 0,
        r.state is None,
        r.postal_code@.len() == 0,
        r.country@ == country@,
{
    Address {
        line1: String::new(),
        line2: None,
        city: String::new(),
        state: None,
        postal_code: String::new(),
        country: owned(country),
    }
}

/// How a client's settlements are netted.
#[derive(Debug, Clone, Copy, PartialEq, Eq, Structural)]
pub enum NettingPreference {
    Gross,
    NetByCurrency,
    NetByCounterparty,
    FullNetting,
}

/// A client's standing settlement instructions.
#[derive(Debug, Clone)]
pub struct ClientSettlementInstructions {
    pub default_custodian: String,
    pub settlement_cycle: String,
    pub dvp_enabled: bool,
    pub pvp_enabled: bool,
    pub netting_preference: NettingPreference,
    pub fail_tolerance_days: u32,
    pub cash_sweep_enabled: bool,
    pub collateral_management: bool,
    pub tax_reclaim_service: bool,
}

/// The settlement instructions a new client starts with: no custodian yet,
/// T+1, delivery and payment versus payment, netting by currency, three
/// days of fail tolerance, and every service switched on.
pub fn initial_settlement_instructions() -> (r: ClientSettlementInstructions)
    ensures
        r.default_custodian@.len() == 0,
        r.settlement_cycle@ == "T+1"@,
        r.dvp_enabled,
        r.pvp_enabled,
        r.netting_preference == NettingPreference::NetByCurrency,
        r.fail_tolerance_days == 3,
        r.cash_sweep_enabled,
        r.collateral_management,
        r.tax_reclaim_service,
{
    ClientSettlementInstructions {
        default_custodian: String::new(),
        settlement_cycle: owned("T+1"),
        dvp_enabled: true,
        pvp_enabled: true,
        netting_preference: NettingPreference::NetByCurrency,
        fail_tolerance_days: 3,
        cash_sweep_enabled: true,
        collateral_management: true,
        tax_reclaim_service: true,
    }
}

/// Where a client's money comes from.
#[derive(Debug, Clone, PartialEq, Eq)]
pub enum FundSource {
    OperatingRevenue,
    InvestmentReturns,
    CapitalContributions,
    DonationsGrants,
    GovernmentFunding,
    AssetSales,
    Borrowings,
    CryptoProceeds,
    Other(String),
}

/// A client's declared source of funds.
#[derive(Debug, Clone)]
pub struct SourceOfFunds {
    pub primary_source: FundSource,
    pub secondary_sources: Vec<FundSource>,
    pub expected_inflows_usd_monthly: u64,
    pub expected_outflows_usd_monthly: u64,
    pub fund_flow_description: String,
    pub supporting_documents: Vec<String>,
}

/// The source of funds a new client starts with: operating revenue, with
/// monthly inflows and outflows each a tenth of the expected monthly volume.
pub fn initial_source_of_funds(expected_monthly_volume_usd: u64) -> (r: SourceOfFunds)
    ensures
        r.primary_source == FundSource::OperatingRevenue,
        r.secondary_sources@.len() == 0,
        r.expected_inflows_usd_monthly == expected_monthly_volume_usd / 10,
        r.expected_outflows_usd_monthly == expected_monthly_volume_usd / 10,
        r.fund_flow_description@.len() == 0,
        r.supporting_documents@.len() == 0,
{
    SourceOfFunds {
        primary_source: FundSource::OperatingRevenue,
        secondary_sources: Vec::new(),
        expected_inflows_usd_monthly: expected_monthly_volume_usd / 10,
        expected_outflows_usd_monthly: expected_monthly_volume_usd / 10,
        fund_flow_description: String::new(),
        supporting_documents: Vec::new(),
    }
}

/// A custodian the platform can open accounts with.
#[derive(Debug, Clone)]
pub struct CustodianConfig {
    pub custodian_id: String,
    pub name: String,
    pub api_endpoint: String,
    pub supported_markets: Vec<String>,
    pub settlement_systems: Vec<String>,
    pub fee_bps: u32,
    pub enabled: bool,
}

/// Whether `c` is the custodian with these fields.
pub open spec fn is_custodian(
    c: CustodianConfig,
    id: Seq<char>,
    name: Seq<char>,
    endpoint: Seq<char>,
    markets: Seq<Seq<char>>,
    systems: Seq<Seq<char>>,
    fee_bps: u32,
) -> bool {
    &&& c.custodian_id@ == id
    &&& c.name@ == name
    &&& c.api_endpoint@ == endpoint
    &&& texts(c.supported_markets@) == markets
    &&& texts(c.settlement_systems@) == systems
    &&& c.fee_bps == fee_bps
    &&& c.enabled
}

/// A list of owned strings from literals.
fn strings(items: &[&str]) -> (r: Vec<String>)
    ensures
        texts(r@) == items@.map_values(|t: &str| t@),
{
    let mut out: Vec<String> = Vec::new();
    let mut i: usize = 0;
    while i < items.len()
        invariant
            i <= items@.len(),
            out@.len() == i,
            forall|k: int| 0 <= k < i ==> #[trigger] out@[k]@ == items@[k]@,
        decreases items@.len() - i,
    {
        out.push(owned(items[i]));
        i = i + 1;
    }
    assert(texts(out@) =~= items@.map_values(|t: &str| t@));
    out
}

/// The custodians configured by default: BNY Mellon and State Street.
pub fn default_custodian_integrations() -> (r: Vec<CustodianConfig>)
    ensures
        r@.len() == 2,
        is_custodian(r@[0], "BNY_MELLON"@, "BNY Mellon"@, "https://api.bnymellon.com/custody"@,
            seq!["US"@, "EU"@, "UK"@, "APAC"@], seq!["DTCC"@, "Euroclear"@, "Clearstream"@], 1),
        is_custodian(r@[1], "STATE_STREET"@, "State Street"@, "https://api.statestreet.com/custody"@,
            seq!["US"@, "EU"@, "UK"@], seq!["DTCC"@, "Euroclear"@], 2),
{
    let bny_markets = strings(&["US", "EU", "UK", "APAC"]);
    let bny_systems = strings(&["DTCC", "Euroclear", "Clearstream"]);
    let ss_markets = strings(&["US", "EU", "UK"]);
    let ss_systems = strings(&["DTCC", "Euroclear"]);
    let bny = CustodianConfig {
        custodian_id: owned("BNY_MELLON"),
        name: owned("BNY Mellon"),
        api_endpoint: owned("https://api.bnymellon.com/custody"),
        supported_markets: bny_markets,
        settlement_systems: bny_systems,
        fee_bps: 1,
        enabled: true,
    };
    let ss = CustodianConfig {
        custodian_id: owned("STATE_STREET"),
        name: owned("State Street"),
        api_endpoint: owned("https://api.statestreet.com/custody"),
        supported_markets: ss_markets,
        settlement_systems: ss_systems,
        fee_bps: 2,
        enabled: true,
    };
    proof {
        assert(texts(bny.supported_markets@) =~= seq!["US"@, "EU"@, "UK"@, "APAC"@]);
        assert(texts(bny.settlement_systems@) =~= seq!["DTCC"@, "Euroclear"@, "Clearstream"@]);
        assert(texts(ss.supported_markets@) =~= seq!["US"@, "EU"@, "UK"@]);
        assert(texts(ss.settlement_systems@) =~= seq!["DTCC"@, "Euroclear"@]);
    }
    vec![bny, ss]
}

/// The platform's default settlement configuration.
#[derive(Debug, Clone)]
pub struct SettlementConfig {
    pub default_settlement_cycle: String,
    pub supported_currencies: Vec<String>,
    pub dvp_enabled: bool,
    pub pvp_enabled: bool,
    pub netting_enabled: bool,
    pub fail_management_auto: bool,
}

/// The settlement configuration by default: T+1 in USD, EUR, GBP, JPY and
/// AED, with every mechanism switched on.
pub fn default_settlement_config() -> (r: SettlementConfig)
    ensures
        r.default_settlement_cycle@ == "T+1"@,
        texts(r.supported_currencies@) == seq!["USD"@, "EUR"@, "GBP"@, "JPY"@, "AED"@],
        r.dvp_enabled,
        r.pvp_enabled,
        r.netting_enabled,
        r.fail_management_auto,
{
    let currencies = strings(&["USD", "EUR", "GBP", "JPY", "AED"]);
    proof {
        assert(texts(currencies@) =~= seq!["USD"@, "EUR"@, "GBP"@, "JPY"@, "AED"@]);
    }
    SettlementConfig {
        default_settlement_cycle: owned("T+1"),
        supported_currencies: currencies,
        dvp_enabled: true,
        pvp_enabled: true,
        netting_enabled: true,
        fail_management_auto: true,
    }
}

/// The index of the first enabled custodian with the given identifier.
pub fn find_enabled_custodian(configs: &[CustodianConfig], custodian_id: &str) -> (r: Option<usize>)
    ensures
        match r {
            Some(i) => {
                &&& i < configs@.len()
                &&& configs@[i as int].custodian_id@ == custodian_id@
                &&& configs@[i as int].enabled
                &&& forall|j: int| 0 <= j < i ==> !(configs@[j].custodian_id@ == custodian_id@ && configs@[j].enabled)
            },
            None => forall|j: int| 0 <= j < configs@.len() ==> !(configs@[j].custodian_id@ == custodian_id@ && configs@[j].enabled),
        },
{
    let mut i: usize = 0;
    while i < configs.len()
        invariant
            i <= configs@.len(),
            forall|j: int| 0 <= j < i ==> !(configs@[j].custodian_id@ == custodian_id@ && configs@[j].enabled),
        decreases configs@.len() - i,
    {
        if configs[i].enabled && str_eq(configs[i].custodian_id.as_str(), custodian_id) {
            return Some(i);
        }
        i = i + 1;
    }
    None
}

/// The tax services of a custodian account.
#[derive(Debug, Clone, Copy)]
pub struct TaxServices {
    pub withholding_tax_reclaim: bool,
    pub tax_reporting: bool,
    pub certificate_management: bool,
    pub treaty_benefits: bool,
}

/// The corporate-action services of a custodian account.
#[derive(Debug, Clone, Copy)]
pub struct CorporateActionServices {
    pub mandatory_actions: bool,
    pub voluntary_actions: bool,
    pub voting_rights: bool,
    pub dividend_processing: bool,
}

/// The services a new custodian account comes with: every tax and
/// corporate-action service switched on.
pub fn full_custody_services() -> (r: (TaxServices, CorporateActionServices))
    ensures
        r.0.withholding_tax_reclaim && r.0.tax_reporting && r.0.certificate_management && r.0.treaty_benefits,
        r.1.mandatory_actions && r.1.voluntary_actions && r.1.voting_rights && r.1.dividend_processing,
{
    (
        TaxServices { withholding_tax_reclaim: true, tax_reporting: true, certificate_management: true, treaty_benefits: true },
        CorporateActionServices { mandatory_actions: true, voluntary_actions: true, voting_rights: true, dividend_processing: true },
    )
}

} // verus!
