use vstd::prelude::*;

use crate::principal::Principal;

verus! {

// ============== Roles and permissions ==============

/// A role held by a principal; a principal may hold several at once.
#[derive(Clone, Copy, Debug, PartialEq, Eq, Structural)]
pub enum Role {
    Owner,
    Operator,
    Viewer,
}

/// A capability derived from roles, never stored directly.
#[derive(Clone, Copy, Debug, PartialEq, Eq, Structural)]
pub enum Permission {
    /// Request actions.
    Execute,
    /// Modify settings.
    Configure,
    /// Read the audit trail.
    ViewLogs,
    /// Sign pending requests.
    Sign,
    /// Pause and resume the system.
    Emergency,
}

/// The fixed role-to-permission table: an owner holds every permission, an
/// operator may execute, sign and read logs, a viewer may only read logs.
pub open spec fn grants(role: Role, permission: Permission) -> bool {
    match role {
        Role::Owner => true,
        Role::Operator => permission == Permission::Execute || permission == Permission::Sign
            || permission == Permission::ViewLogs,
        Role::Viewer => permission == Permission::ViewLogs,
    }
}

/// A record of one role grant, for administration.
#[derive(Clone, Copy, Debug)]
pub struct RoleAssignment {
    pub principal: Principal,
    pub role: Role,
    pub assigned_at: u64,
    pub assigned_by: Principal,
}

// ============== Policies ==============

/// A named, prioritized rule; a smaller `priority` takes precedence.
#[derive(Clone, Debug)]
pub struct Policy {
    pub name: String,
    pub conditions: Vec<Condition>,
    pub action: PolicyAction,
    pub priority: u32,
}

/// One test that a policy applies to an action; a policy's conditions are
/// combined with a logical AND.
#[derive(Clone, Debug)]
pub enum Condition {
    /// The action's amount is at most this.
    MaxAmount(u64),
    /// The action's amount is at least this.
    MinAmount(u64),
    /// The amount already spent today plus the action's amount is at most this.
    DailyLimit(u64),
    /// Every token the action touches is in this list.
    AllowedTokens(Vec<String>),
    /// The action's chain is in this list.
    AllowedChains(Vec<String>),
    /// Allowed hours; only a window whose start lies after its end rejects.
    TimeWindow { start: u64, end: u64 },
    /// Seconds between operations; no execution history is kept, so it always passes.
    Cooldown(u64),
}

/// What a matching policy decides.
#[derive(Clone, Debug)]
pub enum PolicyAction {
    Allow,
    Deny,
    RequireThreshold { required: u8, from_roles: Vec<Role> },
}

// ============== Actions ==============

/// A requested blockchain operation. Amounts are in the chain's smallest unit.
#[derive(Debug)]
pub enum Action {
    Swap {
        chain: String,
        token_in: String,
        token_out: String,
        amount_in: u64,
        min_amount_out: u64,
        fee_tier: Option<u32>,
    },
    Transfer { chain: String, token: String, to: String, amount: u64 },
    ApproveToken { chain: String, token: String, spender: String, amount: u64 },
}

/// The amount an action moves.
pub open spec fn action_amount(action: Action) -> u64 {
    match action {
        Action::Swap { amount_in, .. } => amount_in,
        Action::Transfer { amount, .. } => amount,
        Action::ApproveToken { amount, .. } => amount,
    }
}

/// The chain an action runs on.
pub open spec fn action_chain(action: Action) -> Seq<char> {
    match action {
        Action::Swap { chain, .. } => chain@,
        Action::Transfer { chain, .. } => chain@,
        Action::ApproveToken { chain, .. } => chain@,
    }
}

/// Whether `s` occurs in `list`.
pub open spec fn list_has(list: Seq<String>, s: Seq<char>) -> bool {
    exists|i: int| 0 <= i < list.len() && #[trigger] list[i]@ == s
}

/// The tokens an action references: both legs of a swap, else its one token.
pub open spec fn action_tokens(action: Action) -> Seq<Seq<char>> {
    match action {
        Action::Swap { token_in, token_out, .. } => seq![token_in@, token_out@],
        Action::Transfer { token, .. } => seq![token@],
        Action::ApproveToken { token, .. } => seq![token@],
    }
}

/// Whether every token the action references is in `allowed`.
pub open spec fn tokens_allowed(allowed: Seq<String>, action: Action) -> bool {
    forall|i: int|
        0 <= i < action_tokens(action).len() ==> list_has(allowed, #[trigger] action_tokens(action)[i])
}

/// Whether one condition passes for `action` given what was spent today.
pub open spec fn condition_holds(condition: Condition, action: Action, daily_spent: u64) -> bool {
    match condition {
        Condition::MaxAmount(max) => action_amount(action) <= max,
        Condition::MinAmount(min) => action_amount(action) >= min,
        Condition::DailyLimit(limit) => daily_spent + action_amount(action) <= limit,
        Condition::AllowedTokens(tokens) => tokens_allowed(tokens@, action),
        Condition::AllowedChains(chains) => list_has(chains@, action_chain(action)),
        Condition::TimeWindow { start, end } => start <= end,
        Condition::Cooldown(_) => true,
    }
}

/// Whether every condition of `policy` passes.
pub open spec fn policy_matches(policy: Policy, action: Action, daily_spent: u64) -> bool {
    forall|i: int|
        0 <= i < policy.conditions@.len() ==> #[trigger] condition_holds(
            policy.conditions@[i],
            action,
            daily_spent,
        )
}

/// The decision a policy's action maps to.
pub open spec fn decision_of(action: PolicyAction) -> PolicyDecision {
    match action {
        PolicyAction::Allow => PolicyDecision::Allowed,
        PolicyAction::Deny => PolicyDecision::Denied,
        PolicyAction::RequireThreshold { .. } => PolicyDecision::RequiresThreshold,
    }
}

impl Clone for Action {
    fn clone(&self) -> (r: Self)
        ensures
            r == *self,
    {
        match self {
            Action::Swap { chain, token_in, token_out, amount_in, min_amount_out, fee_tier } => {
                Action::Swap {
                    chain: chain.clone(),
                    token_in: token_in.clone(),
                    token_out: token_out.clone(),
                    amount_in: *amount_in,
                    min_amount_out: *min_amount_out,
                    fee_tier: *fee_tier,
                }
            },
            Action::Transfer { chain, token, to, amount } => Action::Transfer {
                chain: chain.clone(),
                token: token.clone(),
                to: to.clone(),
                amount: *amount,
            },
            Action::ApproveToken { chain, token, spender, amount } => Action::ApproveToken {
                chain: chain.clone(),
                token: token.clone(),
                spender: spender.clone(),
                amount: *amount,
            },
        }
    }
}

// ============== Threshold signing ==============

/// A multi-signature request opened when a policy demands approvals.
#[derive(Debug)]
pub struct PendingRequest {
    pub id: u64,
    pub action: Action,
    pub requester: Principal,
    pub created_at: u64,
    pub expires_at: u64,
    pub required_signatures: u8,
    pub collected_signatures: Vec<Signature>,
    pub status: RequestStatus,
}

/// A pending request as a mathematical value.
pub ghost struct RequestView {
    pub id: u64,
    pub action: Action,
    pub requester: Principal,
    pub created_at: u64,
    pub expires_at: u64,
    pub required_signatures: u8,
    pub signatures: Seq<Signature>,
    pub status: RequestStatus,
}

impl View for PendingRequest {
    type V = RequestView;

    open spec fn view(&self) -> RequestView {
        RequestView {
            id: self.id,
            action: self.action,
            requester: self.requester,
            created_at: self.created_at,
            expires_at: self.expires_at,
            required_signatures: self.required_signatures,
            signatures: self.collected_signatures@,
            status: self.status,
        }
    }
}

impl Clone for PendingRequest {
    fn clone(&self) -> (r: Self)
        ensures
            r@ == self@,
    {
        let mut signatures: Vec<Signature> = Vec::new();
        let mut i: usize = 0;
        while i < self.collected_signatures.len()
            invariant
                i <= self.collected_signatures@.len(),
                signatures@ == self.collected_signatures@.subrange(0, i as int),
            decreases self.collected_signatures@.len() - i,
        {
            signatures.push(self.collected_signatures[i]);
            i = i + 1;
            assert(signatures@ =~= self.collected_signatures@.subrange(0, i as int));
        }
        assert(signatures@ =~= self.collected_signatures@);
        PendingRequest {
            id: self.id,
            action: self.action.clone(),
            requester: self.requester,
            created_at: self.created_at,
            expires_at: self.expires_at,
            required_signatures: self.required_signatures,
            collected_signatures: signatures,
            status: self.status,
        }
    }
}

/// One approval of a pending request.
#[derive(Clone, Copy, Debug)]
pub struct Signature {
    pub signer: Principal,
    pub signed_at: u64,
}

/// Lifecycle of a pending request: `Pending` moves to `Approved`,
/// `Rejected` or `Expired`; `Approved` moves to `Executed`.
#[derive(Clone, Copy, Debug, PartialEq, Eq, Structural)]
pub enum RequestStatus {
    Pending,
    Approved,
    Executed,
    Expired,
    Rejected,
}

// ============== Audit trail ==============

/// The record of one authorization attempt and its eventual outcome.
#[derive(Debug)]
pub struct AuditEntry {
    pub id: u64,
    pub timestamp: u64,
    pub action_type: String,
    /// The action's parameters as a JSON object.
    pub action_params: String,
    pub requester: Principal,
    pub policy_result: PolicyResult,
    pub threshold_request_id: Option<u64>,
    pub execution_result: Option<ExecutionResult>,
}

impl Clone for AuditEntry {
    fn clone(&self) -> (r: Self)
        ensures
            r == *self,
    {
        AuditEntry {
            id: self.id,
            timestamp: self.timestamp,
            action_type: self.action_type.clone(),
            action_params: self.action_params.clone(),
            requester: self.requester,
            policy_result: self.policy_result.clone(),
            threshold_request_id: self.threshold_request_id,
            execution_result: match &self.execution_result {
                Some(e) => Some(e.clone()),
                None => None,
            },
        }
    }
}

/// The outcome of evaluating the policies for one action.
#[derive(Debug)]
pub struct PolicyResult {
    pub decision: PolicyDecision,
    pub matched_policy: Option<String>,
    pub reason: String,
}

impl Clone for PolicyResult {
    fn clone(&self) -> (r: Self)
        ensures
            r == *self,
    {
        PolicyResult {
            decision: self.decision,
            matched_policy: clone_text(&self.matched_policy),
            reason: self.reason.clone(),
        }
    }
}

/// What policy evaluation decided.
#[derive(Clone, Copy, Debug, PartialEq, Eq, Structural)]
pub enum PolicyDecision {
    Allowed,
    Denied,
    RequiresThreshold,
}

/// An executor's report of the on-chain outcome of an action.
#[derive(Debug)]
pub struct ExecutionResult {
    pub success: bool,
    pub chain: String,
    pub tx_hash: Option<String>,
    pub error: Option<String>,
}

impl Clone for ExecutionResult {
    fn clone(&self) -> (r: Self)
        ensures
            r == *self,
    {
        ExecutionResult {
            success: self.success,
            chain: self.chain.clone(),
            tx_hash: clone_text(&self.tx_hash),
            error: clone_text(&self.error),
        }
    }
}

fn clone_text(s: &Option<String>) -> (r: Option<String>)
    ensures
        r == *s,
{
    match s {
        Some(t) => Some(t.clone()),
        None => None,
    }
}

// ============== Responses and configuration ==============

/// What a request for an action came to.
#[derive(Clone, Debug)]
pub enum ActionResult {
    Executed(ExecutionResult),
    PendingSignatures(PendingRequest),
    Denied { reason: String },
}

/// Settings supplied once at start-up.
#[derive(Clone, Debug)]
pub struct ChainGuardConfig {
    pub name: String,
    pub default_threshold: ThresholdConfig,
    pub supported_chains: Vec<String>,
    pub policies: Vec<Policy>,
}

/// How many of how many approvers a threshold request needs.
#[derive(Clone, Copy, Debug)]
pub struct ThresholdConfig {
    pub required: u8,
    pub total: u8,
}

} // verus!
