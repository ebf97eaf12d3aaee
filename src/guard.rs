//! The coordinating state: permission checks in front of the policy
//! evaluator, the threshold workflow and the audit trail. Execution of an
//! approved action happens outside; its outcome is handed back here.

use vstd::prelude::*;

use crate::access_control::{
    AccessControl, evaluation_result, granted, is_first_match, revoked,
};
use crate::audit::{in_range, records, AuditLog, ENTRY_NOT_FOUND, RESULT_ALREADY_RECORDED};
use crate::principal::Principal;
use crate::threshold::{sign_transition, with_status, ThresholdSigner, DEFAULT_EXPIRY, REQUEST_NOT_FOUND};
use crate::types::{
    Action, AuditEntry, ChainGuardConfig, ExecutionResult, PendingRequest, Permission, Policy,
    PolicyAction, PolicyDecision, RequestStatus, RequestView, Role,
};

verus! {

/// Reason given when the system is paused or the caller may not execute.
pub const PAUSED_OR_UNAUTHORIZED: &'static str = "System is paused or no permission";

/// Reason given when the policies deny an action.
pub const POLICY_DENIED: &'static str = "Policy denied";

/// Error given when configuring twice.
pub const ALREADY_INITIALIZED: &'static str = "Already initialized";

/// Error given when someone other than an owner configures.
pub const OWNER_ONLY: &'static str = "Only owner can initialize";

/// Error given when a policy index names no policy.
pub const POLICY_NOT_FOUND: &'static str = "Policy not found";

/// Error given to a caller without the signing permission.
pub const NO_SIGN_PERMISSION: &'static str = "No sign permission";

/// Error given when executing a request that is not approved.
pub const REQUEST_NOT_APPROVED: &'static str = "Request not yet approved";

/// Error given to a caller without the emergency permission.
pub const NO_EMERGENCY_PERMISSION: &'static str = "No emergency permission";

/// What became of a requested action.
#[derive(Debug)]
pub enum Authorization {
    /// Refused; there is nothing to execute.
    Denied { reason: String },
    /// Waiting for approvals; the request is returned.
    PendingSignatures(PendingRequest),
    /// Allowed: the caller executes the action and reports the outcome
    /// against this audit entry.
    Execute { audit_id: u64 },
}

/// The whole engine: roles and policies, threshold requests, audit trail.
pub struct ChainGuardState {
    config: Option<ChainGuardConfig>,
    access_control: AccessControl,
    threshold_signer: ThresholdSigner,
    audit_log: AuditLog,
    paused: bool,
    daily_volume: u64,
}

impl ChainGuardState {
    pub closed spec fn access(&self) -> AccessControl {
        self.access_control
    }

    pub closed spec fn signer(&self) -> ThresholdSigner {
        self.threshold_signer
    }

    pub closed spec fn audit(&self) -> AuditLog {
        self.audit_log
    }

    pub closed spec fn paused_flag(&self) -> bool {
        self.paused
    }

    pub closed spec fn configured(&self) -> bool {
        self.config.is_some()
    }

    /// The amount counted as already spent today when policies are evaluated.
    pub closed spec fn spent_today(&self) -> u64 {
        self.daily_volume
    }

    /// Whether two states differ at most in the pause flag.
    pub open spec fn same_components(&self, other: Self) -> bool {
        &&& self.access() == other.access()
        &&& self.signer() == other.signer()
        &&& self.audit() == other.audit()
        &&& self.configured() == other.configured()
        &&& self.spent_today() == other.spent_today()
    }

    pub open spec fn wf(&self) -> bool {
        self.access().wf() && self.signer().wf() && self.audit().wf()
    }

    /// A fresh engine whose deployer is its only owner.
    pub fn new(deployer: Principal) -> (state: Self)
        ensures
            state.wf(),
            forall|p: Principal, r: Role| #[trigger] state.access().holds(p, r) <==> (p == deployer && r == Role::Owner),
            state.access().policy_list() == Seq::<Policy>::empty(),
            state.signer().requests() == Seq::<RequestView>::empty(),
            state.audit().entries() == Seq::<AuditEntry>::empty(),
            !state.paused_flag(),
            !state.configured(),
            state.spent_today() == 0,
    {
        let mut access_control = AccessControl::new();
        access_control.assign_role(deployer, Role::Owner);
        ChainGuardState {
            config: None,
            access_control,
            threshold_signer: ThresholdSigner::new(),
            audit_log: AuditLog::new(),
            paused: false,
            daily_volume: 0,
        }
    }

    /// Configures the engine once, by an owner: the configuration's policies
    /// are appended to the store.
    pub fn initialize(&mut self, caller: Principal, config: ChainGuardConfig) -> (result: Result<(), String>)
        requires
            old(self).wf(),
        ensures
            final(self).wf(),
            old(self).configured() ==> result is Err && result->Err_0@ == ALREADY_INITIALIZED@
                && *final(self) == *old(self),
            !old(self).configured() && !old(self).access().holds(caller, Role::Owner) ==> result is Err
                && result->Err_0@ == OWNER_ONLY@ && *final(self) == *old(self),
            !old(self).configured() && old(self).access().holds(caller, Role::Owner) ==> {
                &&& result is Ok
                &&& final(self).configured()
                &&& final(self).access().policy_list() == old(self).access().policy_list() + config.policies@
                &&& final(self).access().role_pairs() == old(self).access().role_pairs()
                &&& final(self).signer() == old(self).signer()
                &&& final(self).audit() == old(self).audit()
                &&& final(self).paused_flag() == old(self).paused_flag()
                &&& final(self).spent_today() == old(self).spent_today()
            },
    {
        if self.config.is_some() {
            return Err(String::from_str(ALREADY_INITIALIZED));
        }
        if !self.access_control.has_role(&caller, &Role::Owner) {
            return Err(String::from_str(OWNER_ONLY));
        }
        let stored = config.clone();
        let ghost all = config.policies@;
        let mut policies = config.policies;
        let ghost start = self.access_control.policy_list();
        let ghost k: int = 0;
        while policies.len() > 0
            invariant
                0 <= k <= all.len(),
                policies@ == all.subrange(k, all.len() as int),
                self.access_control.policy_list() == start + all.subrange(0, k),
                self.access_control.role_pairs() == old(self).access_control.role_pairs(),
                self.access_control.wf(),
                self.threshold_signer == old(self).threshold_signer,
                self.audit_log == old(self).audit_log,
                self.paused == old(self).paused,
                self.daily_volume == old(self).daily_volume,
            decreases policies@.len(),
        {
            let policy = policies.remove(0);
            self.access_control.add_policy(policy);
            proof {
                assert(all.subrange(0, k + 1) =~= all.subrange(0, k).push(all[k]));
                assert((start + all.subrange(0, k)).push(all[k]) =~= start + all.subrange(0, k + 1));
                k = k + 1;
                assert(policies@ =~= all.subrange(k, all.len() as int));
            }
        }
        proof {
            assert(all.subrange(0, k) =~= all);
        }
        self.config = Some(stored);
        Ok(())
    }

    /// Grants a role; the caller needs the configure permission.
    pub fn assign_role(&mut self, caller: Principal, principal: Principal, role: Role) -> (result: Result<(), String>)
        requires
            old(self).wf(),
        ensures
            final(self).wf(),
            !old(self).access().permits(caller, Permission::Configure) ==> result is Err
                && *final(self) == *old(self),
            old(self).access().permits(caller, Permission::Configure) ==> result is Ok && granted(
                old(self).access(),
                final(self).access(),
                principal,
                role,
            ) && final(self).access().policy_list() == old(self).access().policy_list()
                && final(self).signer() == old(self).signer() && final(self).audit() == old(self).audit(),
    {
        if !self.access_control.has_permission(&caller, &Permission::Configure) {
            return Err(String::from_str("No permission to assign roles"));
        }
        self.access_control.assign_role(principal, role);
        Ok(())
    }

    /// Takes a role away; the caller needs the configure permission.
    pub fn revoke_role(&mut self, caller: Principal, principal: Principal, role: Role) -> (result: Result<(), String>)
        requires
            old(self).wf(),
        ensures
            final(self).wf(),
            !old(self).access().permits(caller, Permission::Configure) ==> result is Err
                && *final(self) == *old(self),
            old(self).access().permits(caller, Permission::Configure) ==> result is Ok && revoked(
                old(self).access(),
                final(self).access(),
                principal,
                role,
            ) && final(self).access().policy_list() == old(self).access().policy_list()
                && final(self).signer() == old(self).signer() && final(self).audit() == old(self).audit(),
    {
        if !self.access_control.has_permission(&caller, &Permission::Configure) {
            return Err(String::from_str("No permission to revoke roles"));
        }
        self.access_control.revoke_role(&principal, &role);
        Ok(())
    }

    /// Appends a policy; the caller needs the configure permission.
    pub fn add_policy(&mut self, caller: Principal, policy: Policy) -> (result: Result<u64, String>)
        requires
            old(self).wf(),
        ensures
            final(self).wf(),
            !old(self).access().permits(caller, Permission::Configure) ==> result is Err
                && *final(self) == *old(self),
            old(self).access().permits(caller, Permission::Configure) ==> result == Ok::<u64, String>(
                old(self).access().policy_list().len() as u64,
            ) && final(self).access().policy_list() == old(self).access().policy_list().push(policy)
                && final(self).access().role_pairs() == old(self).access().role_pairs(),
    {
        if !self.access_control.has_permission(&caller, &Permission::Configure) {
            return Err(String::from_str("No permission to add policies"));
        }
        Ok(self.access_control.add_policy(policy))
    }

    /// Replaces the policy at `index`; the caller needs the configure permission.
    pub fn update_policy(&mut self, caller: Principal, index: u64, policy: Policy) -> (result: Result<(), String>)
        requires
            old(self).wf(),
        ensures
            final(self).wf(),
            !old(self).access().permits(caller, Permission::Configure) ==> result is Err
                && *final(self) == *old(self),
            old(self).access().permits(caller, Permission::Configure) && index >= old(self).access().policy_list().len()
                ==> result is Err && result->Err_0@ == POLICY_NOT_FOUND@ && *final(self) == *old(self),
            old(self).access().permits(caller, Permission::Configure) && index < old(self).access().policy_list().len()
                ==> result is Ok && final(self).access().policy_list() == old(self).access().policy_list().update(
                index as int,
                policy,
            ) && final(self).access().role_pairs() == old(self).access().role_pairs(),
    {
        if !self.access_control.has_permission(&caller, &Permission::Configure) {
            return Err(String::from_str("No permission to update policies"));
        }
        if index >= self.access_control.get_policies().len() as u64 {
            return Err(String::from_str(POLICY_NOT_FOUND));
        }
        self.access_control.update_policy(index as usize, policy);
        Ok(())
    }

    /// Removes the policy at `index`; the caller needs the configure permission.
    pub fn remove_policy(&mut self, caller: Principal, index: u64) -> (result: Result<(), String>)
        requires
            old(self).wf(),
        ensures
            final(self).wf(),
            !old(self).access().permits(caller, Permission::Configure) ==> result is Err
                && *final(self) == *old(self),
            old(self).access().permits(caller, Permission::Configure) && index >= old(self).access().policy_list().len()
                ==> result is Err && result->Err_0@ == POLICY_NOT_FOUND@ && *final(self) == *old(self),
            old(self).access().permits(caller, Permission::Configure) && index < old(self).access().policy_list().len()
                ==> result is Ok && final(self).access().policy_list() == old(self).access().policy_list().remove(
                index as int,
            ) && final(self).access().role_pairs() == old(self).access().role_pairs(),
    {
        if !self.access_control.has_permission(&caller, &Permission::Configure) {
            return Err(String::from_str("No permission to remove policies"));
        }
        if index >= self.access_control.get_policies().len() as u64 {
            return Err(String::from_str(POLICY_NOT_FOUND));
        }
        self.access_control.remove_policy(index as usize);
        Ok(())
    }

    /// Checks and decides a requested action, and records the decision.
    ///
    /// A paused system, or a caller without the execute permission, is
    /// refused with nothing recorded. Otherwise the policies decide, the
    /// decision is logged, and: a denial is reported; a threshold decision
    /// opens a request for as many approvals as the deciding policy asks;
    /// an allowed action is handed back for execution under its audit id.
    pub fn request_action(&mut self, caller: Principal, action: Action, current_time: u64) -> (outcome: Authorization)
        requires
            old(self).wf(),
            old(self).audit().entries().len() < u64::MAX,
            old(self).signer().requests().len() < u64::MAX,
            current_time + DEFAULT_EXPIRY <= u64::MAX,
        ensures
            final(self).wf(),
            final(self).access() == old(self).access(),
            final(self).paused_flag() == old(self).paused_flag(),
            final(self).spent_today() == old(self).spent_today(),
            (old(self).paused_flag() || !old(self).access().permits(caller, Permission::Execute)) ==> {
                &&& outcome matches Authorization::Denied { reason } && reason@ == PAUSED_OR_UNAUTHORIZED@
                &&& *final(self) == *old(self)
            },
            !(old(self).paused_flag() || !old(self).access().permits(caller, Permission::Execute)) ==> ({
                let n = old(self).audit().entries().len();
                let e = final(self).audit().entries()[n as int];
                let ps = old(self).access().policy_list();
                &&& final(self).audit().entries() == old(self).audit().entries().push(e)
                &&& evaluation_result(ps, action, old(self).spent_today(), e.policy_result)
                &&& records(e, n as u64, action, caller, e.policy_result, e.threshold_request_id, current_time)
                &&& match outcome {
                    Authorization::Denied { reason } => {
                        &&& e.policy_result.decision == PolicyDecision::Denied
                        &&& reason@ == POLICY_DENIED@
                        &&& e.threshold_request_id.is_none()
                        &&& final(self).signer() == old(self).signer()
                    },
                    Authorization::PendingSignatures(request) => {
                        &&& e.policy_result.decision == PolicyDecision::RequiresThreshold
                        &&& e.threshold_request_id == Some(request.id)
                        &&& final(self).signer().requests() == old(self).signer().requests().push(request@)
                        &&& request@ == RequestView {
                            id: old(self).signer().requests().len() as u64,
                            action,
                            requester: caller,
                            created_at: current_time,
                            expires_at: (current_time + DEFAULT_EXPIRY) as u64,
                            required_signatures: request.required_signatures,
                            signatures: Seq::empty(),
                            status: RequestStatus::Pending,
                        }
                        &&& exists|j: int| #[trigger] is_first_match(ps, j, action, old(self).spent_today())
                            && (ps[j].action matches PolicyAction::RequireThreshold { required, .. }
                            && required == request.required_signatures)
                    },
                    Authorization::Execute { audit_id } => {
                        &&& e.policy_result.decision == PolicyDecision::Allowed
                        &&& audit_id == n
                        &&& e.threshold_request_id.is_none()
                        &&& final(self).signer() == old(self).signer()
                    },
                }
            }),
    {
        if self.paused || !self.access_control.has_permission(&caller, &Permission::Execute) {
            return Authorization::Denied { reason: String::from_str(PAUSED_OR_UNAUTHORIZED) };
        }
        let matched = self.access_control.first_match(&action, self.daily_volume);
        let policy_result = self.access_control.result_for(matched, &action, self.daily_volume);
        let ghost logged = policy_result;
        match policy_result.decision {
            PolicyDecision::Denied => {
                self.audit_log.log_action(&action, caller, policy_result, None, current_time);
                Authorization::Denied { reason: String::from_str(POLICY_DENIED) }
            },
            PolicyDecision::RequiresThreshold => {
                let j = match matched {
                    Some(j) => j,
                    None => 0,
                };
                let required = match self.access_control.required_signatures(j) {
                    Some(r) => r,
                    None => 0,
                };
                let request = self.threshold_signer.create_request(
                    action.clone(),
                    caller,
                    required,
                    current_time,
                );
                self.audit_log.log_action(&action, caller, policy_result, Some(request.id), current_time);
                Authorization::PendingSignatures(request)
            },
            PolicyDecision::Allowed => {
                let audit_id = self.audit_log.log_action(&action, caller, policy_result, None, current_time);
                Authorization::Execute { audit_id }
            },
        }
    }

    /// Attaches the outcome of executing an allowed action to its audit entry.
    pub fn record_execution(&mut self, audit_id: u64, result: ExecutionResult) -> (outcome: Result<(), String>)
        requires
            old(self).wf(),
        ensures
            final(self).wf(),
            final(self).access() == old(self).access(),
            final(self).signer() == old(self).signer(),
            audit_id >= old(self).audit().entries().len() ==> outcome is Err && outcome->Err_0@
                == ENTRY_NOT_FOUND@ && final(self).audit().entries() == old(self).audit().entries(),
            audit_id < old(self).audit().entries().len() && old(self).audit().entries()[audit_id as int].execution_result.is_some()
                ==> outcome is Err && outcome->Err_0@ == RESULT_ALREADY_RECORDED@
                && final(self).audit().entries() == old(self).audit().entries(),
            audit_id < old(self).audit().entries().len() && old(self).audit().entries()[audit_id as int].execution_result.is_none()
                ==> outcome is Ok && final(self).audit().entries() == old(self).audit().entries().update(
                audit_id as int,
                AuditEntry { execution_result: Some(result), ..old(self).audit().entries()[audit_id as int] },
            ),
    {
        self.audit_log.update_execution_result(audit_id, result)
    }

    /// Adds the caller's approval to a pending request; the caller needs the
    /// signing permission. The engine's own error is passed on.
    pub fn sign_request(&mut self, caller: Principal, request_id: u64, current_time: u64) -> (result: Result<PendingRequest, String>)
        requires
            old(self).wf(),
        ensures
            final(self).wf(),
            final(self).access() == old(self).access(),
            final(self).audit() == old(self).audit(),
            !old(self).access().permits(caller, Permission::Sign) ==> result is Err && result->Err_0@
                == NO_SIGN_PERMISSION@ && *final(self) == *old(self),
            old(self).access().permits(caller, Permission::Sign) ==> {
                &&& final(self).signer().requests() == sign_transition(
                    old(self).signer().requests(),
                    request_id,
                    caller,
                    current_time,
                ).0
                &&& match result {
                    Ok(request) => sign_transition(old(self).signer().requests(), request_id, caller, current_time).1
                        == Ok::<RequestView, Seq<char>>(request@),
                    Err(message) => sign_transition(
                        old(self).signer().requests(),
                        request_id,
                        caller,
                        current_time,
                    ).1 == Err::<RequestView, Seq<char>>(message@),
                }
            },
    {
        if !self.access_control.has_permission(&caller, &Permission::Sign) {
            return Err(String::from_str(NO_SIGN_PERMISSION));
        }
        self.threshold_signer.sign_request(request_id, caller, current_time)
    }

    /// Records that an approved request was carried out: the request becomes
    /// executed and the outcome is attached to the audit entry that opened
    /// it. A request that is not approved is refused, so each approval leads
    /// to at most one execution.
    pub fn record_threshold_execution(&mut self, request_id: u64, result: ExecutionResult) -> (outcome: Result<(), String>)
        requires
            old(self).wf(),
        ensures
            final(self).wf(),
            final(self).access() == old(self).access(),
            request_id >= old(self).signer().requests().len() ==> outcome is Err && outcome->Err_0@
                == REQUEST_NOT_FOUND@ && *final(self) == *old(self),
            request_id < old(self).signer().requests().len() && old(self).signer().requests()[request_id as int].status
                != RequestStatus::Approved ==> outcome is Err && outcome->Err_0@ == REQUEST_NOT_APPROVED@
                && *final(self) == *old(self),
            request_id < old(self).signer().requests().len() && old(self).signer().requests()[request_id as int].status
                == RequestStatus::Approved ==> {
                &&& outcome is Ok
                &&& final(self).signer().requests() == old(self).signer().requests().update(
                    request_id as int,
                    with_status(old(self).signer().requests()[request_id as int], RequestStatus::Executed),
                )
                &&& final(self).audit().entries().len() == old(self).audit().entries().len()
                &&& forall|k: int|
                    0 <= k < old(self).audit().entries().len() ==> {
                        let before = old(self).audit().entries()[k];
                        #[trigger] final(self).audit().entries()[k] == if before.threshold_request_id
                            == Some(request_id) && before.execution_result.is_none() && forall|m: int|
                            0 <= m < k ==> (#[trigger] old(self).audit().entries()[m]).threshold_request_id
                                != Some(request_id) {
                            AuditEntry { execution_result: Some(result), ..before }
                        } else {
                            before
                        }
                    }
            },
    {
        if request_id >= self.threshold_signer.len() as u64 {
            return Err(String::from_str(REQUEST_NOT_FOUND));
        }
        if !self.threshold_signer.is_approved(request_id) {
            return Err(String::from_str(REQUEST_NOT_APPROVED));
        }
        let _ = self.threshold_signer.mark_executed(request_id);
        match self.audit_log.find_by_request(request_id) {
            Some(entry_id) => {
                let _ = self.audit_log.update_execution_result(entry_id, result);
            },
            None => {},
        }
        Ok(())
    }

    /// Rejects a request; the caller needs the signing permission.
    pub fn reject_request(&mut self, caller: Principal, request_id: u64, reason: String) -> (result: Result<(), String>)
        requires
            old(self).wf(),
        ensures
            final(self).wf(),
            final(self).access() == old(self).access(),
            final(self).audit() == old(self).audit(),
            !old(self).access().permits(caller, Permission::Sign) ==> result is Err && result->Err_0@
                == NO_SIGN_PERMISSION@ && *final(self) == *old(self),
            old(self).access().permits(caller, Permission::Sign) && request_id >= old(self).signer().requests().len()
                ==> result is Err && result->Err_0@ == REQUEST_NOT_FOUND@
                && final(self).signer().requests() == old(self).signer().requests(),
            old(self).access().permits(caller, Permission::Sign) && request_id < old(self).signer().requests().len()
                ==> result is Ok && final(self).signer().requests() == old(self).signer().requests().update(
                request_id as int,
                crate::threshold::rejected(old(self).signer().requests()[request_id as int]),
            ),
    {
        if !self.access_control.has_permission(&caller, &Permission::Sign) {
            return Err(String::from_str(NO_SIGN_PERMISSION));
        }
        self.threshold_signer.reject_request(request_id, reason)
    }

    /// The audit entries in the time range; empty for a caller who may not
    /// read logs.
    pub fn get_audit_logs(&self, caller: Principal, start: Option<u64>, end: Option<u64>) -> (entries: Vec<AuditEntry>)
        ensures
            !self.access().permits(caller, Permission::ViewLogs) ==> entries@.len() == 0,
            self.access().permits(caller, Permission::ViewLogs) ==> entries@ == self.audit().entries().filter(
                |e: AuditEntry| in_range(e.timestamp, start, end),
            ),
    {
        if !self.access_control.has_permission(&caller, &Permission::ViewLogs) {
            return Vec::new();
        }
        self.audit_log.get_entries(start, end)
    }

    /// One audit entry; none for a caller who may not read logs.
    pub fn get_audit_entry(&self, caller: Principal, id: u64) -> (entry: Option<AuditEntry>)
        ensures
            !self.access().permits(caller, Permission::ViewLogs) ==> entry.is_none(),
            self.access().permits(caller, Permission::ViewLogs) && id >= self.audit().entries().len()
                ==> entry.is_none(),
            self.access().permits(caller, Permission::ViewLogs) && id < self.audit().entries().len()
                ==> entry == Some(self.audit().entries()[id as int]),
    {
        if !self.access_control.has_permission(&caller, &Permission::ViewLogs) {
            return None;
        }
        match self.audit_log.get_entry(id) {
            Some(e) => Some(e.clone()),
            None => None,
        }
    }

    /// Stops all actions; the caller needs the emergency permission.
    pub fn pause(&mut self, caller: Principal) -> (result: Result<(), String>)
        ensures
            !old(self).access().permits(caller, Permission::Emergency) ==> result is Err && result->Err_0@
                == NO_EMERGENCY_PERMISSION@ && *final(self) == *old(self),
            old(self).access().permits(caller, Permission::Emergency) ==> result is Ok && final(self).paused_flag() && final(self).same_components(*old(self)),
    {
        if !self.access_control.has_permission(&caller, &Permission::Emergency) {
            return Err(String::from_str(NO_EMERGENCY_PERMISSION));
        }
        self.paused = true;
        Ok(())
    }

    /// Lets actions through again; the caller needs the emergency permission.
    pub fn resume(&mut self, caller: Principal) -> (result: Result<(), String>)
        ensures
            !old(self).access().permits(caller, Permission::Emergency) ==> result is Err && result->Err_0@
                == NO_EMERGENCY_PERMISSION@ && *final(self) == *old(self),
            old(self).access().permits(caller, Permission::Emergency) ==> result is Ok && !final(self).paused_flag() && final(self).same_components(*old(self)),
    {
        if !self.access_control.has_permission(&caller, &Permission::Emergency) {
            return Err(String::from_str(NO_EMERGENCY_PERMISSION));
        }
        self.paused = false;
        Ok(())
    }

    pub fn is_paused(&self) -> (paused: bool)
        ensures
            paused == self.paused_flag(),
    {
        self.paused
    }

    /// The configuration, once set.
    pub fn get_config(&self) -> (config: Option<&ChainGuardConfig>)
        ensures
            config.is_some() == self.configured(),
    {
        match &self.config {
            Some(c) => Some(c),
            None => None,
        }
    }

    /// The roles a principal holds.
    pub fn get_roles(&self, principal: Principal) -> (roles: Vec<Role>)
        requires
            self.wf(),
        ensures
            roles@.no_duplicates(),
            forall|role: Role| roles@.contains(role) <==> self.access().holds(principal, role),
    {
        self.access_control.get_roles(&principal)
    }

    /// Every grant as a (principal, role) pair.
    pub fn list_role_assignments(&self) -> (assignments: Vec<(Principal, Role)>)
        ensures
            assignments@ == self.access().role_pairs(),
    {
        self.access_control.list_role_assignments()
    }

    /// The policies in store order.
    pub fn list_policies(&self) -> (policies: &Vec<Policy>)
        ensures
            policies@ == self.access().policy_list(),
    {
        self.access_control.get_policies()
    }

    /// The requests still waiting for approvals.
    pub fn get_pending_requests(&self) -> (pending: Vec<PendingRequest>)
        ensures
            pending@.map_values(|r: PendingRequest| r@) == self.signer().requests().filter(
                |r: RequestView| r.status == RequestStatus::Pending,
            ),
    {
        self.threshold_signer.get_pending_requests()
    }
}

} // verus!
