use chainguard::access_control::AccessControl;
use chainguard::audit::AuditLog;
use chainguard::errors::ChainGuardError;
use chainguard::principal::Principal;
use chainguard::threshold::{status_name, ThresholdSigner};
use chainguard::types::{
    Action, Condition, ExecutionResult, Permission, Policy, PolicyAction, PolicyDecision,
    PolicyResult, RequestStatus, Role,
};

fn principal(id: u8) -> Principal {
    let mut bytes = [0u8; 29];
    bytes[0] = id;
    Principal::from_slice(&bytes)
}

fn transfer(chain: &str, amount: u64) -> Action {
    Action::Transfer {
        chain: chain.to_string(),
        token: "USDC".to_string(),
        to: "0x123".to_string(),
        amount,
    }
}

fn policy(name: &str, conditions: Vec<Condition>, action: PolicyAction, priority: u32) -> Policy {
    Policy { name: name.to_string(), conditions, action, priority }
}

fn allowed() -> PolicyResult {
    PolicyResult {
        decision: PolicyDecision::Allowed,
        matched_policy: Some("Test Policy".to_string()),
        reason: "Allowed by policy".to_string(),
    }
}

fn executed_ok() -> ExecutionResult {
    ExecutionResult {
        success: true,
        chain: "ethereum".to_string(),
        tx_hash: Some("0xabc123".to_string()),
        error: None,
    }
}

#[test]
fn assign_then_revoke_and_assign_twice() {
    let mut ac = AccessControl::new();
    let p = principal(7);
    ac.assign_role(p, Role::Operator);
    assert!(ac.has_role(&p, &Role::Operator));
    ac.assign_role(p, Role::Operator);
    assert_eq!(ac.get_roles(&p), vec![Role::Operator]);
    assert_eq!(ac.list_role_assignments().len(), 1);
    ac.revoke_role(&p, &Role::Operator);
    assert!(!ac.has_role(&p, &Role::Operator));
    assert!(ac.get_roles(&p).is_empty());
    // Revoking a role not held is a no-op.
    ac.revoke_role(&p, &Role::Owner);
    assert!(ac.list_role_assignments().is_empty());
}

#[test]
fn principals_differ_by_bytes() {
    let a = principal(1);
    let b = principal(2);
    assert_ne!(a, b);
    assert_eq!(a, principal(1));
    assert_eq!(Principal::from_slice(&[9, 8, 7]).as_bytes(), vec![9, 8, 7]);
    assert_ne!(Principal::from_slice(&[1]), Principal::from_slice(&[1, 0]));
    let mut ac = AccessControl::new();
    ac.assign_role(a, Role::Owner);
    assert!(!ac.has_role(&b, &Role::Owner));
}

#[test]
fn no_role_means_no_permission() {
    let ac = AccessControl::new();
    let p = principal(3);
    for perm in [Permission::Execute, Permission::Configure, Permission::ViewLogs, Permission::Sign, Permission::Emergency] {
        assert!(!ac.has_permission(&p, &perm));
    }
}

#[test]
fn roles_combine_permissions() {
    let mut ac = AccessControl::new();
    let p = principal(4);
    ac.assign_role(p, Role::Viewer);
    ac.assign_role(p, Role::Operator);
    assert!(ac.has_permission(&p, &Permission::Sign));
    assert!(!ac.has_permission(&p, &Permission::Configure));
}

#[test]
fn priority_decides_regardless_of_insertion_order() {
    let allow = || policy("Allow Small", vec![Condition::MaxAmount(1000)], PolicyAction::Allow, 10);
    let deny = || policy("Deny Small", vec![Condition::MaxAmount(1000)], PolicyAction::Deny, 1);
    let action = transfer("ethereum", 500);

    let mut first = AccessControl::new();
    first.add_policy(allow());
    first.add_policy(deny());
    let mut second = AccessControl::new();
    second.add_policy(deny());
    second.add_policy(allow());

    for ac in [&first, &second] {
        let result = ac.evaluate_action(&action, &principal(1), 0);
        assert_eq!(result.decision, PolicyDecision::Denied);
        assert_eq!(result.matched_policy, Some("Deny Small".to_string()));
        assert_eq!(result.reason, "Matched policy: Deny Small");
    }
}

#[test]
fn equal_priorities_keep_store_order() {
    let mut ac = AccessControl::new();
    ac.add_policy(policy("First", vec![], PolicyAction::Allow, 5));
    ac.add_policy(policy("Second", vec![], PolicyAction::Deny, 5));
    let result = ac.evaluate_action(&transfer("ethereum", 1), &principal(1), 0);
    assert_eq!(result.decision, PolicyDecision::Allowed);
    assert_eq!(result.matched_policy, Some("First".to_string()));
}

#[test]
fn all_conditions_must_hold() {
    let mut ac = AccessControl::new();
    ac.add_policy(policy(
        "Ethereum Only",
        vec![Condition::MaxAmount(10000), Condition::AllowedChains(vec!["ethereum".to_string()])],
        PolicyAction::Allow,
        1,
    ));
    let result = ac.evaluate_action(&transfer("polygon", 5000), &principal(1), 0);
    assert_eq!(result.decision, PolicyDecision::Denied);
    assert_eq!(result.matched_policy, None);
    assert_eq!(result.reason, "No matching policy found");
}

#[test]
fn swap_needs_both_tokens_allowed() {
    let mut ac = AccessControl::new();
    ac.add_policy(policy(
        "Stable Only",
        vec![Condition::AllowedTokens(vec!["USDC".to_string(), "USDT".to_string()])],
        PolicyAction::Allow,
        1,
    ));
    let swap = |out: &str| Action::Swap {
        chain: "ethereum".to_string(),
        token_in: "USDC".to_string(),
        token_out: out.to_string(),
        amount_in: 10,
        min_amount_out: 9,
        fee_tier: None,
    };
    assert_eq!(ac.evaluate_action(&swap("USDT"), &principal(1), 0).decision, PolicyDecision::Allowed);
    assert_eq!(ac.evaluate_action(&swap("WETH"), &principal(1), 0).decision, PolicyDecision::Denied);
}

#[test]
fn inverted_time_window_never_matches() {
    let mut ac = AccessControl::new();
    ac.add_policy(policy("Night", vec![Condition::TimeWindow { start: 20, end: 6 }], PolicyAction::Allow, 1));
    assert_eq!(ac.evaluate_action(&transfer("ethereum", 1), &principal(1), 0).decision, PolicyDecision::Denied);
}

#[test]
fn daily_limit_scenario() {
    let mut ac = AccessControl::new();
    ac.add_policy(policy("Daily Limit", vec![Condition::DailyLimit(5000)], PolicyAction::Allow, 1));
    let action = transfer("ethereum", 1000);
    assert_eq!(ac.evaluate_action(&action, &principal(1), 3000).decision, PolicyDecision::Allowed);
    assert_eq!(ac.evaluate_action(&action, &principal(1), 4500).decision, PolicyDecision::Denied);
    assert_eq!(ac.evaluate_action(&action, &principal(1), 4000).decision, PolicyDecision::Allowed);
    assert_eq!(ac.evaluate_action(&action, &principal(1), u64::MAX).decision, PolicyDecision::Denied);
}

#[test]
fn remove_policy_shifts_later_indices() {
    let mut ac = AccessControl::new();
    ac.add_policy(policy("A", vec![], PolicyAction::Allow, 1));
    ac.add_policy(policy("B", vec![], PolicyAction::Deny, 2));
    assert!(ac.remove_policy(0));
    assert_eq!(ac.get_policies().len(), 1);
    assert_eq!(ac.get_policies()[0].name, "B");
    assert!(!ac.remove_policy(1));
}

#[test]
fn two_signature_lifecycle() {
    let mut ts = ThresholdSigner::new();
    let id = ts.create_request(transfer("ethereum", 1000), principal(1), 2, 1000).id;
    assert_eq!(ts.sign_request(id, principal(2), 1100).unwrap().status, RequestStatus::Pending);
    assert_eq!(ts.sign_request(id, principal(2), 1150).unwrap_err(), "Already signed by this principal");
    let approved = ts.sign_request(id, principal(3), 1200).unwrap();
    assert_eq!(approved.status, RequestStatus::Approved);
    assert_eq!(approved.collected_signatures.len(), 2);
    assert_eq!(approved.collected_signatures[1].signed_at, 1200);
    assert_eq!(
        ts.sign_request(id, principal(4), 1300).unwrap_err(),
        "Request is not pending, status: Approved"
    );
}

#[test]
fn expiry_fails_and_expires_pending_request() {
    let mut ts = ThresholdSigner::new();
    let id = ts.create_request(transfer("ethereum", 1000), principal(1), 2, 1000).id;
    assert_eq!(ts.sign_request(id, principal(2), 1000 + 86400).unwrap().status, RequestStatus::Pending);
    assert_eq!(ts.sign_request(id, principal(3), 1000 + 86401).unwrap_err(), "Request expired");
    assert_eq!(ts.get_request(id).unwrap().status, RequestStatus::Expired);
    assert_eq!(ts.get_request(id).unwrap().collected_signatures.len(), 1);
}

#[test]
fn late_signature_on_approved_request_keeps_status() {
    let mut ts = ThresholdSigner::new();
    let id = ts.create_request(transfer("ethereum", 1000), principal(1), 1, 1000).id;
    ts.sign_request(id, principal(2), 1100).unwrap();
    assert_eq!(ts.sign_request(id, principal(3), 1000 + 86401).unwrap_err(), "Request expired");
    assert!(ts.is_approved(id));
}

#[test]
fn reject_does_not_undo_execution() {
    let mut ts = ThresholdSigner::new();
    let id = ts.create_request(transfer("ethereum", 1000), principal(1), 1, 1000).id;
    ts.mark_executed(id).unwrap();
    ts.reject_request(id, "late".to_string()).unwrap();
    assert_eq!(ts.get_request(id).unwrap().status, RequestStatus::Executed);
    assert_eq!(ts.reject_request(5, "x".to_string()).unwrap_err(), "Request not found");
    assert_eq!(ts.mark_executed(5).unwrap_err(), "Request not found");
}

#[test]
fn cleanup_is_idempotent_and_spares_other_states() {
    let mut ts = ThresholdSigner::new();
    ts.create_request(transfer("ethereum", 1), principal(1), 2, 1000);
    ts.create_request(transfer("ethereum", 1), principal(1), 2, 1000);
    ts.reject_request(1, "no".to_string()).unwrap();
    ts.cleanup_expired(100000);
    ts.cleanup_expired(100000);
    assert_eq!(ts.get_request(0).unwrap().status, RequestStatus::Expired);
    assert_eq!(ts.get_request(1).unwrap().status, RequestStatus::Rejected);
    assert!(ts.get_pending_requests().is_empty());
}

#[test]
fn status_names() {
    assert_eq!(status_name(RequestStatus::Expired), "Expired");
    assert_eq!(status_name(RequestStatus::Rejected), "Rejected");
}

#[test]
fn audit_ids_and_range() {
    let mut audit = AuditLog::new();
    let action = transfer("ethereum", 1000);
    let ids: Vec<u64> = [1000u64, 2000, 2500, 3000, 3001]
        .iter()
        .map(|t| audit.log_action(&action, principal(1), allowed(), None, *t))
        .collect();
    assert_eq!(ids, vec![0, 1, 2, 3, 4]);
    let in_range: Vec<u64> = audit.get_entries(Some(2000), Some(3000)).iter().map(|e| e.timestamp).collect();
    assert_eq!(in_range, vec![2000, 2500, 3000]);
    assert_eq!(audit.get_entries(Some(3002), None).len(), 0);
}

#[test]
fn execution_result_is_written_once() {
    let mut audit = AuditLog::new();
    let id = audit.log_action(&transfer("ethereum", 1), principal(1), allowed(), None, 1);
    assert_eq!(audit.update_execution_result(99, executed_ok()).unwrap_err(), "Entry not found");
    assert!(audit.get_entry(id).unwrap().execution_result.is_none());
    audit.update_execution_result(id, executed_ok()).unwrap();
    let mut second = executed_ok();
    second.success = false;
    assert_eq!(audit.update_execution_result(id, second).unwrap_err(), "Execution result already recorded");
    assert!(audit.get_entry(id).unwrap().execution_result.as_ref().unwrap().success);
}

#[test]
fn action_parameters_as_json() {
    let swap = Action::Swap {
        chain: "ethereum".to_string(),
        token_in: "USDC".to_string(),
        token_out: "WETH".to_string(),
        amount_in: 1000,
        min_amount_out: 500,
        fee_tier: Some(3000),
    };
    assert_eq!(
        AuditLog::action_to_json(&swap),
        r#"{"chain":"ethereum","token_in":"USDC","token_out":"WETH","amount_in":1000,"min_amount_out":500,"fee_tier":3000}"#
    );
    let approve = Action::ApproveToken {
        chain: "base".to_string(),
        token: "DAI".to_string(),
        spender: "0x456".to_string(),
        amount: 0,
    };
    assert_eq!(
        AuditLog::action_to_json(&approve),
        r#"{"chain":"base","token":"DAI","spender":"0x456","amount":0}"#
    );
    assert_eq!(
        AuditLog::action_to_json(&transfer("ethereum", u64::MAX)),
        r#"{"chain":"ethereum","token":"USDC","to":"0x123","amount":18446744073709551615}"#
    );
}

#[test]
fn error_messages() {
    assert_eq!(ChainGuardError::Unauthorized.to_string(), "Unauthorized access");
    assert_eq!(ChainGuardError::PolicyNotFound { id: 42 }.to_string(), "Policy not found: 42");
    assert_eq!(ChainGuardError::RequestNotFound { id: 0 }.to_string(), "Request not found: 0");
    assert_eq!(
        ChainGuardError::InvalidRequestStatus { expected: "Pending".to_string(), actual: "Approved".to_string() }
            .to_string(),
        "Invalid request status. Expected: Pending, Actual: Approved"
    );
    assert_eq!(
        ChainGuardError::NotImplemented { feature: "P2SH".to_string() }.to_string(),
        "Feature not yet implemented: P2SH"
    );
    assert_eq!(ChainGuardError::SystemPaused.to_string(), "System is currently paused");
}
