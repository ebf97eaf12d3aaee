use chainguard::access_control::AccessControl;
use chainguard::principal::Principal;
use chainguard::types::{Action, Condition, Permission, Policy, PolicyAction, PolicyDecision, Role};

fn mock_principal(id: u8) -> Principal {
    let mut bytes = [0u8; 29];
    bytes[0] = id;
    Principal::from_slice(&bytes)
}

#[test]
fn test_role_assignment() {
    let mut ac = AccessControl::new();
    let principal = mock_principal(1);

    // Initially no roles
    assert!(!ac.has_role(&principal, &Role::Owner));

    // Assign role
    ac.assign_role(principal, Role::Owner);
    assert!(ac.has_role(&principal, &Role::Owner));

    // Revoke role
    ac.revoke_role(&principal, &Role::Owner);
    assert!(!ac.has_role(&principal, &Role::Owner));
}

#[test]
fn test_multiple_roles() {
    let mut ac = AccessControl::new();
    let principal = mock_principal(1);

    ac.assign_role(principal, Role::Owner);
    ac.assign_role(principal, Role::Operator);

    assert!(ac.has_role(&principal, &Role::Owner));
    assert!(ac.has_role(&principal, &Role::Operator));
    assert!(!ac.has_role(&principal, &Role::Viewer));
}

#[test]
fn test_permissions_owner() {
    let mut ac = AccessControl::new();
    let principal = mock_principal(1);
    ac.assign_role(principal, Role::Owner);

    // Owner has all permissions
    assert!(ac.has_permission(&principal, &Permission::Execute));
    assert!(ac.has_permission(&principal, &Permission::Configure));
    assert!(ac.has_permission(&principal, &Permission::ViewLogs));
    assert!(ac.has_permission(&principal, &Permission::Sign));
    assert!(ac.has_permission(&principal, &Permission::Emergency));
}

#[test]
fn test_permissions_operator() {
    let mut ac = AccessControl::new();
    let principal = mock_principal(1);
    ac.assign_role(principal, Role::Operator);

    assert!(ac.has_permission(&principal, &Permission::Execute));
    assert!(ac.has_permission(&principal, &Permission::Sign));
    assert!(ac.has_permission(&principal, &Permission::ViewLogs));
    assert!(!ac.has_permission(&principal, &Permission::Configure));
    assert!(!ac.has_permission(&principal, &Permission::Emergency));
}

#[test]
fn test_permissions_viewer() {
    let mut ac = AccessControl::new();
    let principal = mock_principal(1);
    ac.assign_role(principal, Role::Viewer);

    assert!(ac.has_permission(&principal, &Permission::ViewLogs));
    assert!(!ac.has_permission(&principal, &Permission::Execute));
    assert!(!ac.has_permission(&principal, &Permission::Configure));
    assert!(!ac.has_permission(&principal, &Permission::Sign));
    assert!(!ac.has_permission(&principal, &Permission::Emergency));
}

#[test]
fn test_policy_add_remove() {
    let mut ac = AccessControl::new();

    let policy = Policy {
        name: "Test Policy".to_string(),
        conditions: vec![Condition::MaxAmount(1000)],
        action: PolicyAction::Allow,
        priority: 1,
    };

    let id = ac.add_policy(policy);
    assert_eq!(id, 0);
    assert_eq!(ac.get_policies().len(), 1);

    assert!(ac.remove_policy(0));
    assert_eq!(ac.get_policies().len(), 0);
}

#[test]
fn test_policy_evaluation_allow() {
    let mut ac = AccessControl::new();
    let principal = mock_principal(1);

    let policy = Policy {
        name: "Allow Small".to_string(),
        conditions: vec![Condition::MaxAmount(1000)],
        action: PolicyAction::Allow,
        priority: 1,
    };

    ac.add_policy(policy);

    let action = Action::Transfer {
        chain: "ethereum".to_string(),
        token: "USDC".to_string(),
        to: "0x123".to_string(),
        amount: 500,
    };

    let result = ac.evaluate_action(&action, &principal, 0);
    assert_eq!(result.decision, PolicyDecision::Allowed);
}

#[test]
fn test_policy_evaluation_deny() {
    let mut ac = AccessControl::new();
    let principal = mock_principal(1);

    let policy = Policy {
        name: "Deny Large".to_string(),
        conditions: vec![Condition::MaxAmount(1000)],
        action: PolicyAction::Deny,
        priority: 1,
    };

    ac.add_policy(policy);

    let action = Action::Transfer {
        chain: "ethereum".to_string(),
        token: "USDC".to_string(),
        to: "0x123".to_string(),
        amount: 2000,
    };

    let result = ac.evaluate_action(&action, &principal, 0);
    assert_eq!(result.decision, PolicyDecision::Denied);
}

#[test]
fn test_policy_daily_limit() {
    let mut ac = AccessControl::new();
    let principal = mock_principal(1);

    let policy = Policy {
        name: "Daily Limit".to_string(),
        conditions: vec![Condition::DailyLimit(5000)],
        action: PolicyAction::Allow,
        priority: 1,
    };

    ac.add_policy(policy);

    let action = Action::Transfer {
        chain: "ethereum".to_string(),
        token: "USDC".to_string(),
        to: "0x123".to_string(),
        amount: 1000,
    };

    // First transfer - within daily limit
    let result = ac.evaluate_action(&action, &principal, 3000);
    assert_eq!(result.decision, PolicyDecision::Allowed);

    // Second transfer - exceeds daily limit
    let result = ac.evaluate_action(&action, &principal, 4500);
    assert_eq!(result.decision, PolicyDecision::Denied);
}

#[test]
fn test_policy_allowed_chains() {
    let mut ac = AccessControl::new();
    let principal = mock_principal(1);

    let policy = Policy {
        name: "Allowed Chains".to_string(),
        conditions: vec![Condition::AllowedChains(vec!["ethereum".to_string(), "polygon".to_string()])],
        action: PolicyAction::Allow,
        priority: 1,
    };

    ac.add_policy(policy);

    // Allowed chain
    let action1 = Action::Transfer {
        chain: "ethereum".to_string(),
        token: "USDC".to_string(),
        to: "0x123".to_string(),
        amount: 1000,
    };
    let result1 = ac.evaluate_action(&action1, &principal, 0);
    assert_eq!(result1.decision, PolicyDecision::Allowed);

    // Disallowed chain
    let action2 = Action::Transfer {
        chain: "arbitrum".to_string(),
        token: "USDC".to_string(),
        to: "0x123".to_string(),
        amount: 1000,
    };
    let result2 = ac.evaluate_action(&action2, &principal, 0);
    assert_eq!(result2.decision, PolicyDecision::Denied);
}

#[test]
fn test_policy_priority() {
    let mut ac = AccessControl::new();
    let principal = mock_principal(1);

    // Lower priority (0) - should be evaluated first
    let deny_policy = Policy {
        name: "Deny Large".to_string(),
        conditions: vec![Condition::MaxAmount(10000)],
        action: PolicyAction::Deny,
        priority: 0,
    };

    // Higher priority (1) - should be evaluated second
    let allow_policy = Policy {
        name: "Allow Small".to_string(),
        conditions: vec![Condition::MaxAmount(1000)],
        action: PolicyAction::Allow,
        priority: 1,
    };

    ac.add_policy(allow_policy);
    ac.add_policy(deny_policy);

    let action = Action::Transfer {
        chain: "ethereum".to_string(),
        token: "USDC".to_string(),
        amount: 500,
        to: "0x123".to_string(),
    };

    let result = ac.evaluate_action(&action, &principal, 0);
    // Should match deny_policy first (lower priority number = higher priority)
    assert_eq!(result.decision, PolicyDecision::Denied);
    assert_eq!(result.matched_policy, Some("Deny Large".to_string()));
}

#[test]
fn test_get_roles() {
    let mut ac = AccessControl::new();
    let principal = mock_principal(1);

    ac.assign_role(principal, Role::Owner);
    ac.assign_role(principal, Role::Operator);

    let roles = ac.get_roles(&principal);
    assert_eq!(roles.len(), 2);
    assert!(roles.contains(&Role::Owner));
    assert!(roles.contains(&Role::Operator));
}

#[test]
fn test_list_role_assignments() {
    let mut ac = AccessControl::new();
    let principal1 = mock_principal(1);
    let principal2 = mock_principal(2);

    ac.assign_role(principal1, Role::Owner);
    ac.assign_role(principal2, Role::Operator);

    let assignments = ac.list_role_assignments();
    assert_eq!(assignments.len(), 2);
}

// ==================== Advanced Policy Priority Tests ====================

#[test]
fn test_policy_priority_multiple_matches() {
    let mut ac = AccessControl::new();
    let principal = mock_principal(1);

    // Priority 0 (highest): Deny everything > 5000
    let deny_policy = Policy {
        name: "Deny Large".to_string(),
        conditions: vec![Condition::MaxAmount(10000)],
        action: PolicyAction::Deny,
        priority: 0,
    };

    // Priority 1: Allow up to 1000
    let allow_small = Policy {
        name: "Allow Small".to_string(),
        conditions: vec![Condition::MaxAmount(1000)],
        action: PolicyAction::Allow,
        priority: 1,
    };

    // Priority 2: Require threshold for mid amounts
    let threshold_mid = Policy {
        name: "Threshold Mid".to_string(),
        conditions: vec![Condition::MaxAmount(5000)],
        action: PolicyAction::RequireThreshold {
            required: 2,
            from_roles: vec![Role::Owner, Role::Operator],
        },
        priority: 2,
    };

    ac.add_policy(allow_small);
    ac.add_policy(threshold_mid);
    ac.add_policy(deny_policy);

    // Amount 500: Should match priority 0 (Deny Large) first, deny it
    let action1 = Action::Transfer {
        chain: "ethereum".to_string(),
        token: "USDC".to_string(),
        to: "0x123".to_string(),
        amount: 500,
    };
    let result1 = ac.evaluate_action(&action1, &principal, 0);
    assert_eq!(result1.decision, PolicyDecision::Denied);
    assert_eq!(result1.matched_policy, Some("Deny Large".to_string()));

    // Amount 2000: Should match priority 0 (Deny Large) first, deny it
    let action2 = Action::Transfer {
        chain: "ethereum".to_string(),
        token: "USDC".to_string(),
        to: "0x123".to_string(),
        amount: 2000,
    };
    let result2 = ac.evaluate_action(&action2, &principal, 0);
    assert_eq!(result2.decision, PolicyDecision::Denied);
    assert_eq!(result2.matched_policy, Some("Deny Large".to_string()));
}

#[test]
fn test_policy_priority_first_match_wins() {
    let mut ac = AccessControl::new();
    let principal = mock_principal(1);

    // Add policies in reverse priority order
    let policy_low = Policy {
        name: "Low Priority Allow".to_string(),
        conditions: vec![Condition::MaxAmount(1000)],
        action: PolicyAction::Allow,
        priority: 10,
    };

    let policy_high = Policy {
        name: "High Priority Deny".to_string(),
        conditions: vec![Condition::MaxAmount(1000)],
        action: PolicyAction::Deny,
        priority: 1,
    };

    ac.add_policy(policy_low);
    ac.add_policy(policy_high);

    let action = Action::Transfer {
        chain: "ethereum".to_string(),
        token: "USDC".to_string(),
        to: "0x123".to_string(),
        amount: 500,
    };

    let result = ac.evaluate_action(&action, &principal, 0);
    // High priority (lower number) should win
    assert_eq!(result.decision, PolicyDecision::Denied);
    assert_eq!(result.matched_policy, Some("High Priority Deny".to_string()));
}

// ==================== Combined Conditions Tests (AND Logic) ====================

#[test]
fn test_multiple_conditions_all_match() {
    let mut ac = AccessControl::new();
    let principal = mock_principal(1);

    let policy = Policy {
        name: "Strict Policy".to_string(),
        conditions: vec![
            Condition::MaxAmount(10000),
            Condition::AllowedChains(vec!["ethereum".to_string()]),
            Condition::AllowedTokens(vec!["USDC".to_string(), "USDT".to_string()]),
        ],
        action: PolicyAction::Allow,
        priority: 1,
    };

    ac.add_policy(policy);

    // All conditions match
    let action = Action::Transfer {
        chain: "ethereum".to_string(),
        token: "USDC".to_string(),
        to: "0x123".to_string(),
        amount: 5000,
    };

    let result = ac.evaluate_action(&action, &principal, 0);
    assert_eq!(result.decision, PolicyDecision::Allowed);
}

#[test]
fn test_multiple_conditions_one_fails() {
    let mut ac = AccessControl::new();
    let principal = mock_principal(1);

    let policy = Policy {
        name: "Strict Policy".to_string(),
        conditions: vec![
            Condition::MaxAmount(10000),
            Condition::AllowedChains(vec!["ethereum".to_string()]),
            Condition::AllowedTokens(vec!["USDC".to_string()]),
        ],
        action: PolicyAction::Allow,
        priority: 1,
    };

    ac.add_policy(policy);

    // Wrong token - should not match
    let action = Action::Transfer {
        chain: "ethereum".to_string(),
        token: "DAI".to_string(),
        to: "0x123".to_string(),
        amount: 5000,
    };

    let result = ac.evaluate_action(&action, &principal, 0);
    assert_eq!(result.decision, PolicyDecision::Denied);
}

#[test]
fn test_multiple_conditions_complex() {
    let mut ac = AccessControl::new();
    let principal = mock_principal(1);

    let policy = Policy {
        name: "Complex Policy".to_string(),
        conditions: vec![
            Condition::MinAmount(100),
            Condition::MaxAmount(10000),
            Condition::AllowedChains(vec!["ethereum".to_string(), "polygon".to_string()]),
            Condition::DailyLimit(50000),
        ],
        action: PolicyAction::Allow,
        priority: 1,
    };

    ac.add_policy(policy);

    // Amount too small
    let action1 = Action::Transfer {
        chain: "ethereum".to_string(),
        token: "USDC".to_string(),
        to: "0x123".to_string(),
        amount: 50,
    };
    let result1 = ac.evaluate_action(&action1, &principal, 0);
    assert_eq!(result1.decision, PolicyDecision::Denied);

    // Amount too large
    let action2 = Action::Transfer {
        chain: "ethereum".to_string(),
        token: "USDC".to_string(),
        to: "0x123".to_string(),
        amount: 15000,
    };
    let result2 = ac.evaluate_action(&action2, &principal, 0);
    assert_eq!(result2.decision, PolicyDecision::Denied);

    // Wrong chain
    let action3 = Action::Transfer {
        chain: "arbitrum".to_string(),
        token: "USDC".to_string(),
        to: "0x123".to_string(),
        amount: 5000,
    };
    let result3 = ac.evaluate_action(&action3, &principal, 0);
    assert_eq!(result3.decision, PolicyDecision::Denied);

    // Exceeds daily limit
    let action4 = Action::Transfer {
        chain: "ethereum".to_string(),
        token: "USDC".to_string(),
        to: "0x123".to_string(),
        amount: 5000,
    };
    let result4 = ac.evaluate_action(&action4, &principal, 48000);
    assert_eq!(result4.decision, PolicyDecision::Denied);

    // All conditions match
    let action5 = Action::Transfer {
        chain: "polygon".to_string(),
        token: "USDC".to_string(),
        to: "0x123".to_string(),
        amount: 5000,
    };
    let result5 = ac.evaluate_action(&action5, &principal, 10000);
    assert_eq!(result5.decision, PolicyDecision::Allowed);
}

// ==================== Edge Cases: Conflicting Policies ====================

#[test]
fn test_conflicting_policies_priority_resolution() {
    let mut ac = AccessControl::new();
    let principal = mock_principal(1);

    // Conflicting policies for same amount range
    let allow_policy = Policy {
        name: "Allow Transfer".to_string(),
        conditions: vec![Condition::MaxAmount(5000)],
        action: PolicyAction::Allow,
        priority: 2, // Lower priority
    };

    let deny_policy = Policy {
        name: "Deny Transfer".to_string(),
        conditions: vec![Condition::MaxAmount(5000)],
        action: PolicyAction::Deny,
        priority: 1, // Higher priority
    };

    ac.add_policy(allow_policy);
    ac.add_policy(deny_policy);

    let action = Action::Transfer {
        chain: "ethereum".to_string(),
        token: "USDC".to_string(),
        to: "0x123".to_string(),
        amount: 3000,
    };

    let result = ac.evaluate_action(&action, &principal, 0);
    // Deny should win (higher priority = lower number)
    assert_eq!(result.decision, PolicyDecision::Denied);
    assert_eq!(result.matched_policy, Some("Deny Transfer".to_string()));
}

#[test]
fn test_overlapping_policies_different_conditions() {
    let mut ac = AccessControl::new();
    let principal = mock_principal(1);

    // Policy 1: Allow small amounts on ethereum
    let policy1 = Policy {
        name: "Allow Ethereum Small".to_string(),
        conditions: vec![
            Condition::MaxAmount(1000),
            Condition::AllowedChains(vec!["ethereum".to_string()]),
        ],
        action: PolicyAction::Allow,
        priority: 1,
    };

    // Policy 2: Deny all polygon
    let policy2 = Policy {
        name: "Deny Polygon".to_string(),
        conditions: vec![
            Condition::AllowedChains(vec!["polygon".to_string()]),
        ],
        action: PolicyAction::Deny,
        priority: 2,
    };

    ac.add_policy(policy1);
    ac.add_policy(policy2);

    // Ethereum small - should be allowed
    let action1 = Action::Transfer {
        chain: "ethereum".to_string(),
        token: "USDC".to_string(),
        to: "0x123".to_string(),
        amount: 500,
    };
    let result1 = ac.evaluate_action(&action1, &principal, 0);
    assert_eq!(result1.decision, PolicyDecision::Allowed);

    // Polygon small - should be denied by default (doesn't match policy1)
    let action2 = Action::Transfer {
        chain: "polygon".to_string(),
        token: "USDC".to_string(),
        to: "0x123".to_string(),
        amount: 500,
    };
    let result2 = ac.evaluate_action(&action2, &principal, 0);
    assert_eq!(result2.decision, PolicyDecision::Denied);
}

// ==================== Edge Cases: No Policies (Deny by Default) ====================

#[test]
fn test_no_policies_deny_by_default() {
    let ac = AccessControl::new();
    let principal = mock_principal(1);

    let action = Action::Transfer {
        chain: "ethereum".to_string(),
        token: "USDC".to_string(),
        to: "0x123".to_string(),
        amount: 100,
    };

    let result = ac.evaluate_action(&action, &principal, 0);
    assert_eq!(result.decision, PolicyDecision::Denied);
    assert_eq!(result.reason, "No matching policy found");
    assert_eq!(result.matched_policy, None);
}

#[test]
fn test_no_matching_policy_deny_by_default() {
    let mut ac = AccessControl::new();
    let principal = mock_principal(1);

    // Policy only allows ethereum
    let policy = Policy {
        name: "Ethereum Only".to_string(),
        conditions: vec![Condition::AllowedChains(vec!["ethereum".to_string()])],
        action: PolicyAction::Allow,
        priority: 1,
    };

    ac.add_policy(policy);

    // Action on different chain
    let action = Action::Transfer {
        chain: "polygon".to_string(),
        token: "USDC".to_string(),
        to: "0x123".to_string(),
        amount: 100,
    };

    let result = ac.evaluate_action(&action, &principal, 0);
    assert_eq!(result.decision, PolicyDecision::Denied);
    assert_eq!(result.reason, "No matching policy found");
}

// ==================== Threshold Tests with Different Roles ====================

#[test]
fn test_threshold_with_specific_roles() {
    let mut ac = AccessControl::new();
    let principal = mock_principal(1);

    let policy = Policy {
        name: "Require Owner Approval".to_string(),
        conditions: vec![Condition::MaxAmount(10000)],
        action: PolicyAction::RequireThreshold {
            required: 2,
            from_roles: vec![Role::Owner],
        },
        priority: 1,
    };

    ac.add_policy(policy);

    let action = Action::Transfer {
        chain: "ethereum".to_string(),
        token: "USDC".to_string(),
        to: "0x123".to_string(),
        amount: 5000,
    };

    let result = ac.evaluate_action(&action, &principal, 0);
    assert_eq!(result.decision, PolicyDecision::RequiresThreshold);
    assert_eq!(result.matched_policy, Some("Require Owner Approval".to_string()));
}

#[test]
fn test_threshold_with_multiple_roles() {
    let mut ac = AccessControl::new();
    let principal = mock_principal(1);

    let policy = Policy {
        name: "Require Multi-Role Approval".to_string(),
        conditions: vec![
            Condition::MaxAmount(50000),
            Condition::AllowedChains(vec!["ethereum".to_string()]),
        ],
        action: PolicyAction::RequireThreshold {
            required: 3,
            from_roles: vec![Role::Owner, Role::Operator],
        },
        priority: 1,
    };

    ac.add_policy(policy);

    let action = Action::Transfer {
        chain: "ethereum".to_string(),
        token: "USDC".to_string(),
        to: "0x123".to_string(),
        amount: 25000,
    };

    let result = ac.evaluate_action(&action, &principal, 0);
    assert_eq!(result.decision, PolicyDecision::RequiresThreshold);
}

// ==================== Time Window and Cooldown Tests ====================

#[test]
fn test_time_window_within_allowed() {
    let mut ac = AccessControl::new();
    let principal = mock_principal(1);

    let policy = Policy {
        name: "Business Hours Only".to_string(),
        conditions: vec![
            Condition::TimeWindow { start: 9, end: 17 }, // 9 AM to 5 PM
            Condition::MaxAmount(10000),
        ],
        action: PolicyAction::Allow,
        priority: 1,
    };

    ac.add_policy(policy);

    let action = Action::Transfer {
        chain: "ethereum".to_string(),
        token: "USDC".to_string(),
        to: "0x123".to_string(),
        amount: 5000,
    };

    // Current time: 12 (noon) - within window
    let result = ac.evaluate_action(&action, &principal, 12);
    assert_eq!(result.decision, PolicyDecision::Allowed);
}



// ==================== Swap Action Tests ====================

#[test]
fn test_policy_swap_action() {
    let mut ac = AccessControl::new();
    let principal = mock_principal(1);

    let policy = Policy {
        name: "Allow Swaps".to_string(),
        conditions: vec![
            Condition::MaxAmount(1000000), // Max input amount
            Condition::AllowedChains(vec!["Sepolia".to_string()]),
        ],
        action: PolicyAction::Allow,
        priority: 1,
    };

    ac.add_policy(policy);

    let swap_action = Action::Swap {
        chain: "Sepolia".to_string(),
        token_in: "USDC".to_string(),
        token_out: "ETH".to_string(),
        amount_in: 500000,
        min_amount_out: 1,
        fee_tier: Some(3000),
    };

    let result = ac.evaluate_action(&swap_action, &principal, 0);
    assert_eq!(result.decision, PolicyDecision::Allowed);
}

#[test]
fn test_policy_swap_exceeds_limit() {
    let mut ac = AccessControl::new();
    let principal = mock_principal(1);

    let policy = Policy {
        name: "Limit Swaps".to_string(),
        conditions: vec![Condition::MaxAmount(100000)],
        action: PolicyAction::Deny,
        priority: 1,
    };

    ac.add_policy(policy);

    let swap_action = Action::Swap {
        chain: "Sepolia".to_string(),
        token_in: "USDC".to_string(),
        token_out: "ETH".to_string(),
        amount_in: 500000,
        min_amount_out: 1,
        fee_tier: None,
    };

    let result = ac.evaluate_action(&swap_action, &principal, 0);
    assert_eq!(result.decision, PolicyDecision::Denied);
}

// ==================== Policy Update Tests ====================

#[test]
fn test_policy_update() {
    let mut ac = AccessControl::new();
    let principal = mock_principal(1);

    let initial_policy = Policy {
        name: "Initial".to_string(),
        conditions: vec![Condition::MaxAmount(1000)],
        action: PolicyAction::Allow,
        priority: 1,
    };

    let id = ac.add_policy(initial_policy);

    let updated_policy = Policy {
        name: "Updated".to_string(),
        conditions: vec![Condition::MaxAmount(5000)],
        action: PolicyAction::Allow,
        priority: 1,
    };

    assert!(ac.update_policy(id as usize, updated_policy));

    let action = Action::Transfer {
        chain: "ethereum".to_string(),
        token: "USDC".to_string(),
        to: "0x123".to_string(),
        amount: 3000,
    };

    let result = ac.evaluate_action(&action, &principal, 0);
    assert_eq!(result.decision, PolicyDecision::Allowed);
    assert_eq!(result.matched_policy, Some("Updated".to_string()));
}

#[test]
fn test_policy_update_invalid_index() {
    let mut ac = AccessControl::new();

    let policy = Policy {
        name: "Test".to_string(),
        conditions: vec![Condition::MaxAmount(1000)],
        action: PolicyAction::Allow,
        priority: 1,
    };

    assert!(!ac.update_policy(999, policy));
}

#[test]
fn test_policy_remove_invalid_index() {
    let mut ac = AccessControl::new();
    assert!(!ac.remove_policy(999));
}
