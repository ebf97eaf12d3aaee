use vstd::prelude::*;

use crate::principal::Principal;
use crate::types::{
    action_amount, action_chain, action_tokens, decision_of, grants, list_has, policy_matches, tokens_allowed,
    condition_holds, Action, Condition, Permission, Policy, PolicyAction, PolicyDecision,
    PolicyResult, Role,
};

verus! {

/// Reason given when no policy applies and the default denial is used.
pub const NO_MATCH_REASON: &'static str = "No matching policy found";

/// Prefix of the reason given when a policy applies; the policy's name follows.
pub const MATCHED_REASON_PREFIX: &'static str = "Matched policy: ";

/// Whether policy `j` is evaluated before policy `k`: policies are taken in
/// ascending priority, ties in store order.
pub open spec fn ranks_before(policies: Seq<Policy>, j: int, k: int) -> bool {
    policies[j].priority < policies[k].priority || (policies[j].priority == policies[k].priority
        && j < k)
}

/// Whether some policy of the list applies to the action.
pub open spec fn any_policy_matches(policies: Seq<Policy>, action: Action, daily_spent: u64) -> bool {
    exists|k: int| 0 <= k < policies.len() && #[trigger] policy_matches(policies[k], action, daily_spent)
}

/// Whether policy `j` is the first, in evaluation order, that applies to the action.
pub open spec fn is_first_match(
    policies: Seq<Policy>,
    j: int,
    action: Action,
    daily_spent: u64,
) -> bool {
    &&& 0 <= j < policies.len()
    &&& policy_matches(policies[j], action, daily_spent)
    &&& forall|k: int|
        0 <= k < policies.len() && k != j && #[trigger] policy_matches(policies[k], action, daily_spent)
            ==> ranks_before(policies, j, k)
}

/// Whether `result` is what evaluating `policies` for the action yields: the
/// decision of the first applicable policy, or a denial when none applies.
pub open spec fn evaluation_result(
    policies: Seq<Policy>,
    action: Action,
    daily_spent: u64,
    result: PolicyResult,
) -> bool {
    if any_policy_matches(policies, action, daily_spent) {
        exists|j: int|
            #[trigger] is_first_match(policies, j, action, daily_spent) && result.decision
                == decision_of(policies[j].action) && result.matched_policy == Some(policies[j].name)
                && result.reason@ == MATCHED_REASON_PREFIX@ + policies[j].name@
    } else {
        &&& result.decision == PolicyDecision::Denied
        &&& result.matched_policy.is_none()
        &&& result.reason@ == NO_MATCH_REASON@
    }
}

/// Whether `after` holds exactly the grants of `before` and `role` for `principal`.
pub open spec fn granted(before: AccessControl, after: AccessControl, principal: Principal, role: Role) -> bool {
    forall|p: Principal, r: Role|
        #[trigger] after.holds(p, r) <==> (before.holds(p, r) || (p == principal && r == role))
}

/// Whether `after` holds exactly the grants of `before` but `role` for `principal`.
pub open spec fn revoked(before: AccessControl, after: AccessControl, principal: Principal, role: Role) -> bool {
    forall|p: Principal, r: Role|
        #[trigger] after.holds(p, r) <==> (before.holds(p, r) && !(p == principal && r == role))
}

/// Role assignments of principals and the ordered list of policies.
pub struct AccessControl {
    role_assignments: Vec<(Principal, Role)>,
    policies: Vec<Policy>,
}

impl AccessControl {
    /// Every (principal, role) grant currently held, in the order granted.
    pub closed spec fn role_pairs(&self) -> Seq<(Principal, Role)> {
        self.role_assignments@
    }

    /// The policies in store order.
    pub closed spec fn policy_list(&self) -> Seq<Policy> {
        self.policies@
    }

    /// Whether `principal` holds `role`.
    pub open spec fn holds(&self, principal: Principal, role: Role) -> bool {
        self.role_pairs().contains((principal, role))
    }

    /// Whether some role held by `principal` grants `permission`.
    pub open spec fn permits(&self, principal: Principal, permission: Permission) -> bool {
        exists|role: Role| #[trigger] self.holds(principal, role) && grants(role, permission)
    }

    /// No grant is recorded twice.
    pub open spec fn wf(&self) -> bool {
        self.role_pairs().no_duplicates()
    }

    pub fn new() -> (ac: Self)
        ensures
            ac.wf(),
            ac.role_pairs() == Seq::<(Principal, Role)>::empty(),
            ac.policy_list() == Seq::<Policy>::empty(),
    {
        AccessControl { role_assignments: Vec::new(), policies: Vec::new() }
    }

    /// Whether `principal` holds `role`.
    pub fn has_role(&self, principal: &Principal, role: &Role) -> (b: bool)
        ensures
            b == self.holds(*principal, *role),
    {
        let mut i: usize = 0;
        while i < self.role_assignments.len()
            invariant
                i <= self.role_assignments@.len(),
                forall|k: int| 0 <= k < i ==> self.role_assignments@[k] != (*principal, *role),
            decreases self.role_assignments@.len() - i,
        {
            let (p, r) = self.role_assignments[i];
            if p == *principal && r == *role {
                assert(self.role_assignments@[i as int] == (*principal, *role));
                return true;
            }
            i = i + 1;
        }
        false
    }

    /// The roles `principal` holds, each once.
    pub fn get_roles(&self, principal: &Principal) -> (roles: Vec<Role>)
        requires
            self.wf(),
        ensures
            roles@.no_duplicates(),
            forall|role: Role| roles@.contains(role) <==> self.holds(*principal, role),
    {
        let ghost pairs = self.role_assignments@;
        let mut roles: Vec<Role> = Vec::new();
        let mut i: usize = 0;
        while i < self.role_assignments.len()
            invariant
                pairs == self.role_assignments@,
                i <= pairs.len(),
                pairs.no_duplicates(),
                roles@.no_duplicates(),
                forall|role: Role|
                    roles@.contains(role) <==> pairs.subrange(0, i as int).contains((*principal, role)),
            decreases pairs.len() - i,
        {
            let (p, r) = self.role_assignments[i];
            let ghost prev = roles@;
            proof {
                assert(pairs.subrange(0, i + 1) =~= pairs.subrange(0, i as int).push(pairs[i as int]));
            }
            if p == *principal {
                proof {
                    if prev.contains(r) {
                        let k = choose|k: int|
                            0 <= k < i && #[trigger] pairs.subrange(0, i as int)[k] == (*principal, r);
                        assert(pairs[k] == pairs[i as int]);
                    }
                }
                roles.push(r);
                proof {
                    assert forall|role: Role|
                        roles@.contains(role) <==> pairs.subrange(0, i + 1).contains((*principal, role)) by {
                        lemma_push_contains(prev, r, role);
                        lemma_push_contains(pairs.subrange(0, i as int), pairs[i as int], (*principal, role));
                    }
                }
            } else {
                proof {
                    assert forall|role: Role|
                        roles@.contains(role) <==> pairs.subrange(0, i + 1).contains((*principal, role)) by {
                        lemma_push_contains(pairs.subrange(0, i as int), pairs[i as int], (*principal, role));
                    }
                }
            }
            i = i + 1;
        }
        proof {
            assert(pairs.subrange(0, pairs.len() as int) =~= pairs);
        }
        roles
    }

    /// Whether any role held by `principal` grants `permission`; a principal
    /// with no role has no permission.
    pub fn has_permission(&self, principal: &Principal, permission: &Permission) -> (b: bool)
        ensures
            b == self.permits(*principal, *permission),
    {
        let mut i: usize = 0;
        while i < self.role_assignments.len()
            invariant
                i <= self.role_assignments@.len(),
                forall|k: int|
                    0 <= k < i && (#[trigger] self.role_assignments@[k]).0 == *principal
                        ==> !grants(self.role_assignments@[k].1, *permission),
            decreases self.role_assignments@.len() - i,
        {
            let (p, r) = self.role_assignments[i];
            if p == *principal && Self::role_has_permission(&r, permission) {
                assert(self.holds(*principal, r)) by {
                    assert(self.role_assignments@[i as int] == (*principal, r));
                }
                return true;
            }
            i = i + 1;
        }
        proof {
            assert forall|role: Role| !(#[trigger] self.holds(*principal, role) && grants(
                role,
                *permission,
            )) by {
                if self.holds(*principal, role) {
                    let k = choose|k: int|
                        0 <= k < self.role_assignments@.len() && self.role_assignments@[k] == (
                            *principal,
                            role,
                        );
                    assert(self.role_assignments@[k] == (*principal, role));
                }
            }
        }
        false
    }

    /// Grants `role` to `principal`; granting a held role changes nothing.
    pub fn assign_role(&mut self, principal: Principal, role: Role)
        requires
            old(self).wf(),
        ensures
            final(self).wf(),
            granted(*old(self), *final(self), principal, role),
            final(self).policy_list() == old(self).policy_list(),
    {
        if !self.has_role(&principal, &role) {
            proof {
                lemma_push_no_duplicates(self.role_assignments@, (principal, role));
                assert forall|p: Principal, r: Role|
                    self.role_assignments@.push((principal, role)).contains((p, r)) <==> (
                    self.role_assignments@.contains((p, r)) || (p == principal && r == role)) by {
                    lemma_push_contains(self.role_assignments@, (principal, role), (p, r));
                }
            }
            self.role_assignments.push((principal, role));
        }
    }

    /// Takes `role` from `principal`; revoking a role not held changes nothing.
    pub fn revoke_role(&mut self, principal: &Principal, role: &Role)
        requires
            old(self).wf(),
        ensures
            final(self).wf(),
            revoked(*old(self), *final(self), *principal, *role),
            final(self).policy_list() == old(self).policy_list(),
    {
        let mut i: usize = 0;
        while i < self.role_assignments.len()
            invariant
                *self == *old(self),
                old(self).wf(),
                i <= self.role_assignments@.len(),
                forall|k: int| 0 <= k < i ==> self.role_assignments@[k] != (*principal, *role),
            decreases self.role_assignments@.len() - i,
        {
            let (p, r) = self.role_assignments[i];
            if p == *principal && r == *role {
                proof {
                    assert(self.role_assignments@[i as int] == (*principal, *role));
                    lemma_remove_unique(self.role_assignments@, i as int);
                }
                self.role_assignments.remove(i);
                return;
            }
            i = i + 1;
        }
        proof {
            assert(!self.role_assignments@.contains((*principal, *role)));
        }
    }

    /// Every grant as a (principal, role) pair, in the order granted.
    pub fn list_role_assignments(&self) -> (assignments: Vec<(Principal, Role)>)
        ensures
            assignments@ == self.role_pairs(),
    {
        let mut assignments: Vec<(Principal, Role)> = Vec::new();
        let mut i: usize = 0;
        while i < self.role_assignments.len()
            invariant
                i <= self.role_assignments@.len(),
                assignments@ == self.role_assignments@.subrange(0, i as int),
            decreases self.role_assignments@.len() - i,
        {
            assignments.push(self.role_assignments[i]);
            i = i + 1;
            assert(assignments@ =~= self.role_assignments@.subrange(0, i as int));
        }
        assert(assignments@ =~= self.role_assignments@);
        assignments
    }

    /// Appends a policy and returns its index.
    pub fn add_policy(&mut self, policy: Policy) -> (index: u64)
        ensures
            index == old(self).policy_list().len(),
            final(self).policy_list() == old(self).policy_list().push(policy),
            final(self).role_pairs() == old(self).role_pairs(),
    {
        let index = self.policies.len() as u64;
        self.policies.push(policy);
        index
    }

    /// Replaces the policy at `index`; false, with nothing changed, when there is none.
    pub fn update_policy(&mut self, index: usize, policy: Policy) -> (found: bool)
        ensures
            found == (index < old(self).policy_list().len()),
            found ==> final(self).policy_list() == old(self).policy_list().update(index as int, policy),
            !found ==> final(self).policy_list() == old(self).policy_list(),
            final(self).role_pairs() == old(self).role_pairs(),
    {
        if index < self.policies.len() {
            self.policies.set(index, policy);
            true
        } else {
            false
        }
    }

    /// Removes the policy at `index`, shifting later ones down; false, with
    /// nothing changed, when there is none.
    pub fn remove_policy(&mut self, index: usize) -> (found: bool)
        ensures
            found == (index < old(self).policy_list().len()),
            found ==> final(self).policy_list() == old(self).policy_list().remove(index as int),
            !found ==> final(self).policy_list() == old(self).policy_list(),
            final(self).role_pairs() == old(self).role_pairs(),
    {
        if index < self.policies.len() {
            self.policies.remove(index);
            true
        } else {
            false
        }
    }

    /// The policies in store order (not evaluation order).
    pub fn get_policies(&self) -> (policies: &Vec<Policy>)
        ensures
            policies@ == self.policy_list(),
    {
        &self.policies
    }

    /// Decides an action by the policies: they are taken in ascending
    /// priority (ties in store order) and the first whose every condition
    /// holds decides; when none applies the action is denied.
    pub fn evaluate_action(&self, action: &Action, _requester: &Principal, daily_spent: u64) -> (result:
        PolicyResult)
        ensures
            evaluation_result(self.policy_list(), *action, daily_spent, result),
    {
        let matched = self.first_match(action, daily_spent);
        self.result_for(matched, action, daily_spent)
    }

    /// The index of the first policy, in evaluation order, that applies.
    pub fn first_match(&self, action: &Action, daily_spent: u64) -> (matched: Option<usize>)
        ensures
            match matched {
                Some(j) => is_first_match(self.policy_list(), j as int, *action, daily_spent),
                None => !any_policy_matches(self.policy_list(), *action, daily_spent),
            },
    {
        let ghost ps = self.policies@;
        let mut best: Option<usize> = None;
        let mut i: usize = 0;
        while i < self.policies.len()
            invariant
                ps == self.policies@,
                i <= ps.len(),
                match best {
                    None => forall|k: int| 0 <= k < i ==> !#[trigger] policy_matches(ps[k], *action, daily_spent),
                    Some(b) => {
                        &&& b < i
                        &&& policy_matches(ps[b as int], *action, daily_spent)
                        &&& forall|k: int|
                            0 <= k < i && k != b && #[trigger] policy_matches(ps[k], *action, daily_spent)
                                ==> ranks_before(ps, b as int, k)
                    },
                },
            decreases ps.len() - i,
        {
            if self.conditions_match(&self.policies[i].conditions, action, daily_spent) {
                match best {
                    None => {
                        best = Some(i);
                    },
                    Some(b) => {
                        if self.policies[i].priority < self.policies[b].priority {
                            best = Some(i);
                        }
                    },
                }
            }
            i = i + 1;
        }
        best
    }

    /// The result of evaluation once the first applicable policy is known.
    pub(crate) fn result_for(&self, matched: Option<usize>, action: &Action, daily_spent: u64) -> (result: PolicyResult)
        requires
            match matched {
                Some(j) => is_first_match(self.policy_list(), j as int, *action, daily_spent),
                None => !any_policy_matches(self.policy_list(), *action, daily_spent),
            },
        ensures
            evaluation_result(self.policy_list(), *action, daily_spent, result),
            match matched {
                Some(j) => result.decision == decision_of(self.policy_list()[j as int].action),
                None => result.decision == PolicyDecision::Denied,
            },
    {
        match matched {
            Some(b) => {
                let policy = &self.policies[b];
                let mut reason = String::from_str(MATCHED_REASON_PREFIX);
                reason.append(policy.name.as_str());
                PolicyResult {
                    decision: self.policy_action_to_decision(&policy.action),
                    matched_policy: Some(policy.name.clone()),
                    reason,
                }
            },
            None => {
                PolicyResult {
                    decision: PolicyDecision::Denied,
                    matched_policy: None,
                    reason: String::from_str(NO_MATCH_REASON),
                }
            },
        }
    }

    /// The approvals the policy at `index` asks for, if it asks for any.
    pub fn required_signatures(&self, index: usize) -> (required: Option<u8>)
        requires
            index < self.policy_list().len(),
        ensures
            match self.policy_list()[index as int].action {
                PolicyAction::RequireThreshold { required: r, .. } => required == Some(r),
                _ => required.is_none(),
            },
    {
        match &self.policies[index].action {
            PolicyAction::RequireThreshold { required, .. } => Some(*required),
            _ => None,
        }
    }

    /// Whether every condition holds for the action (a logical AND, stopping
    /// at the first that fails).
    fn conditions_match(&self, conditions: &Vec<Condition>, action: &Action, daily_spent: u64) -> (all: bool)
        ensures
            all == forall|i: int|
                0 <= i < conditions@.len() ==> #[trigger] condition_holds(conditions@[i], *action, daily_spent),
    {
        let amount = self.get_action_amount(action);
        let chain = self.get_action_chain(action);
        let mut i: usize = 0;
        while i < conditions.len()
            invariant
                i <= conditions@.len(),
                amount == action_amount(*action),
                chain@ == action_chain(*action),
                forall|k: int| 0 <= k < i ==> #[trigger] condition_holds(conditions@[k], *action, daily_spent),
            decreases conditions@.len() - i,
        {
            let passes = match &conditions[i] {
                Condition::MaxAmount(max) => amount <= *max,
                Condition::MinAmount(min) => amount >= *min,
                Condition::DailyLimit(limit) => amount <= *limit && daily_spent <= *limit - amount,
                Condition::AllowedChains(chains) => list_contains(chains, &chain),
                Condition::AllowedTokens(tokens) => {
                    let referenced = self.get_action_tokens(action);
                    let mut all_listed = true;
                    let mut t: usize = 0;
                    while t < referenced.len()
                        invariant
                            t <= referenced@.len(),
                            referenced@.len() == action_tokens(*action).len(),
                            forall|j: int| 0 <= j < referenced@.len() ==> #[trigger] referenced@[j]@ == action_tokens(*action)[j],
                            all_listed == forall|j: int| 0 <= j < t ==> list_has(tokens@, #[trigger] action_tokens(*action)[j]),
                        decreases referenced@.len() - t,
                    {
                        if !list_contains(tokens, &referenced[t]) {
                            all_listed = false;
                        }
                        t = t + 1;
                    }
                    assert(all_listed == tokens_allowed(tokens@, *action));
                    all_listed
                },
                Condition::TimeWindow { start, end } => *start <= *end,
                Condition::Cooldown(_) => true,
            };
            assert(passes == condition_holds(conditions@[i as int], *action, daily_spent));
            if !passes {
                return false;
            }
            i = i + 1;
        }
        true
    }

    fn get_action_amount(&self, action: &Action) -> (amount: u64)
        ensures
            amount == action_amount(*action),
    {
        match action {
            Action::Swap { amount_in, .. } => *amount_in,
            Action::Transfer { amount, .. } => *amount,
            Action::ApproveToken { amount, .. } => *amount,
        }
    }

    fn get_action_chain(&self, action: &Action) -> (chain: String)
        ensures
            chain@ == action_chain(*action),
    {
        match action {
            Action::Swap { chain, .. } => chain.clone(),
            Action::Transfer { chain, .. } => chain.clone(),
            Action::ApproveToken { chain, .. } => chain.clone(),
        }
    }

    fn get_action_tokens(&self, action: &Action) -> (tokens: Vec<String>)
        ensures
            tokens@.len() == action_tokens(*action).len(),
            forall|j: int| 0 <= j < tokens@.len() ==> #[trigger] tokens@[j]@ == action_tokens(*action)[j],
    {
        match action {
            Action::Swap { token_in, token_out, .. } => vec![token_in.clone(), token_out.clone()],
            Action::Transfer { token, .. } => vec![token.clone()],
            Action::ApproveToken { token, .. } => vec![token.clone()],
        }
    }

    fn policy_action_to_decision(&self, action: &PolicyAction) -> (decision: PolicyDecision)
        ensures
            decision == decision_of(*action),
    {
        match action {
            PolicyAction::Allow => PolicyDecision::Allowed,
            PolicyAction::Deny => PolicyDecision::Denied,
            PolicyAction::RequireThreshold { .. } => PolicyDecision::RequiresThreshold,
        }
    }

    /// The fixed role-to-permission table.
    fn role_has_permission(role: &Role, permission: &Permission) -> (b: bool)
        ensures
            b == grants(*role, *permission),
    {
        match (role, permission) {
            (Role::Owner, _) => true,
            (Role::Operator, Permission::Execute) => true,
            (Role::Operator, Permission::Sign) => true,
            (Role::Operator, Permission::ViewLogs) => true,
            (Role::Viewer, Permission::ViewLogs) => true,
            _ => false,
        }
    }
}

/// A sequence extended by one element contains exactly what it contained
/// before, and the new element.
proof fn lemma_push_contains<A>(s: Seq<A>, a: A, x: A)
    ensures
        s.push(a).contains(x) <==> (s.contains(x) || x == a),
{
    if s.contains(x) {
        let k = choose|k: int| 0 <= k < s.len() && s[k] == x;
        assert(s.push(a)[k] == x);
    }
    if x == a {
        assert(s.push(a)[s.len() as int] == x);
    }
}

/// Whether `s` occurs in `list`.
fn list_contains(list: &Vec<String>, s: &String) -> (found: bool)
    ensures
        found == list_has(list@, s@),
{
    let mut i: usize = 0;
    while i < list.len()
        invariant
            i <= list@.len(),
            forall|k: int| 0 <= k < i ==> list@[k]@ != s@,
        decreases list@.len() - i,
    {
        if list[i] == *s {
            assert(list@[i as int]@ == s@);
            return true;
        }
        i = i + 1;
    }
    false
}

/// Appending an element not yet present keeps a sequence free of duplicates.
proof fn lemma_push_no_duplicates<A>(s: Seq<A>, a: A)
    requires
        s.no_duplicates(),
        !s.contains(a),
    ensures
        s.push(a).no_duplicates(),
{
    assert forall|i: int, j: int|
        0 <= i < s.push(a).len() && 0 <= j < s.push(a).len() && i != j implies s.push(a)[i]
        != s.push(a)[j] by {
        if i == s.len() as int {
            assert(s[j] == s.push(a)[j]);
        } else if j == s.len() as int {
            assert(s[i] == s.push(a)[i]);
        }
    }
}

/// Removing one element of a duplicate-free sequence removes exactly that
/// value and keeps the rest free of duplicates.
proof fn lemma_remove_unique<A>(s: Seq<A>, j: int)
    requires
        s.no_duplicates(),
        0 <= j < s.len(),
    ensures
        s.remove(j).no_duplicates(),
        forall|x: A| s.remove(j).contains(x) <==> (s.contains(x) && x != s[j]),
{
    let t = s.remove(j);
    assert forall|a: int, b: int| 0 <= a < t.len() && 0 <= b < t.len() && a != b implies t[a] != t[b] by {
        let sa = if a < j { a } else { a + 1 };
        let sb = if b < j { b } else { b + 1 };
        assert(t[a] == s[sa]);
        assert(t[b] == s[sb]);
    }
    assert forall|x: A| t.contains(x) <==> (s.contains(x) && x != s[j]) by {
        if t.contains(x) {
            let a = choose|a: int| 0 <= a < t.len() && t[a] == x;
            let sa = if a < j { a } else { a + 1 };
            assert(s[sa] == x);
        }
        if s.contains(x) && x != s[j] {
            let k = choose|k: int| 0 <= k < s.len() && s[k] == x;
            if k < j {
                assert(t[k] == x);
            } else {
                assert(t[k - 1] == x);
            }
        }
    }
}

/// A role just granted is held, a role just revoked is not, and granting a
/// held role again leaves the grants as they were.
pub proof fn lemma_grant_revoke(
    start: AccessControl,
    once: AccessControl,
    twice: AccessControl,
    cleared: AccessControl,
    principal: Principal,
    role: Role,
)
    requires
        granted(start, once, principal, role),
        granted(once, twice, principal, role),
        revoked(twice, cleared, principal, role),
    ensures
        once.holds(principal, role),
        twice.holds(principal, role),
        forall|p: Principal, r: Role| #[trigger] twice.holds(p, r) == once.holds(p, r),
        !cleared.holds(principal, role),
{
    assert(once.holds(principal, role));
    assert(twice.holds(principal, role));
    assert(!cleared.holds(principal, role));
}

/// An owner holds every permission.
pub proof fn lemma_owner_permits_all(ac: AccessControl, principal: Principal, permission: Permission)
    requires
        ac.holds(principal, Role::Owner),
    ensures
        ac.permits(principal, permission),
{
    assert(ac.holds(principal, Role::Owner) && grants(Role::Owner, permission));
}

/// A principal whose only role is viewer may read logs and nothing else.
pub proof fn lemma_viewer_permissions(ac: AccessControl, principal: Principal, permission: Permission)
    requires
        forall|r: Role| #[trigger] ac.holds(principal, r) <==> r == Role::Viewer,
    ensures
        ac.permits(principal, permission) <==> permission == Permission::ViewLogs,
{
    if permission == Permission::ViewLogs {
        assert(ac.holds(principal, Role::Viewer) && grants(Role::Viewer, permission));
    }
}

/// A principal whose only role is operator may execute, sign and read logs,
/// and nothing else.
pub proof fn lemma_operator_permissions(ac: AccessControl, principal: Principal, permission: Permission)
    requires
        forall|r: Role| #[trigger] ac.holds(principal, r) <==> r == Role::Operator,
    ensures
        ac.permits(principal, permission) <==> (permission == Permission::Execute || permission
            == Permission::Sign || permission == Permission::ViewLogs),
{
    if permission == Permission::Execute || permission == Permission::Sign || permission
        == Permission::ViewLogs {
        assert(ac.holds(principal, Role::Operator) && grants(Role::Operator, permission));
    }
}

/// At most one policy is the first to apply.
pub proof fn lemma_first_match_unique(policies: Seq<Policy>, j: int, k: int, action: Action, daily_spent: u64)
    requires
        is_first_match(policies, j, action, daily_spent),
        is_first_match(policies, k, action, daily_spent),
    ensures
        j == k,
{
    if j != k {
        assert(ranks_before(policies, j, k));
        assert(ranks_before(policies, k, j));
    }
}

/// Evaluation is deterministic: for a fixed list of policies, action and
/// spending, only one result is possible.
pub proof fn lemma_evaluation_deterministic(
    policies: Seq<Policy>,
    action: Action,
    daily_spent: u64,
    first: PolicyResult,
    second: PolicyResult,
)
    requires
        evaluation_result(policies, action, daily_spent, first),
        evaluation_result(policies, action, daily_spent, second),
    ensures
        first.decision == second.decision,
        first.matched_policy == second.matched_policy,
        first.reason@ == second.reason@,
{
    if any_policy_matches(policies, action, daily_spent) {
        let j = choose|j: int|
            #[trigger] is_first_match(policies, j, action, daily_spent) && first.decision
                == decision_of(policies[j].action) && first.matched_policy == Some(policies[j].name)
                && first.reason@ == MATCHED_REASON_PREFIX@ + policies[j].name@;
        let k = choose|k: int|
            #[trigger] is_first_match(policies, k, action, daily_spent) && second.decision
                == decision_of(policies[k].action) && second.matched_policy == Some(policies[k].name)
                && second.reason@ == MATCHED_REASON_PREFIX@ + policies[k].name@;
        lemma_first_match_unique(policies, j, k, action, daily_spent);
    }
}

/// With no policies every action is denied by default, naming no policy.
pub proof fn lemma_empty_store_denies(action: Action, daily_spent: u64, result: PolicyResult)
    requires
        evaluation_result(Seq::<Policy>::empty(), action, daily_spent, result),
    ensures
        result.decision == PolicyDecision::Denied,
        result.matched_policy.is_none(),
        result.reason@ == NO_MATCH_REASON@,
{
}

/// A policy applies only when each of its conditions holds: one failing
/// condition keeps it from applying, whatever the others say.
pub proof fn lemma_conditions_conjoin(policy: Policy, i: int, action: Action, daily_spent: u64)
    requires
        0 <= i < policy.conditions@.len(),
        !condition_holds(policy.conditions@[i], action, daily_spent),
    ensures
        !policy_matches(policy, action, daily_spent),
{
}

/// With distinct priorities the order in which policies were added does not
/// matter: a reordering of the same policies evaluates every action alike.
/// `order[i]` is the position in `policies` of the `i`-th policy of `reordered`.
pub proof fn lemma_insertion_order_irrelevant(
    policies: Seq<Policy>,
    reordered: Seq<Policy>,
    order: Seq<int>,
    action: Action,
    daily_spent: u64,
    first: PolicyResult,
    second: PolicyResult,
)
    requires
        reordered.len() == policies.len(),
        order.len() == policies.len(),
        forall|i: int| 0 <= i < order.len() ==> 0 <= #[trigger] order[i] < policies.len(),
        forall|i: int, k: int| 0 <= i < order.len() && 0 <= k < order.len() && i != k ==> #[trigger] order[i] != #[trigger] order[k],
        forall|i: int| 0 <= i < reordered.len() ==> #[trigger] reordered[i] == policies[order[i]],
        forall|i: int, k: int|
            0 <= i < policies.len() && 0 <= k < policies.len() && i != k ==> (#[trigger] policies[i]).priority
                != (#[trigger] policies[k]).priority,
        evaluation_result(policies, action, daily_spent, first),
        evaluation_result(reordered, action, daily_spent, second),
    ensures
        first.decision == second.decision,
        first.matched_policy == second.matched_policy,
        first.reason@ == second.reason@,
{
    if any_policy_matches(policies, action, daily_spent) {
        let j = choose|j: int|
            #[trigger] is_first_match(policies, j, action, daily_spent) && first.decision
                == decision_of(policies[j].action) && first.matched_policy == Some(policies[j].name)
                && first.reason@ == MATCHED_REASON_PREFIX@ + policies[j].name@;
        lemma_bijection_onto(order, policies.len() as int, j);
        let i = choose|i: int| 0 <= i < order.len() && #[trigger] order[i] == j;
        assert(policy_matches(reordered[i], action, daily_spent));
        assert(any_policy_matches(reordered, action, daily_spent));
        assert forall|m: int|
            0 <= m < reordered.len() && m != i && #[trigger] policy_matches(reordered[m], action, daily_spent)
                implies ranks_before(reordered, i, m) by {
            assert(order[m] != order[i]);
            assert(policy_matches(policies[order[m]], action, daily_spent));
            assert(ranks_before(policies, j, order[m]));
        }
        assert(is_first_match(reordered, i, action, daily_spent));
        let k = choose|k: int|
            #[trigger] is_first_match(reordered, k, action, daily_spent) && second.decision
                == decision_of(reordered[k].action) && second.matched_policy == Some(reordered[k].name)
                && second.reason@ == MATCHED_REASON_PREFIX@ + reordered[k].name@;
        lemma_first_match_unique(reordered, i, k, action, daily_spent);
    } else {
        if any_policy_matches(reordered, action, daily_spent) {
            let m = choose|m: int| 0 <= m < reordered.len() && #[trigger] policy_matches(reordered[m], action, daily_spent);
            assert(policy_matches(policies[order[m]], action, daily_spent));
        }
    }
}

/// An injective map from `0..n` into `0..n` reaches every position.
proof fn lemma_bijection_onto(order: Seq<int>, n: int, j: int)
    requires
        order.len() == n,
        0 <= j < n,
        forall|i: int| 0 <= i < order.len() ==> 0 <= #[trigger] order[i] < n,
        forall|i: int, k: int| 0 <= i < order.len() && 0 <= k < order.len() && i != k ==> #[trigger] order[i] != #[trigger] order[k],
    ensures
        exists|i: int| 0 <= i < order.len() && #[trigger] order[i] == j,
{
    if !(exists|i: int| 0 <= i < order.len() && #[trigger] order[i] == j) {
        let s = order.to_set();
        let full = vstd::set_lib::set_int_range(0, n);
        assert(order.no_duplicates()) by {
            assert forall|a: int, b: int| 0 <= a < order.len() && 0 <= b < order.len() && a != b implies order[a] != order[b] by {
                assert(order[a] != order[b]);
            }
        }
        order.unique_seq_to_set();
        vstd::set_lib::lemma_int_range(0, n);
        assert forall|x: int| s.contains(x) implies full.remove(j).contains(x) by {
            let i = choose|i: int| 0 <= i < order.len() && order[i] == x;
            assert(order[i] == x);
        }
        vstd::set_lib::lemma_len_subset(s, full.remove(j));
        assert(full.contains(j));
    }
}

} // verus!
