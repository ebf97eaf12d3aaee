use vstd::prelude::*;

use crate::principal::Principal;
use crate::text::{decimal, decimal_text};
use crate::types::{Action, AuditEntry, ExecutionResult, PolicyResult};

verus! {

/// Error given when no entry has the id.
pub const ENTRY_NOT_FOUND: &'static str = "Entry not found";

/// Error given when an entry's execution result was already recorded.
pub const RESULT_ALREADY_RECORDED: &'static str = "Execution result already recorded";

/// The kind of an action, as the audit trail names it.
pub open spec fn action_type_text(action: Action) -> Seq<char> {
    match action {
        Action::Swap { .. } => "swap"@,
        Action::Transfer { .. } => "transfer"@,
        Action::ApproveToken { .. } => "approve"@,
    }
}

/// An optional number in JSON: its decimal digits, or `null`.
pub open spec fn optional_number_text(n: Option<u32>) -> Seq<char> {
    match n {
        Some(v) => decimal_text(v as nat),
        None => "null"@,
    }
}

/// The action's parameters as a JSON object (string values are not escaped).
pub open spec fn action_json(action: Action) -> Seq<char> {
    match action {
        Action::Swap { chain, token_in, token_out, amount_in, min_amount_out, fee_tier } => "{\"chain\":\""@
            + chain@ + "\",\"token_in\":\""@ + token_in@ + "\",\"token_out\":\""@ + token_out@
            + "\",\"amount_in\":"@ + decimal_text(amount_in as nat) + ",\"min_amount_out\":"@
            + decimal_text(min_amount_out as nat) + ",\"fee_tier\":"@ + optional_number_text(
            fee_tier,
        ) + "}"@,
        Action::Transfer { chain, token, to, amount } => "{\"chain\":\""@ + chain@
            + "\",\"token\":\""@ + token@ + "\",\"to\":\""@ + to@ + "\",\"amount\":"@ + decimal_text(
            amount as nat,
        ) + "}"@,
        Action::ApproveToken { chain, token, spender, amount } => "{\"chain\":\""@ + chain@
            + "\",\"token\":\""@ + token@ + "\",\"spender\":\""@ + spender@ + "\",\"amount\":"@
            + decimal_text(amount as nat) + "}"@,
    }
}

/// Whether `timestamp` lies in the range, each bound inclusive and optional.
pub open spec fn in_range(timestamp: u64, start: Option<u64>, end: Option<u64>) -> bool {
    (start.is_none() || start.unwrap() <= timestamp) && (end.is_none() || timestamp <= end.unwrap())
}

/// Whether `e` records, under `id`, a decision on `action` for `requester`
/// at `timestamp`, with no execution result yet.
pub open spec fn records(
    e: AuditEntry,
    id: u64,
    action: Action,
    requester: Principal,
    policy_result: PolicyResult,
    threshold_request_id: Option<u64>,
    timestamp: u64,
) -> bool {
    &&& e.id == id
    &&& e.timestamp == timestamp
    &&& e.action_type@ == action_type_text(action)
    &&& e.action_params@ == action_json(action)
    &&& e.requester == requester
    &&& e.policy_result == policy_result
    &&& e.threshold_request_id == threshold_request_id
    &&& e.execution_result.is_none()
}

/// Append-only record of authorization decisions and their outcomes.
pub struct AuditLog {
    entries: Vec<AuditEntry>,
}

impl AuditLog {
    /// Every entry logged; an entry's id is its position.
    pub closed spec fn entries(&self) -> Seq<AuditEntry> {
        self.entries@
    }

    /// Ids match positions.
    pub open spec fn wf(&self) -> bool {
        forall|i: int| 0 <= i < self.entries().len() ==> (#[trigger] self.entries()[i]).id == i
    }

    pub fn new() -> (log: Self)
        ensures
            log.wf(),
            log.entries() == Seq::<AuditEntry>::empty(),
    {
        AuditLog { entries: Vec::new() }
    }

    /// How many entries were logged.
    pub fn len(&self) -> (n: usize)
        ensures
            n == self.entries().len(),
    {
        self.entries.len()
    }

    /// Records a decision under the next id, with no execution result yet,
    /// and returns the id.
    pub fn log_action(
        &mut self,
        action: &Action,
        requester: Principal,
        policy_result: PolicyResult,
        threshold_request_id: Option<u64>,
        current_time: u64,
    ) -> (id: u64)
        requires
            old(self).wf(),
            old(self).entries().len() < u64::MAX,
        ensures
            final(self).wf(),
            id == old(self).entries().len(),
            final(self).entries() == old(self).entries().push(final(self).entries()[id as int]),
            records(
                final(self).entries()[id as int],
                id,
                *action,
                requester,
                policy_result,
                threshold_request_id,
                current_time,
            ),
    {
        let id = self.entries.len() as u64;
        let entry = AuditEntry {
            id,
            timestamp: current_time,
            action_type: Self::action_type_string(action),
            action_params: Self::action_to_json(action),
            requester,
            policy_result,
            threshold_request_id,
            execution_result: None,
        };
        self.entries.push(entry);
        proof {
            assert(self.entries@ =~= old(self).entries@.push(self.entries@[id as int]));
        }
        id
    }

    /// Attaches the execution outcome to entry `entry_id`. The outcome is
    /// written once: a second write is refused and changes nothing.
    pub fn update_execution_result(&mut self, entry_id: u64, result: ExecutionResult) -> (outcome:
        Result<(), String>)
        requires
            old(self).wf(),
        ensures
            final(self).wf(),
            entry_id >= old(self).entries().len() ==> outcome is Err && outcome->Err_0@
                == ENTRY_NOT_FOUND@ && final(self).entries() == old(self).entries(),
            entry_id < old(self).entries().len() && old(self).entries()[entry_id as int].execution_result.is_some()
                ==> outcome is Err && outcome->Err_0@ == RESULT_ALREADY_RECORDED@ && final(self).entries()
                == old(self).entries(),
            entry_id < old(self).entries().len() && old(self).entries()[entry_id as int].execution_result.is_none()
                ==> outcome is Ok && final(self).entries() == old(self).entries().update(
                entry_id as int,
                AuditEntry { execution_result: Some(result), ..old(self).entries()[entry_id as int] },
            ),
    {
        if entry_id >= self.entries.len() as u64 {
            return Err(String::from_str(ENTRY_NOT_FOUND));
        }
        let idx = entry_id as usize;
        if self.entries[idx].execution_result.is_some() {
            return Err(String::from_str(RESULT_ALREADY_RECORDED));
        }
        let ghost expected = old(self).entries().update(
            entry_id as int,
            AuditEntry { execution_result: Some(result), ..old(self).entries()[entry_id as int] },
        );
        self.entries[idx].execution_result = Some(result);
        proof {
            assert(self.entries@ =~= expected);
        }
        Ok(())
    }

    /// The entries whose timestamp lies in the inclusive range, in id order;
    /// an absent bound leaves that side open.
    pub fn get_entries(&self, start: Option<u64>, end: Option<u64>) -> (found: Vec<AuditEntry>)
        ensures
            found@ == self.entries().filter(|e: AuditEntry| in_range(e.timestamp, start, end)),
    {
        let ghost all = self.entries();
        let ghost wanted = |e: AuditEntry| in_range(e.timestamp, start, end);
        let mut found: Vec<AuditEntry> = Vec::new();
        let mut i: usize = 0;
        while i < self.entries.len()
            invariant
                all == self.entries(),
                wanted == (|e: AuditEntry| in_range(e.timestamp, start, end)),
                i <= all.len(),
                found@ == all.subrange(0, i as int).filter(wanted),
            decreases all.len() - i,
        {
            proof {
                assert(all.subrange(0, i + 1) =~= all.subrange(0, i as int).push(all[i as int]));
                all.subrange(0, i as int).lemma_filter_push(all[i as int], wanted);
            }
            let t = self.entries[i].timestamp;
            let after_start = match start {
                Some(s) => t >= s,
                None => true,
            };
            let before_end = match end {
                Some(e) => t <= e,
                None => true,
            };
            if after_start && before_end {
                found.push(self.entries[i].clone());
            }
            i = i + 1;
        }
        proof {
            assert(all.subrange(0, all.len() as int) =~= all);
        }
        found
    }

    /// The entry with id `id`, if there is one.
    pub fn get_entry(&self, id: u64) -> (entry: Option<&AuditEntry>)
        ensures
            id >= self.entries().len() ==> entry.is_none(),
            id < self.entries().len() ==> entry.is_some() && *entry.unwrap() == self.entries()[id as int],
    {
        if id >= self.entries.len() as u64 {
            None
        } else {
            Some(&self.entries[id as usize])
        }
    }

    /// The id of the first entry that refers to threshold request `request_id`.
    pub fn find_by_request(&self, request_id: u64) -> (found: Option<u64>)
        requires
            self.wf(),
        ensures
            match found {
                Some(id) => id < self.entries().len() && self.entries()[id as int].threshold_request_id
                    == Some(request_id) && forall|k: int|
                    0 <= k < id ==> (#[trigger] self.entries()[k]).threshold_request_id != Some(request_id),
                None => forall|k: int|
                    0 <= k < self.entries().len() ==> (#[trigger] self.entries()[k]).threshold_request_id
                        != Some(request_id),
            },
    {
        let mut i: usize = 0;
        while i < self.entries.len()
            invariant
                i <= self.entries@.len(),
                forall|k: int| 0 <= k < i ==> (#[trigger] self.entries@[k]).threshold_request_id != Some(request_id),
            decreases self.entries@.len() - i,
        {
            if self.entries[i].threshold_request_id == Some(request_id) {
                return Some(i as u64);
            }
            i = i + 1;
        }
        None
    }

    /// The kind of an action: `swap`, `transfer` or `approve`.
    pub fn action_type_string(action: &Action) -> (s: String)
        ensures
            s@ == action_type_text(*action),
    {
        match action {
            Action::Swap { .. } => String::from_str("swap"),
            Action::Transfer { .. } => String::from_str("transfer"),
            Action::ApproveToken { .. } => String::from_str("approve"),
        }
    }

    /// The action's parameters as a JSON object.
    pub fn action_to_json(action: &Action) -> (s: String)
        ensures
            s@ == action_json(*action),
    {
        match action {
            Action::Swap { chain, token_in, token_out, amount_in, min_amount_out, fee_tier } => {
                let fee_tier_text = match fee_tier {
                    Some(ft) => decimal(*ft as u64),
                    None => String::from_str("null"),
                };
                let mut s = String::from_str("{\"chain\":\"");
                s.append(chain.as_str());
                s.append("\",\"token_in\":\"");
                s.append(token_in.as_str());
                s.append("\",\"token_out\":\"");
                s.append(token_out.as_str());
                s.append("\",\"amount_in\":");
                s.append(decimal(*amount_in).as_str());
                s.append(",\"min_amount_out\":");
                s.append(decimal(*min_amount_out).as_str());
                s.append(",\"fee_tier\":");
                s.append(fee_tier_text.as_str());
                s.append("}");
                s
            },
            Action::Transfer { chain, token, to, amount } => {
                let mut s = String::from_str("{\"chain\":\"");
                s.append(chain.as_str());
                s.append("\",\"token\":\"");
                s.append(token.as_str());
                s.append("\",\"to\":\"");
                s.append(to.as_str());
                s.append("\",\"amount\":");
                s.append(decimal(*amount).as_str());
                s.append("}");
                s
            },
            Action::ApproveToken { chain, token, spender, amount } => {
                let mut s = String::from_str("{\"chain\":\"");
                s.append(chain.as_str());
                s.append("\",\"token\":\"");
                s.append(token.as_str());
                s.append("\",\"spender\":\"");
                s.append(spender.as_str());
                s.append("\",\"amount\":");
                s.append(decimal(*amount).as_str());
                s.append("}");
                s
            },
        }
    }
}

/// Entry ids start at 0 and strictly increase in the order entries were logged.
pub proof fn lemma_ids_increase(log: AuditLog)
    requires
        log.wf(),
    ensures
        log.entries().len() > 0 ==> log.entries()[0].id == 0,
        forall|i: int, j: int|
            0 <= i < j < log.entries().len() ==> (#[trigger] log.entries()[i]).id < (
            #[trigger] log.entries()[j]).id,
{
    if log.entries().len() > 0 {
        assert(log.entries()[0].id == 0);
    }
}

/// A range query returns exactly the logged entries whose timestamp lies
/// within both bounds.
pub proof fn lemma_range_exact(entries: Seq<AuditEntry>, start: Option<u64>, end: Option<u64>, e: AuditEntry)
    ensures
        entries.filter(|x: AuditEntry| in_range(x.timestamp, start, end)).contains(e) <==> (
        entries.contains(e) && in_range(e.timestamp, start, end)),
{
    let pred = |x: AuditEntry| in_range(x.timestamp, start, end);
    if entries.contains(e) && in_range(e.timestamp, start, end) {
        let k = choose|k: int| 0 <= k < entries.len() && entries[k] == e;
        entries.lemma_filter_contains(pred, k);
    }
    if entries.filter(pred).contains(e) {
        let k = choose|k: int| 0 <= k < entries.filter(pred).len() && entries.filter(pred)[k] == e;
        entries.lemma_filter_pred(pred, k);
        entries.lemma_filter_contains_rev(pred, e);
    }
}

} // verus!
