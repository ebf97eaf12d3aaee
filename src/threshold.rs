use vstd::prelude::*;

use crate::principal::Principal;
use crate::types::{Action, PendingRequest, RequestStatus, RequestView, Signature};

verus! {

/// How long a request stays open for signing, in the unit of the timestamps
/// handed in (24 hours of seconds).
pub const DEFAULT_EXPIRY: u64 = 86400;

/// Error given when no request has the id.
pub const REQUEST_NOT_FOUND: &'static str = "Request not found";

/// Error given when signing after the deadline.
pub const REQUEST_EXPIRED: &'static str = "Request expired";

/// Error given when a signer signs the same request twice.
pub const ALREADY_SIGNED: &'static str = "Already signed by this principal";

/// Prefix of the error given when signing a request that is no longer
/// pending; the status's name follows.
pub const NOT_PENDING_PREFIX: &'static str = "Request is not pending, status: ";

/// The name of a status.
pub open spec fn status_text(status: RequestStatus) -> Seq<char> {
    match status {
        RequestStatus::Pending => "Pending"@,
        RequestStatus::Approved => "Approved"@,
        RequestStatus::Executed => "Executed"@,
        RequestStatus::Expired => "Expired"@,
        RequestStatus::Rejected => "Rejected"@,
    }
}

/// Whether `signer` already signed.
pub open spec fn signed_by(signatures: Seq<Signature>, signer: Principal) -> bool {
    exists|i: int| 0 <= i < signatures.len() && (#[trigger] signatures[i]).signer == signer
}

/// No two signatures come from the same signer.
pub open spec fn distinct_signers(signatures: Seq<Signature>) -> bool {
    forall|a: int, b: int|
        0 <= a < signatures.len() && 0 <= b < signatures.len() && a != b ==> (
        #[trigger] signatures[a]).signer != (#[trigger] signatures[b]).signer
}

/// The request with another status.
pub open spec fn with_status(request: RequestView, status: RequestStatus) -> RequestView {
    RequestView { status, ..request }
}

/// The request after `signer` signs it at `now`: the signature is added and
/// the request is approved once it holds as many as required.
pub open spec fn after_signing(request: RequestView, signer: Principal, now: u64) -> RequestView {
    let signatures = request.signatures.push(Signature { signer, signed_at: now });
    RequestView {
        signatures,
        status: if signatures.len() >= request.required_signatures {
            RequestStatus::Approved
        } else {
            RequestStatus::Pending
        },
        ..request
    }
}

/// What signing request `id` does: the requests afterwards, and the updated
/// request or the error. Checks go in order: unknown id, deadline passed (a
/// pending request then expires, even though the call fails), signer already
/// present, request not pending.
pub open spec fn sign_transition(
    requests: Seq<RequestView>,
    id: u64,
    signer: Principal,
    now: u64,
) -> (Seq<RequestView>, Result<RequestView, Seq<char>>) {
    if id >= requests.len() {
        (requests, Err(REQUEST_NOT_FOUND@))
    } else {
        let request = requests[id as int];
        if now > request.expires_at {
            let expired = if request.status == RequestStatus::Pending {
                with_status(request, RequestStatus::Expired)
            } else {
                request
            };
            (requests.update(id as int, expired), Err(REQUEST_EXPIRED@))
        } else if signed_by(request.signatures, signer) {
            (requests, Err(ALREADY_SIGNED@))
        } else if request.status != RequestStatus::Pending {
            (requests, Err(NOT_PENDING_PREFIX@ + status_text(request.status)))
        } else {
            let signed = after_signing(request, signer, now);
            (requests.update(id as int, signed), Ok(signed))
        }
    }
}

/// Whether the sweep at `now` expires this request.
pub open spec fn lapses(request: RequestView, now: u64) -> bool {
    request.status == RequestStatus::Pending && now > request.expires_at
}

/// Multi-signature requests, addressed by id; a request is never deleted.
pub struct ThresholdSigner {
    pending_requests: Vec<PendingRequest>,
}

impl ThresholdSigner {
    /// Every request ever created; a request's id is its position.
    pub closed spec fn requests(&self) -> Seq<RequestView> {
        self.pending_requests@.map_values(|r: PendingRequest| r@)
    }

    /// Ids match positions and no request holds two signatures of one signer.
    pub open spec fn wf(&self) -> bool {
        forall|i: int|
            0 <= i < self.requests().len() ==> (#[trigger] self.requests()[i]).id == i
                && distinct_signers(self.requests()[i].signatures)
    }

    pub fn new() -> (signer: Self)
        ensures
            signer.wf(),
            signer.requests() == Seq::<RequestView>::empty(),
    {
        let signer = ThresholdSigner { pending_requests: Vec::new() };
        assert(signer.requests() =~= Seq::<RequestView>::empty());
        signer
    }

    /// How many requests were ever created.
    pub fn len(&self) -> (n: usize)
        ensures
            n == self.requests().len(),
    {
        self.pending_requests.len()
    }

    /// Opens a pending request with the next id, expiring `DEFAULT_EXPIRY`
    /// after `current_time`, and returns it.
    pub fn create_request(
        &mut self,
        action: Action,
        requester: Principal,
        required_signatures: u8,
        current_time: u64,
    ) -> (request: PendingRequest)
        requires
            old(self).wf(),
            old(self).requests().len() < u64::MAX,
            current_time + DEFAULT_EXPIRY <= u64::MAX,
        ensures
            final(self).wf(),
            request@ == (RequestView {
                id: old(self).requests().len() as u64,
                action,
                requester,
                created_at: current_time,
                expires_at: (current_time + DEFAULT_EXPIRY) as u64,
                required_signatures,
                signatures: Seq::empty(),
                status: RequestStatus::Pending,
            }),
            final(self).requests() == old(self).requests().push(request@),
    {
        let id = self.pending_requests.len() as u64;
        let request = PendingRequest {
            id,
            action,
            requester,
            created_at: current_time,
            expires_at: current_time + DEFAULT_EXPIRY,
            required_signatures,
            collected_signatures: Vec::new(),
            status: RequestStatus::Pending,
        };
        let copy = request.clone();
        self.pending_requests.push(request);
        proof {
            assert(copy@.signatures =~= Seq::<Signature>::empty());
            assert(self.requests() =~= old(self).requests().push(copy@));
        }
        copy
    }

    /// Adds `signer`'s approval to request `request_id` at `current_time`,
    /// as `sign_transition` describes, and returns the updated request.
    pub fn sign_request(&mut self, request_id: u64, signer: Principal, current_time: u64) -> (result:
        Result<PendingRequest, String>)
        requires
            old(self).wf(),
        ensures
            final(self).wf(),
            final(self).requests() == sign_transition(
                old(self).requests(),
                request_id,
                signer,
                current_time,
            ).0,
            match result {
                Ok(request) => sign_transition(old(self).requests(), request_id, signer, current_time).1
                    == Ok::<RequestView, Seq<char>>(request@),
                Err(message) => sign_transition(
                    old(self).requests(),
                    request_id,
                    signer,
                    current_time,
                ).1 == Err::<RequestView, Seq<char>>(message@),
            },
    {
        if request_id >= self.pending_requests.len() as u64 {
            return Err(String::from_str(REQUEST_NOT_FOUND));
        }
        let idx = request_id as usize;
        if current_time > self.pending_requests[idx].expires_at {
            if self.pending_requests[idx].status == RequestStatus::Pending {
                self.pending_requests[idx].status = RequestStatus::Expired;
            }
            proof {
                assert(self.requests() =~= sign_transition(
                    old(self).requests(),
                    request_id,
                    signer,
                    current_time,
                ).0);
            }
            return Err(String::from_str(REQUEST_EXPIRED));
        }
        assert(old(self).requests()[idx as int] == self.pending_requests@[idx as int]@);
        let mut k: usize = 0;
        while k < self.pending_requests[idx].collected_signatures.len()
            invariant
                self.pending_requests@ == old(self).pending_requests@,
                old(self).wf(),
                idx == request_id,
                idx < self.pending_requests@.len(),
                current_time <= old(self).requests()[idx as int].expires_at,
                k <= self.pending_requests@[idx as int].collected_signatures@.len(),
                forall|j: int|
                    0 <= j < k ==> (#[trigger] self.pending_requests@[idx as int].collected_signatures@[j]).signer
                        != signer,
            decreases self.pending_requests@[idx as int].collected_signatures@.len() - k,
        {
            if self.pending_requests[idx].collected_signatures[k].signer == signer {
                proof {
                    assert(old(self).requests()[idx as int] == self.pending_requests@[idx as int]@);
                    assert(old(self).requests()[idx as int].signatures[k as int].signer == signer);
                }
                return Err(String::from_str(ALREADY_SIGNED));
            }
            k = k + 1;
        }
        let status = self.pending_requests[idx].status;
        if status != RequestStatus::Pending {
            let mut message = String::from_str(NOT_PENDING_PREFIX);
            let name = status_name(status);
            message.append(name.as_str());
            return Err(message);
        }
        self.pending_requests[idx].collected_signatures.push(Signature { signer, signed_at: current_time });
        if self.pending_requests[idx].collected_signatures.len()
            >= self.pending_requests[idx].required_signatures as usize {
            self.pending_requests[idx].status = RequestStatus::Approved;
        }
        proof {
            assert(self.requests() =~= sign_transition(
                old(self).requests(),
                request_id,
                signer,
                current_time,
            ).0);
        }
        Ok(self.pending_requests[idx].clone())
    }

    /// Rejects request `request_id` whatever its status, except that an
    /// executed request stays executed. The reason is not kept.
    pub fn reject_request(&mut self, request_id: u64, _reason: String) -> (result: Result<(), String>)
        requires
            old(self).wf(),
        ensures
            final(self).wf(),
            request_id >= old(self).requests().len() ==> result is Err && result->Err_0@
                == REQUEST_NOT_FOUND@ && final(self).requests() == old(self).requests(),
            request_id < old(self).requests().len() ==> {
                &&& result is Ok
                &&& final(self).requests() == old(self).requests().update(
                    request_id as int,
                    rejected(old(self).requests()[request_id as int]),
                )
            },
    {
        if request_id >= self.pending_requests.len() as u64 {
            return Err(String::from_str(REQUEST_NOT_FOUND));
        }
        let idx = request_id as usize;
        if self.pending_requests[idx].status != RequestStatus::Executed {
            self.pending_requests[idx].status = RequestStatus::Rejected;
        }
        proof {
            assert(self.requests() =~= old(self).requests().update(
                request_id as int,
                rejected(old(self).requests()[request_id as int]),
            ));
        }
        Ok(())
    }

    /// Records that request `request_id` was carried out.
    pub fn mark_executed(&mut self, request_id: u64) -> (result: Result<(), String>)
        requires
            old(self).wf(),
        ensures
            final(self).wf(),
            request_id >= old(self).requests().len() ==> result is Err && result->Err_0@
                == REQUEST_NOT_FOUND@ && final(self).requests() == old(self).requests(),
            request_id < old(self).requests().len() ==> {
                &&& result is Ok
                &&& final(self).requests() == old(self).requests().update(
                    request_id as int,
                    with_status(old(self).requests()[request_id as int], RequestStatus::Executed),
                )
            },
    {
        if request_id >= self.pending_requests.len() as u64 {
            return Err(String::from_str(REQUEST_NOT_FOUND));
        }
        let idx = request_id as usize;
        self.pending_requests[idx].status = RequestStatus::Executed;
        proof {
            assert(self.requests() =~= old(self).requests().update(
                request_id as int,
                with_status(old(self).requests()[request_id as int], RequestStatus::Executed),
            ));
        }
        Ok(())
    }

    /// The requests still pending, in id order.
    pub fn get_pending_requests(&self) -> (pending: Vec<PendingRequest>)
        ensures
            pending@.map_values(|r: PendingRequest| r@) == self.requests().filter(
                |r: RequestView| r.status == RequestStatus::Pending,
            ),
    {
        let ghost all = self.requests();
        let ghost is_pending = |r: RequestView| r.status == RequestStatus::Pending;
        let mut pending: Vec<PendingRequest> = Vec::new();
        let mut i: usize = 0;
        while i < self.pending_requests.len()
            invariant
                all == self.requests(),
                is_pending == (|r: RequestView| r.status == RequestStatus::Pending),
                i <= all.len(),
                pending@.map_values(|r: PendingRequest| r@) == all.subrange(0, i as int).filter(
                    is_pending,
                ),
            decreases all.len() - i,
        {
            proof {
                assert(all.subrange(0, i + 1) =~= all.subrange(0, i as int).push(all[i as int]));
                all.subrange(0, i as int).lemma_filter_push(all[i as int], is_pending);
                assert(all[i as int] == self.pending_requests@[i as int]@);
            }
            if self.pending_requests[i].status == RequestStatus::Pending {
                let ghost before = pending@;
                pending.push(self.pending_requests[i].clone());
                proof {
                    assert(pending@.map_values(|r: PendingRequest| r@) =~= before.map_values(
                        |r: PendingRequest| r@,
                    ).push(all[i as int]));
                }
            }
            i = i + 1;
        }
        proof {
            assert(all.subrange(0, all.len() as int) =~= all);
        }
        pending
    }

    /// The request with id `id`, if there is one.
    pub fn get_request(&self, id: u64) -> (request: Option<&PendingRequest>)
        ensures
            id >= self.requests().len() ==> request.is_none(),
            id < self.requests().len() ==> request.is_some() && request.unwrap()@ == self.requests()[id as int],
    {
        if id >= self.pending_requests.len() as u64 {
            None
        } else {
            Some(&self.pending_requests[id as usize])
        }
    }

    /// Whether request `request_id` exists and is approved.
    pub fn is_approved(&self, request_id: u64) -> (approved: bool)
        ensures
            approved == (request_id < self.requests().len() && self.requests()[request_id as int].status
                == RequestStatus::Approved),
    {
        if request_id >= self.pending_requests.len() as u64 {
            false
        } else {
            self.pending_requests[request_id as usize].status == RequestStatus::Approved
        }
    }

    /// Expires every pending request whose deadline lies before `current_time`;
    /// other requests are left as they are.
    pub fn cleanup_expired(&mut self, current_time: u64)
        requires
            old(self).wf(),
        ensures
            final(self).wf(),
            final(self).requests().len() == old(self).requests().len(),
            forall|i: int|
                0 <= i < old(self).requests().len() ==> #[trigger] final(self).requests()[i] == if lapses(
                    old(self).requests()[i],
                    current_time,
                ) {
                    with_status(old(self).requests()[i], RequestStatus::Expired)
                } else {
                    old(self).requests()[i]
                },
    {
        let mut i: usize = 0;
        while i < self.pending_requests.len()
            invariant
                i <= self.requests().len(),
                self.requests().len() == old(self).requests().len(),
                old(self).wf(),
                forall|k: int|
                    0 <= k < old(self).requests().len() ==> #[trigger] self.requests()[k] == if k < i
                        && lapses(old(self).requests()[k], current_time) {
                        with_status(old(self).requests()[k], RequestStatus::Expired)
                    } else {
                        old(self).requests()[k]
                    },
            decreases self.requests().len() - i,
        {
            if self.pending_requests[i].status == RequestStatus::Pending && current_time
                > self.pending_requests[i].expires_at {
                let ghost before = self.requests();
                self.pending_requests[i].status = RequestStatus::Expired;
                proof {
                    assert(self.requests() =~= before.update(
                        i as int,
                        with_status(before[i as int], RequestStatus::Expired),
                    ));
                }
            }
            i = i + 1;
        }
    }
}

/// A rejected request: every status but `Executed` becomes `Rejected`.
pub open spec fn rejected(request: RequestView) -> RequestView {
    if request.status == RequestStatus::Executed {
        request
    } else {
        with_status(request, RequestStatus::Rejected)
    }
}

/// The name of a status, as `status_text` gives it.
pub fn status_name(status: RequestStatus) -> (name: String)
    ensures
        name@ == status_text(status),
{
    match status {
        RequestStatus::Pending => String::from_str("Pending"),
        RequestStatus::Approved => String::from_str("Approved"),
        RequestStatus::Executed => String::from_str("Executed"),
        RequestStatus::Expired => String::from_str("Expired"),
        RequestStatus::Rejected => String::from_str("Rejected"),
    }
}

/// The life of a request needing two signatures: one signature leaves it
/// pending, a second from another signer approves it, a third signer is then
/// refused because it is no longer pending, and a signer who already signed
/// is refused as such.
pub proof fn lemma_two_signature_lifecycle(
    requests: Seq<RequestView>,
    id: u64,
    first: Principal,
    second: Principal,
    third: Principal,
    t1: u64,
    t2: u64,
    t3: u64,
)
    requires
        id < requests.len(),
        requests[id as int].status == RequestStatus::Pending,
        requests[id as int].signatures.len() == 0,
        requests[id as int].required_signatures == 2,
        t1 <= requests[id as int].expires_at,
        t2 <= requests[id as int].expires_at,
        t3 <= requests[id as int].expires_at,
        first != second,
        third != first,
        third != second,
    ensures
        ({
            let (after_one, out_one) = sign_transition(requests, id, first, t1);
            let (after_two, out_two) = sign_transition(after_one, id, second, t2);
            &&& out_one is Ok && out_one->Ok_0.status == RequestStatus::Pending
            &&& out_one->Ok_0.signatures.len() == 1
            &&& sign_transition(after_one, id, first, t2).1 == Err::<RequestView, Seq<char>>(
                ALREADY_SIGNED@,
            )
            &&& out_two is Ok && out_two->Ok_0.status == RequestStatus::Approved
            &&& out_two->Ok_0.signatures.len() == 2
            &&& sign_transition(after_two, id, third, t3).1 == Err::<RequestView, Seq<char>>(
                NOT_PENDING_PREFIX@ + "Approved"@,
            )
            &&& sign_transition(after_two, id, first, t3).1 == Err::<RequestView, Seq<char>>(
                ALREADY_SIGNED@,
            )
        }),
{
    let request = requests[id as int];
    let (after_one, out_one) = sign_transition(requests, id, first, t1);
    let one = after_signing(request, first, t1);
    assert(!signed_by(request.signatures, first));
    assert(after_one[id as int] == one);
    assert(one.signatures[0].signer == first);
    let (after_two, out_two) = sign_transition(after_one, id, second, t2);
    assert(!signed_by(one.signatures, second));
    let two = after_signing(one, second, t2);
    assert(after_two[id as int] == two);
    assert(two.signatures[0].signer == first);
    assert(two.signatures[1].signer == second);
    assert(signed_by(one.signatures, first));
    assert(signed_by(two.signatures, first));
    assert(!signed_by(two.signatures, third));
}

/// Signing after the deadline fails as expired, and a pending request is
/// left expired.
pub proof fn lemma_sign_after_deadline(requests: Seq<RequestView>, id: u64, signer: Principal, now: u64)
    requires
        id < requests.len(),
        requests[id as int].status == RequestStatus::Pending,
        now > requests[id as int].expires_at,
    ensures
        sign_transition(requests, id, signer, now).1 == Err::<RequestView, Seq<char>>(REQUEST_EXPIRED@),
        sign_transition(requests, id, signer, now).0[id as int].status == RequestStatus::Expired,
{
}

} // verus!
