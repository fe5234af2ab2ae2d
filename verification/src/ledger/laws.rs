use vstd::prelude::*;
use crate::access::may_manage;
use crate::errors::WorkoutError;
use crate::ledger::{ClaimRequest, CloseRequest, Ledger, OpenRequest, Operation};
use crate::pubkey::Pubkey;

verus! {

impl Ledger {
    /// A request changes whether the user has claimed the instance only if it
    /// is an accepted claim of that instance by that user, and then from "has
    /// not" to "has".
    pub proof fn lemma_claimed_changes_by_accepted_claim_only(
        self,
        operation: Operation,
        instance: Pubkey,
        user: Pubkey,
    )
        ensures
            self.has_claimed(instance, user) ==> self.apply(operation).has_claimed(instance, user),
            match operation {
                Operation::Claim(request) => if request.instance_key == instance && request.user
                    == user && self.claim_accepted(request) {
                    !self.has_claimed(instance, user) && self.apply(operation).has_claimed(
                        instance,
                        user,
                    )
                } else {
                    self.apply(operation).has_claimed(instance, user) == self.has_claimed(
                        instance,
                        user,
                    )
                },
                _ => self.apply(operation).has_claimed(instance, user) == self.has_claimed(
                    instance,
                    user,
                ),
            },
    {
    }

    /// Among any series of requests, at most one is an accepted claim of a
    /// given instance by a given user, and none is if the user had claimed
    /// the instance before. The user has claimed the instance afterwards
    /// exactly if they had before or one claim was accepted.
    pub proof fn lemma_claimed_at_most_once(
        self,
        operations: Seq<Operation>,
        instance: Pubkey,
        user: Pubkey,
    )
        ensures
            self.accepted_claims(operations, instance, user) <= 1,
            self.has_claimed(instance, user) ==> self.accepted_claims(operations, instance, user)
                == 0,
            self.run(operations).has_claimed(instance, user) <==> self.has_claimed(instance, user)
                || self.accepted_claims(operations, instance, user) == 1,
        decreases operations.len(),
    {
        if operations.len() > 0 {
            self.lemma_claimed_at_most_once(operations.drop_last(), instance, user);
            self.run(operations.drop_last()).lemma_claimed_changes_by_accepted_claim_only(
                operations.last(),
                instance,
                user,
            );
        }
    }

    /// A user who has claimed an instance is refused when claiming it again,
    /// and nothing is written: with `AlreadyClaimed` where the instance is
    /// open, the time lies in the window and the secret is the right one.
    pub proof fn lemma_repeated_claim_is_refused(self, request: ClaimRequest)
        requires
            self.has_claimed(request.instance_key, request.user),
        ensures
            self.claim_error(request) is Some,
            self.claim(request) == self,
            ({
                let instance = self.instances[request.instance_key];
                !instance.is_closed && instance.in_window(request.now) && instance.accepts_digest(
                    request.digest,
                ) ==> self.claim_error(request) == Some(WorkoutError::AlreadyClaimed)
            }),
    {
    }

    /// A claim is accepted only at a time within the claim window, both ends
    /// included; at any other time an open instance refuses it with
    /// `InvalidClaimWindow`.
    pub proof fn lemma_claims_only_in_window(self, request: ClaimRequest)
        ensures
            ({
                let instance = self.instances[request.instance_key];
                &&& self.claim_accepted(request) ==> instance.window_start_ts <= request.now
                    <= instance.window_end_ts
                &&& !instance.is_closed && !(instance.window_start_ts <= request.now
                    <= instance.window_end_ts) ==> self.claim_error(request) == Some(
                    WorkoutError::InvalidClaimWindow,
                )
            }),
    {
    }

    /// No request removes an instance or changes anything of it but the flag
    /// that says it is closed, and no request opens a closed instance again.
    pub proof fn lemma_instance_only_closes(self, operations: Seq<Operation>, key: Pubkey)
        requires
            self.instances.contains_key(key),
        ensures
            self.run(operations).instances.contains_key(key),
            self.run(operations).instances[key] == self.instances[key] || self.run(
                operations,
            ).instances[key] == self.instances[key].closed(),
            self.instances[key].is_closed ==> self.run(operations).instances[key]
                == self.instances[key],
        decreases operations.len(),
    {
        if operations.len() > 0 {
            self.lemma_instance_only_closes(operations.drop_last(), key);
        }
    }

    /// Once an instance is closed, it stays closed whatever is requested, and
    /// every later claim of it is refused with `InstanceClosed`, whatever the
    /// time and the secret, and writes nothing.
    pub proof fn lemma_closed_is_terminal(
        self,
        operations: Seq<Operation>,
        request: ClaimRequest,
    )
        requires
            self.instances.contains_key(request.instance_key),
            self.instances[request.instance_key].is_closed,
        ensures
            self.run(operations).instances.contains_key(request.instance_key),
            self.run(operations).instances[request.instance_key].is_closed,
            self.run(operations).claim_error(request) == Some(WorkoutError::InstanceClosed),
            self.run(operations).claim(request) == self.run(operations),
    {
        self.lemma_instance_only_closes(operations, request.instance_key);
    }

    /// A caller who is neither an administrator nor the trainer named cannot
    /// open an instance for that trainer, whatever else the request holds:
    /// the request is refused with `Unauthorized`, and nothing is written.
    pub proof fn lemma_unauthorized_cannot_open(self, request: OpenRequest)
        requires
            !may_manage(request.authority, request.admin, request.trainer),
        ensures
            self.open_error(request) == Some(WorkoutError::Unauthorized),
            self.open(request) == self,
    {
    }

    /// A caller who is neither an administrator nor the trainer of the
    /// instance cannot close it: the request is refused with `Unauthorized`,
    /// and nothing is written.
    pub proof fn lemma_unauthorized_cannot_close(self, request: CloseRequest)
        requires
            !may_manage(
                request.authority,
                request.admin,
                self.instances[request.instance_key].trainer,
            ),
        ensures
            self.close_error(request) == Some(WorkoutError::Unauthorized),
            self.close(request) == self,
    {
    }

    /// Closing a closed instance changes nothing.
    pub proof fn lemma_close_twice_is_close_once(self, request: CloseRequest)
        ensures
            self.close(request).close(request) == self.close(request),
    {
        let once = self.close(request);
        if self.instances.contains_key(request.instance_key) && self.close_error(request) is None {
            assert(once.close(request).instances =~= once.instances);
        }
    }

    /// At most one instance is ever stored at an address: a request to open
    /// at an address that holds an instance is refused, and the instance
    /// stays as it is.
    pub proof fn lemma_instance_is_opened_once(self, request: OpenRequest)
        requires
            self.instances.contains_key(request.instance_key),
        ensures
            self.open_error(request) is Some,
            self.open(request) == self,
    {
    }
}

/// The claims, as requests to the ledger.
pub open spec fn claims(requests: Seq<ClaimRequest>) -> Seq<Operation> {
    Seq::new(requests.len(), |i: int| Operation::Claim(requests[i]))
}

impl Ledger {
    /// Whether nothing but an earlier claim speaks against the claim: the
    /// instance exists and is open, the time lies in its window, and the
    /// secret is the right one.
    pub open spec fn claim_is_in_order(self, request: ClaimRequest) -> bool {
        let instance = self.instances[request.instance_key];
        &&& self.instances.contains_key(request.instance_key)
        &&& !instance.is_closed
        &&& instance.in_window(request.now)
        &&& instance.accepts_digest(request.digest)
    }

    /// Claims leave the instances as they are.
    pub proof fn lemma_claims_keep_instances(self, requests: Seq<ClaimRequest>)
        ensures
            self.run(claims(requests)).instances == self.instances,
        decreases requests.len(),
    {
        if requests.len() > 0 {
            assert(claims(requests).drop_last() =~= claims(requests.drop_last()));
            self.lemma_claims_keep_instances(requests.drop_last());
        }
    }

    /// After one or more claims of one instance by one user, each in order,
    /// the user has claimed the instance.
    pub proof fn lemma_first_claim_in_order_is_accepted(self, requests: Seq<ClaimRequest>)
        requires
            requests.len() > 0,
            forall|i: int|
                0 <= i < requests.len() ==> {
                    &&& (#[trigger] requests[i]).instance_key == requests[0].instance_key
                    &&& requests[i].user == requests[0].user
                    &&& self.claim_is_in_order(requests[i])
                },
            !self.has_claimed(requests[0].instance_key, requests[0].user),
            self.counter_of(
                requests[0].user,
                self.instances[requests[0].instance_key].month(),
            ).has_room(),
        ensures
            self.run(claims(requests)).has_claimed(requests[0].instance_key, requests[0].user),
        decreases requests.len(),
    {
        let earlier = requests.drop_last();
        assert(claims(requests).drop_last() =~= claims(earlier));
        assert(claims(requests).last() == Operation::Claim(requests.last()));
        self.lemma_claims_keep_instances(earlier);
        if earlier.len() > 0 {
            self.lemma_first_claim_in_order_is_accepted(earlier);
            self.run(claims(earlier)).lemma_claimed_changes_by_accepted_claim_only(
                claims(requests).last(),
                requests[0].instance_key,
                requests[0].user,
            );
        } else {
            assert(claims(earlier) =~= Seq::<Operation>::empty());
            assert(requests.last() == requests[0]);
        }
    }

    /// Where one user claims one instance any number of times, each time in
    /// order, exactly one claim is accepted, the first, and every other one
    /// is refused with `AlreadyClaimed` and writes nothing. In whatever
    /// order claims made at the same time are carried out, one of them comes
    /// first.
    pub proof fn lemma_one_of_many_claims_succeeds(
        self,
        requests: Seq<ClaimRequest>,
        position: int,
    )
        requires
            0 <= position < requests.len(),
            forall|i: int|
                0 <= i < requests.len() ==> {
                    &&& (#[trigger] requests[i]).instance_key == requests[0].instance_key
                    &&& requests[i].user == requests[0].user
                    &&& self.claim_is_in_order(requests[i])
                },
            !self.has_claimed(requests[0].instance_key, requests[0].user),
            self.counter_of(
                requests[0].user,
                self.instances[requests[0].instance_key].month(),
            ).has_room(),
        ensures
            ({
                let before = self.run(claims(requests.take(position)));
                &&& position == 0 ==> before.claim_accepted(requests[position])
                &&& position > 0 ==> before.claim_error(requests[position]) == Some(
                    WorkoutError::AlreadyClaimed,
                ) && before.claim(requests[position]) == before
                &&& self.accepted_claims(
                    claims(requests),
                    requests[0].instance_key,
                    requests[0].user,
                ) == 1
            }),
    {
        let instance = requests[0].instance_key;
        let user = requests[0].user;
        let earlier = requests.take(position);
        let before = self.run(claims(earlier));
        self.lemma_claims_keep_instances(earlier);
        if position == 0 {
            assert(claims(earlier) =~= Seq::<Operation>::empty());
        } else {
            self.lemma_first_claim_in_order_is_accepted(earlier);
        }
        self.lemma_first_claim_in_order_is_accepted(requests);
        self.lemma_claimed_at_most_once(claims(requests), instance, user);
    }
}

} // verus!
