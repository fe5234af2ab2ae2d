use vstd::prelude::*;
use crate::ledger::{ClaimRequest, CloseRequest, Ledger, OpenRequest, Operation};
use crate::pubkey::Pubkey;

verus! {

impl Ledger {
    /// A user has claimed finitely many instances of a month.
    pub proof fn lemma_claimed_in_month_is_finite(self, user: Pubkey, yyyymm: u32)
        requires
            self.instances.dom().finite(),
        ensures
            self.claimed_in_month(user, yyyymm).finite(),
    {
        self.instances.dom().lemma_len_filter(self.counts_towards(user, yyyymm));
    }

    /// The empty ledger is well formed.
    pub proof fn lemma_empty_is_wf()
        ensures
            Ledger::empty().wf(),
    {
        let ledger = Ledger::empty();
        assert forall|user: Pubkey, yyyymm: u32| #[trigger]
            ledger.count(user, yyyymm) == ledger.claimed_in_month(user, yyyymm).len() by {
            assert(ledger.claimed_in_month(user, yyyymm) =~= Set::<Pubkey>::empty());
        }
    }

    /// Opening keeps the ledger well formed.
    pub proof fn lemma_open_preserves_wf(self, request: OpenRequest)
        requires
            self.wf(),
        ensures
            self.open(request).wf(),
    {
        let after = self.open(request);
        if self.open_error(request) is None {
            let key = request.instance_key;
            assert(!self.instances.contains_key(key));
            assert forall|instance: Pubkey, user: Pubkey|
                after.has_claimed(instance, user) == self.has_claimed(instance, user) by {}
            assert forall|instance: Pubkey, user: Pubkey| #[trigger]
                after.has_claimed(instance, user) implies {
                &&& after.instances.contains_key(instance)
                &&& after.attendance_of(instance, user).instance == instance
                &&& after.attendance_of(instance, user).user == user
            } by {
                assert(self.has_claimed(instance, user));
            }
            assert forall|user: Pubkey, yyyymm: u32| #[trigger]
                after.count(user, yyyymm) > 0 implies {
                &&& after.counter_of(user, yyyymm).user == user
                &&& after.counter_of(user, yyyymm).yyyymm == yyyymm
            } by {
                assert(self.count(user, yyyymm) > 0);
            }
            assert forall|user: Pubkey, yyyymm: u32| #[trigger]
                after.count(user, yyyymm) == after.claimed_in_month(user, yyyymm).len() by {
                assert(self.count(user, yyyymm) == self.claimed_in_month(user, yyyymm).len());
                assert(!self.has_claimed(key, user));
                assert(after.claimed_in_month(user, yyyymm) =~= self.claimed_in_month(
                    user,
                    yyyymm,
                ));
            }
        }
    }

    /// Closing keeps the ledger well formed.
    pub proof fn lemma_close_preserves_wf(self, request: CloseRequest)
        requires
            self.wf(),
        ensures
            self.close(request).wf(),
    {
        let after = self.close(request);
        if self.instances.contains_key(request.instance_key) && self.close_error(request) is None {
            let key = request.instance_key;
            assert(after.instances.dom() =~= self.instances.dom());
            assert forall|instance: Pubkey, user: Pubkey| #[trigger]
                after.has_claimed(instance, user) implies {
                &&& after.instances.contains_key(instance)
                &&& after.attendance_of(instance, user).instance == instance
                &&& after.attendance_of(instance, user).user == user
            } by {
                assert(self.has_claimed(instance, user));
            }
            assert forall|user: Pubkey, yyyymm: u32| #[trigger]
                after.count(user, yyyymm) > 0 implies {
                &&& after.counter_of(user, yyyymm).user == user
                &&& after.counter_of(user, yyyymm).yyyymm == yyyymm
            } by {
                assert(self.count(user, yyyymm) > 0);
            }
            assert forall|user: Pubkey, yyyymm: u32| #[trigger]
                after.count(user, yyyymm) == after.claimed_in_month(user, yyyymm).len() by {
                assert(self.count(user, yyyymm) == self.claimed_in_month(user, yyyymm).len());
                assert(after.claimed_in_month(user, yyyymm) =~= self.claimed_in_month(
                    user,
                    yyyymm,
                ));
            }
        }
    }

    /// A claim keeps the ledger well formed.
    pub proof fn lemma_claim_preserves_wf(self, request: ClaimRequest)
        requires
            self.wf(),
        ensures
            self.claim(request).wf(),
    {
        let after = self.claim(request);
        if self.claim_accepted(request) {
            let key = request.instance_key;
            let claimant = request.user;
            let month = self.instances[key].month();
            assert(!self.has_claimed(key, claimant));
            assert forall|instance: Pubkey, user: Pubkey|
                after.has_claimed(instance, user) == (self.has_claimed(instance, user) || (
                instance == key && user == claimant)) by {}
            assert forall|instance: Pubkey, user: Pubkey| #[trigger]
                after.has_claimed(instance, user) implies {
                &&& after.instances.contains_key(instance)
                &&& after.attendance_of(instance, user).instance == instance
                &&& after.attendance_of(instance, user).user == user
            } by {
                if !(instance == key && user == claimant) {
                    assert(self.has_claimed(instance, user));
                }
            }
            assert forall|user: Pubkey, yyyymm: u32| #[trigger]
                after.count(user, yyyymm) > 0 implies {
                &&& after.counter_of(user, yyyymm).user == user
                &&& after.counter_of(user, yyyymm).yyyymm == yyyymm
            } by {
                if !(user == claimant && yyyymm == month) {
                    assert(self.count(user, yyyymm) > 0);
                } else if self.count(user, yyyymm) > 0 {
                }
            }
            assert forall|user: Pubkey, yyyymm: u32| #[trigger]
                after.count(user, yyyymm) == after.claimed_in_month(user, yyyymm).len() by {
                assert(self.count(user, yyyymm) == self.claimed_in_month(user, yyyymm).len());
                if user == claimant && yyyymm == month {
                    self.lemma_claimed_in_month_is_finite(user, yyyymm);
                    assert(!self.claimed_in_month(user, yyyymm).contains(key));
                    assert(after.claimed_in_month(user, yyyymm) =~= self.claimed_in_month(
                        user,
                        yyyymm,
                    ).insert(key));
                } else {
                    assert(after.claimed_in_month(user, yyyymm) =~= self.claimed_in_month(
                        user,
                        yyyymm,
                    ));
                }
            }
        }
    }

    /// Every request keeps the ledger well formed.
    pub proof fn lemma_apply_preserves_wf(self, operation: Operation)
        requires
            self.wf(),
        ensures
            self.apply(operation).wf(),
    {
        match operation {
            Operation::Open(request) => self.lemma_open_preserves_wf(request),
            Operation::Close(request) => self.lemma_close_preserves_wf(request),
            Operation::Claim(request) => self.lemma_claim_preserves_wf(request),
        }
    }

    /// Every series of requests keeps the ledger well formed.
    pub proof fn lemma_run_preserves_wf(self, operations: Seq<Operation>)
        requires
            self.wf(),
        ensures
            self.run(operations).wf(),
        decreases operations.len(),
    {
        if operations.len() > 0 {
            self.lemma_run_preserves_wf(operations.drop_last());
            self.run(operations.drop_last()).lemma_apply_preserves_wf(operations.last());
        }
    }
    /// In every state that a series of requests leads to from the empty
    /// ledger, a user's count for a month is the number of instances of that
    /// month that the user has claimed.
    pub proof fn lemma_count_is_number_of_claimed_instances(
        operations: Seq<Operation>,
        user: Pubkey,
        yyyymm: u32,
    )
        ensures
            Ledger::empty().run(operations).count(user, yyyymm) == Ledger::empty().run(
                operations,
            ).claimed_in_month(user, yyyymm).len(),
    {
        Ledger::lemma_empty_is_wf();
        Ledger::empty().lemma_run_preserves_wf(operations);
    }

    /// An accepted claim raises the claimant's count for the month of the
    /// instance by exactly one and leaves every other count as it was. Any
    /// other request leaves every count as it was.
    pub proof fn lemma_counts_change_by_accepted_claims_only(
        self,
        operation: Operation,
        user: Pubkey,
        yyyymm: u32,
    )
        ensures
            self.apply(operation).count(user, yyyymm) == self.count(user, yyyymm) + (match operation {
                Operation::Claim(request) => if self.claim_accepted(request) && request.user
                    == user && self.instances[request.instance_key].month() == yyyymm {
                    1nat
                } else {
                    0nat
                },
                _ => 0nat,
            }),
    {
    }

    /// A count never goes down.
    pub proof fn lemma_count_never_decreases(
        self,
        operations: Seq<Operation>,
        user: Pubkey,
        yyyymm: u32,
    )
        ensures
            self.run(operations).count(user, yyyymm) >= self.count(user, yyyymm),
        decreases operations.len(),
    {
        if operations.len() > 0 {
            self.lemma_count_never_decreases(operations.drop_last(), user, yyyymm);
            self.run(operations.drop_last()).lemma_counts_change_by_accepted_claims_only(
                operations.last(),
                user,
                yyyymm,
            );
        }
    }
}

} // verus!
