use vstd::prelude::*;
use crate::address::{Address, zero_account_strkey, zero_contract_strkey};
use crate::allocation::{ints, sum, lemma_sum_take_step};
use crate::escrow::{MilestoneEscrow, milestone_wf, releasable, fits_i128, slot_wf, held, transferred};
use crate::types::{
    ApprovedEvent, DataKey, DeliveredEvent, Effects, Error, Event, FundedEvent, Job, JobMeta, Ledger,
    Milestone, MilestoneStatus, MultisigAdminOverrideRefundEvent,
    MultisigAdminOverrideReleaseEvent, PlatformFeeAllocation, Transfer, BPS_SCALE,
};

verus! {

/// A new milestone of the given amount: nothing paid out, pending.
pub open spec fn pending(amount: i128) -> Milestone {
    Milestone {
        amount,
        released_amount: 0,
        status: MilestoneStatus::Pending,
        delivered_at: 0,
    }
}

/// `m` paid out in full and released.
pub open spec fn released_in_full(m: Milestone) -> Milestone {
    Milestone { released_amount: m.amount, status: MilestoneStatus::Released, ..m }
}

/// `m` marked delivered at time `at`.
pub open spec fn delivered(m: Milestone, at: u64) -> Milestone {
    Milestone { status: MilestoneStatus::Delivered, delivered_at: at, ..m }
}

/// `m` with `amount` more paid out: released once all of it is paid out,
/// partially released before.
pub open spec fn partially_approved(m: Milestone, amount: i128) -> Milestone {
    let released = m.released_amount + amount;
    Milestone {
        released_amount: released as i128,
        status: if released == m.amount {
            MilestoneStatus::Released
        } else {
            MilestoneStatus::PartiallyReleased
        },
        ..m
    }
}

/// `m` put in dispute.
pub open spec fn disputed(m: Milestone) -> Milestone {
    Milestone { status: MilestoneStatus::Disputed, ..m }
}

/// `m` refunded to the client.
pub open spec fn refunded(m: Milestone) -> Milestone {
    Milestone { status: MilestoneStatus::Refunded, ..m }
}

/// A disputed `m` settled by the arbiter: released in full to the freelancer,
/// or refunded to the client.
pub open spec fn resolved(m: Milestone, release_to_freelancer: bool) -> Milestone {
    if release_to_freelancer {
        Milestone {
            released_amount: if m.amount - m.released_amount > 0 {
                m.amount
            } else {
                m.released_amount
            },
            status: MilestoneStatus::Released,
            ..m
        }
    } else {
        refunded(m)
    }
}

/// Every amount is positive.
pub open spec fn all_positive(s: Seq<int>) -> bool {
    forall|i: int| 0 <= i < s.len() ==> s[i] > 0
}

/// The dispute flags with `index` added.
pub open spec fn with_flag(flags: Seq<u32>, index: u32) -> Seq<u32> {
    if flags.contains(index) {
        flags
    } else {
        flags.push(index)
    }
}

/// The storage entries that `initialize` writes for `n` milestones.
pub open spec fn initialize_writes(n: nat) -> Seq<DataKey> {
    seq![
        DataKey::Admin,
        DataKey::EmergencyPaused,
        DataKey::PlatformFeeAllocation,
        DataKey::WhitelistedTokens,
    ] + Seq::new(n, |i: int| DataKey::Milestone(i as u32)) + seq![DataKey::Job]
}

impl MilestoneEscrow {
    /// `self` is `other` with the job settings replaced by `meta`.
    pub open spec fn job_set(self, other: MilestoneEscrow, meta: JobMeta) -> bool {
        &&& self.job == Some(meta)
        &&& self.admin == other.admin
        &&& self.emergency_paused == other.emergency_paused
        &&& self.fee_allocation == other.fee_allocation
        &&& self.whitelisted_tokens == other.whitelisted_tokens
        &&& self.multisig_locked == other.multisig_locked
        &&& self.milestones == other.milestones
        &&& self.dispute_flags == other.dispute_flags
    }

    /// The error `initialize` gives, if any.
    pub open spec fn initialize_error(self, milestone_amounts: Seq<i128>) -> Option<Error> {
        let amounts = ints(milestone_amounts);
        if self.job is Some {
            Some(Error::AlreadyInitialized)
        } else if amounts.len() == 0 || !all_positive(amounts) || sum(amounts) > i128::MAX {
            Some(Error::InvalidAmount)
        } else {
            None
        }
    }

    /// Sets up the job: the administrator, the parties, the token (the only
    /// whitelisted one), the auto-release delay, and one pending milestone
    /// per amount. Every amount must be positive and the total must fit.
    pub fn initialize(
        &mut self,
        admin: &Address,
        client: &Address,
        freelancer: &Address,
        arbiter: &Address,
        token: &Address,
        auto_release_seconds: u64,
        milestone_amounts: &Vec<i128>,
    ) -> (r: Result<Effects, Error>)
        requires
            milestone_amounts@.len() <= u32::MAX,
        ensures
            old(self).initialize_error(milestone_amounts@) matches Some(e) ==> r == Err::<
                Effects,
                Error,
            >(e) && *final(self) == *old(self),
            old(self).initialize_error(milestone_amounts@) is None ==> {
                let n = milestone_amounts@.len();
                let old_len = old(self).milestones@.len();
                &&& r is Ok
                &&& final(self).admin == Some(*admin)
                &&& !final(self).emergency_paused
                &&& final(self).fee_allocation == Some(
                    PlatformFeeAllocation {
                        client_bps: 0,
                        freelancer_bps: BPS_SCALE,
                        treasury_bps: 0,
                        locked: false,
                    },
                )
                &&& final(self).whitelisted_tokens matches Some(v) && v@ == seq![*token]
                &&& final(self).job == Some(
                    JobMeta {
                        client: *client,
                        freelancer: *freelancer,
                        arbiter: *arbiter,
                        token: *token,
                        funded: false,
                        auto_release_seconds,
                        milestone_count: n as u32,
                        total_amount: sum(ints(milestone_amounts@)) as i128,
                    },
                )
                &&& final(self).milestones@.len() == if n < old_len {
                    old_len
                } else {
                    n
                }
                &&& forall|i: int|
                    0 <= i < n ==> #[trigger] final(self).milestones@[i] == Some(
                        pending(milestone_amounts@[i]),
                    )
                &&& forall|i: int|
                    n <= i < old_len ==> #[trigger] final(self).milestones@[i] == old(
                        self,
                    ).milestones@[i]
                &&& final(self).multisig_locked == old(self).multisig_locked
                &&& final(self).dispute_flags == old(self).dispute_flags
                &&& r->Ok_0.transfer is None
                &&& r->Ok_0.writes@ == initialize_writes(n)
                &&& r->Ok_0.event is None
            },
            old(self).wf() ==> final(self).wf(),
    {
        if self.job.is_some() {
            return Err(Error::AlreadyInitialized);
        }
        let n = milestone_amounts.len();
        let ghost amounts = ints(milestone_amounts@);
        if n == 0 {
            return Err(Error::InvalidAmount);
        }
        let mut total_amount: i128 = 0;
        let mut i: usize = 0;
        while i < n
            invariant
                n == milestone_amounts@.len(),
                amounts == ints(milestone_amounts@),
                old(self).job is None,
                0 <= i <= n,
                forall|j: int| 0 <= j < i ==> amounts[j] > 0,
                total_amount == sum(amounts.take(i as int)),
            decreases n - i,
        {
            proof {
                lemma_sum_take_step(amounts, i as int);
            }
            let amount = milestone_amounts[i];
            assert(amounts[i as int] == amount as int);
            match Self::checked_add_amount(total_amount, amount) {
                Ok(v) => total_amount = v,
                Err(e) => {
                    proof {
                        if all_positive(amounts) {
                            lemma_positive_prefix_le(amounts, i as int + 1);
                            assert(sum(amounts) > i128::MAX);
                        }
                    }
                    return Err(e);
                },
            }
            i = i + 1;
        }
        assert(amounts.take(n as int) =~= amounts);
        let old_len = self.milestones.len();
        let ghost old_ms = self.milestones@;
        let mut milestones: Vec<Option<Milestone>> = Vec::new();
        let mut writes: Vec<DataKey> = Vec::new();
        writes.push(DataKey::Admin);
        writes.push(DataKey::EmergencyPaused);
        writes.push(DataKey::PlatformFeeAllocation);
        writes.push(DataKey::WhitelistedTokens);
        let mut i: usize = 0;
        while i < n
            invariant
                n == milestone_amounts@.len(),
                n <= u32::MAX,
                0 <= i <= n,
                milestones@.len() == i,
                forall|j: int|
                    0 <= j < i ==> #[trigger] milestones@[j] == Some(
                        pending(milestone_amounts@[j]),
                    ),
                writes@ == seq![
                    DataKey::Admin,
                    DataKey::EmergencyPaused,
                    DataKey::PlatformFeeAllocation,
                    DataKey::WhitelistedTokens,
                ] + Seq::new(i as nat, |j: int| DataKey::Milestone(j as u32)),
            decreases n - i,
        {
            let amount = milestone_amounts[i];
            milestones.push(
                Some(
                    Milestone {
                        amount,
                        released_amount: 0,
                        status: MilestoneStatus::Pending,
                        delivered_at: 0,
                    },
                ),
            );
            writes.push(DataKey::Milestone(i as u32));
            assert(Seq::new((i + 1) as nat, |j: int| DataKey::Milestone(j as u32)) =~= Seq::new(
                i as nat,
                |j: int| DataKey::Milestone(j as u32),
            ).push(DataKey::Milestone(i as u32)));
            i = i + 1;
        }
        writes.push(DataKey::Job);
        let mut i: usize = n;
        while i < old_len
            invariant
                old_len == old_ms.len(),
                old_ms == self.milestones@,
                n <= i,
                i <= old_len || i == n,
                milestones@.len() == if n < i {
                    i
                } else {
                    n
                },
                forall|j: int|
                    0 <= j < n ==> #[trigger] milestones@[j] == Some(
                        pending(milestone_amounts@[j]),
                    ),
                forall|j: int| n <= j < i ==> #[trigger] milestones@[j] == old_ms[j],
            decreases old_len - i,
        {
            milestones.push(self.milestones[i]);
            i = i + 1;
        }
        let mut whitelist: Vec<Address> = Vec::new();
        whitelist.push(token.clone());
        assert(whitelist@ =~= seq![*token]);
        let meta = JobMeta {
            client: client.clone(),
            freelancer: freelancer.clone(),
            arbiter: arbiter.clone(),
            token: token.clone(),
            funded: false,
            auto_release_seconds,
            milestone_count: n as u32,
            total_amount,
        };
        let ghost pre = *self;
        self.admin = Some(admin.clone());
        self.emergency_paused = false;
        self.fee_allocation = Some(
            PlatformFeeAllocation {
                client_bps: 0,
                freelancer_bps: BPS_SCALE,
                treasury_bps: 0,
                locked: false,
            },
        );
        self.whitelisted_tokens = Some(whitelist);
        self.milestones = milestones;
        self.job = Some(meta);
        proof {
            assert(writes@ =~= initialize_writes(n as nat));
            if pre.wf() {
                assert forall|j: int| 0 <= j < self.milestones@.len() implies slot_wf(
                    #[trigger] self.milestones@[j],
                ) by {
                    if j < n {
                        assert(amounts[j] > 0);
                    } else {
                        assert(slot_wf(pre.milestones@[j]));
                    }
                }
            }
        }
        Ok(Effects { transfer: None, writes, event: None })
    }

    /// The running total of the stored amounts of milestones `0..n`, or the
    /// error met first on the way: a missing milestone, a non-positive
    /// amount, or a total that does not fit in an `i128`.
    pub open spec fn checked_total(self, n: nat) -> Result<int, Error>
        decreases n,
    {
        if n == 0 {
            Ok(0)
        } else {
            match self.checked_total((n - 1) as nat) {
                Err(e) => Err(e),
                Ok(t) => match self.slot((n - 1) as u32) {
                    None => Err(Error::InvalidMilestone),
                    Some(m) => if m.amount <= 0 || t + m.amount > i128::MAX {
                        Err(Error::InvalidAmount)
                    } else {
                        Ok(t + m.amount)
                    },
                },
            }
        }
    }

    /// What `checked_job_total` gives back: the stored milestones' total when
    /// it matches the recorded total.
    pub open spec fn job_total_result(self, meta: JobMeta) -> Result<i128, Error> {
        match self.checked_total(meta.milestone_count as nat) {
            Err(e) => Err(e),
            Ok(t) => if t != meta.total_amount {
                Err(Error::InvalidAmount)
            } else {
                Ok(meta.total_amount)
            },
        }
    }

    /// Adds up the stored amounts of the job's milestones and checks them
    /// against the recorded total.
    pub fn checked_job_total(&self, meta: &JobMeta) -> (r: Result<i128, Error>)
        ensures
            r == self.job_total_result(*meta),
    {
        let mut total_amount: i128 = 0;
        let mut index: u32 = 0;
        while index < meta.milestone_count
            invariant
                0 <= index <= meta.milestone_count,
                self.checked_total(index as nat) == Ok::<int, Error>(total_amount as int),
                total_amount >= 0,
            decreases meta.milestone_count - index,
        {
            let milestone = match self.load_milestone(index) {
                Ok(m) => m,
                Err(e) => {
                    proof {
                        self.lemma_checked_total_err(index as nat + 1, meta.milestone_count as nat);
                    }
                    return Err(e);
                },
            };
            total_amount = match Self::checked_add_amount(total_amount, milestone.amount) {
                Ok(v) => v,
                Err(e) => {
                    proof {
                        self.lemma_checked_total_err(index as nat + 1, meta.milestone_count as nat);
                    }
                    return Err(e);
                },
            };
            index = index + 1;
        }
        if total_amount != meta.total_amount {
            return Err(Error::InvalidAmount);
        }
        Ok(total_amount)
    }

    /// Once the running total has failed, it fails the same way further on.
    pub proof fn lemma_checked_total_err(self, i: nat, n: nat)
        requires
            i <= n,
            self.checked_total(i) is Err,
        ensures
            self.checked_total(n) == self.checked_total(i),
        decreases n - i,
    {
        if i < n {
            self.lemma_checked_total_err(i, (n - 1) as nat);
        }
    }

    /// Refuses to fund from the escrow's own address.
    pub fn validate_fund_client(ledger: &Ledger, client: &Address) -> (r: Result<(), Error>)
        ensures
            r == (if client@ == ledger.contract_address@ {
                Err(Error::InvalidAddress)
            } else {
                Ok::<(), Error>(())
            }),
    {
        if client.same(&ledger.contract_address) {
            return Err(Error::InvalidAddress);
        }
        Ok(())
    }

    /// The error `fund` gives, if any.
    pub open spec fn fund_error(self, ledger: Ledger, client: Address) -> Option<Error> {
        if self.emergency_paused {
            Some(Error::Paused)
        } else if client@ == ledger.contract_address@ {
            Some(Error::InvalidAddress)
        } else if self.job is None {
            Some(Error::NotInitialized)
        } else if self.meta().funded {
            Some(Error::AlreadyFunded)
        } else if self.meta().client@ != client@ {
            Some(Error::Unauthorized)
        } else {
            match self.job_total_result(self.meta()) {
                Err(e) => Some(e),
                Ok(_) => None,
            }
        }
    }

    /// The client pays the job's total into the escrow, once; every stored
    /// milestone amount must be positive and they must add up to the
    /// recorded total.
    pub fn fund(&mut self, ledger: &Ledger, client: &Address) -> (r: Result<Effects, Error>)
        ensures
            old(self).fund_error(*ledger, *client) matches Some(e) ==> r == Err::<Effects, Error>(e)
                && *final(self) == *old(self),
            old(self).fund_error(*ledger, *client) is None ==> {
                let meta = old(self).meta();
                &&& r is Ok
                &&& final(self).job_set(*old(self), JobMeta { funded: true, ..meta })
                &&& r->Ok_0.transfer == Some(
                    Transfer {
                        token: meta.token,
                        from: *client,
                        to: ledger.contract_address,
                        amount: meta.total_amount,
                    },
                )
                &&& r->Ok_0.writes@ == seq![DataKey::Job]
                &&& r->Ok_0.event == Some(
                    Event::Funded(
                        FundedEvent {
                            contract_id: ledger.contract_address,
                            client: meta.client,
                            freelancer: meta.freelancer,
                            arbiter: meta.arbiter,
                            token: meta.token,
                            total_amount: meta.total_amount,
                            milestone_count: meta.milestone_count,
                            auto_release_seconds: meta.auto_release_seconds,
                            funded: true,
                        },
                    ),
                )
            },
            old(self).wf() ==> final(self).wf(),
    {
        self.ensure_not_paused()?;
        Self::validate_fund_client(ledger, client)?;
        let meta = match &self.job {
            Some(meta) => meta,
            None => return Err(Error::NotInitialized),
        };
        if meta.funded {
            return Err(Error::AlreadyFunded);
        }
        if !meta.client.same(client) {
            return Err(Error::Unauthorized);
        }
        let total_amount = self.checked_job_total(meta)?;
        let transfer = Transfer {
            token: meta.token.clone(),
            from: client.clone(),
            to: ledger.contract_address.clone(),
            amount: total_amount,
        };
        let event = Event::Funded(
            FundedEvent {
                contract_id: ledger.contract_address.clone(),
                client: meta.client.clone(),
                freelancer: meta.freelancer.clone(),
                arbiter: meta.arbiter.clone(),
                token: meta.token.clone(),
                total_amount,
                milestone_count: meta.milestone_count,
                auto_release_seconds: meta.auto_release_seconds,
                funded: true,
            },
        );
        let funded = JobMeta {
            client: meta.client.clone(),
            freelancer: meta.freelancer.clone(),
            arbiter: meta.arbiter.clone(),
            token: meta.token.clone(),
            funded: true,
            auto_release_seconds: meta.auto_release_seconds,
            milestone_count: meta.milestone_count,
            total_amount: meta.total_amount,
        };
        self.job = Some(funded);
        let mut writes = Vec::new();
        writes.push(DataKey::Job);
        Ok(Effects { transfer: Some(transfer), writes, event: Some(event) })
    }

    /// The error `mark_delivered` gives, if any.
    pub open spec fn mark_delivered_error(self, freelancer: Address, milestone_index: u32) -> Option<
        Error,
    > {
        let m = self.milestone(milestone_index);
        if self.emergency_paused {
            Some(Error::Paused)
        } else if freelancer@ == zero_account_strkey() || freelancer@ == zero_contract_strkey() {
            Some(Error::InvalidAddress)
        } else if self.job is None {
            Some(Error::NotInitialized)
        } else if self.meta().freelancer@ != freelancer@ {
            Some(Error::Unauthorized)
        } else if !self.meta().funded {
            Some(Error::NotFunded)
        } else if milestone_index >= self.meta().milestone_count {
            Some(Error::InvalidMilestone)
        } else if self.slot(milestone_index) is None {
            Some(Error::InvalidMilestone)
        } else if m.status != MilestoneStatus::Pending {
            Some(Error::InvalidStatus)
        } else if m.amount <= 0 {
            Some(Error::InvalidAmount)
        } else {
            None
        }
    }

    /// The freelancer marks a pending milestone of a funded job as delivered,
    /// at the current ledger time.
    pub fn mark_delivered(&mut self, ledger: &Ledger, freelancer: &Address, milestone_index: u32) -> (r:
        Result<Effects, Error>)
        ensures
            old(self).mark_delivered_error(*freelancer, milestone_index) matches Some(e) ==> r
                == Err::<Effects, Error>(e) && *final(self) == *old(self),
            old(self).mark_delivered_error(*freelancer, milestone_index) is None ==> {
                let meta = old(self).meta();
                let m = old(self).milestone(milestone_index);
                &&& r is Ok
                &&& final(self).replaced_milestone(
                    *old(self),
                    milestone_index,
                    delivered(m, ledger.timestamp),
                )
                &&& r->Ok_0.transfer is None
                &&& r->Ok_0.writes@ == seq![DataKey::Milestone(milestone_index)]
                &&& r->Ok_0.event == Some(
                    Event::Delivered(
                        DeliveredEvent {
                            contract_id: ledger.contract_address,
                            milestone_index,
                            freelancer: meta.freelancer,
                            client: meta.client,
                            delivered_at: ledger.timestamp,
                            status: MilestoneStatus::Delivered,
                            amount: m.amount,
                        },
                    ),
                )
            },
            r is Ok && old(self).wf() ==> held(final(self).milestone(milestone_index)) == held(
                old(self).milestone(milestone_index),
            ) - transferred(r->Ok_0),
            old(self).wf() ==> final(self).wf(),
    {
        self.ensure_not_paused()?;
        if freelancer.is_zero() {
            return Err(Error::InvalidAddress);
        }
        let meta = match &self.job {
            Some(meta) => meta,
            None => return Err(Error::NotInitialized),
        };
        if !meta.freelancer.same(freelancer) {
            return Err(Error::Unauthorized);
        }
        if !meta.funded {
            return Err(Error::NotFunded);
        }
        if milestone_index >= meta.milestone_count {
            return Err(Error::InvalidMilestone);
        }
        let milestone = self.load_milestone(milestone_index)?;
        if milestone.status != MilestoneStatus::Pending {
            return Err(Error::InvalidStatus);
        }
        if milestone.amount <= 0 {
            return Err(Error::InvalidAmount);
        }
        let delivered_at = ledger.timestamp;
        let updated = Milestone {
            status: MilestoneStatus::Delivered,
            delivered_at,
            ..milestone
        };
        let event = Event::Delivered(
            DeliveredEvent {
                contract_id: ledger.contract_address.clone(),
                milestone_index,
                freelancer: meta.freelancer.clone(),
                client: meta.client.clone(),
                delivered_at,
                status: MilestoneStatus::Delivered,
                amount: milestone.amount,
            },
        );
        let ghost pre = *self;
        self.store_milestone(milestone_index, updated);
        proof {
            self.lemma_replaced_keeps_wf(pre, milestone_index, updated);
        }
        let mut writes = Vec::new();
        writes.push(DataKey::Milestone(milestone_index));
        Ok(Effects { transfer: None, writes, event: Some(event) })
    }

    /// Replacing one milestone with a consistent one keeps the invariant.
    pub proof fn lemma_replaced_keeps_wf(self, pre: MilestoneEscrow, index: u32, m: Milestone)
        requires
            index < pre.milestones@.len(),
            self.replaced_milestone(pre, index, m),
            pre.wf() ==> milestone_wf(m),
        ensures
            pre.wf() ==> self.wf(),
    {
        if pre.wf() {
            assert forall|j: int| 0 <= j < self.milestones@.len() implies slot_wf(
                #[trigger] self.milestones@[j],
            ) by {
                if j != index {
                    assert(slot_wf(pre.milestones@[j]));
                }
            }
        }
    }

    /// The checks of `claim_auto_release` before the deadline is computed
    /// all pass.
    pub open spec fn claim_reaches_deadline(self, freelancer: Address, milestone_index: u32) -> bool {
        &&& !self.emergency_paused
        &&& self.job is Some
        &&& self.meta().freelancer@ == freelancer@
        &&& milestone_index < self.meta().milestone_count
        &&& self.slot(milestone_index) is Some
        &&& self.milestone(milestone_index).status == MilestoneStatus::Delivered
        &&& self.meta().auto_release_seconds != 0
    }

    /// The deadline of an auto-release: delivery time plus the delay.
    pub open spec fn deadline(self, milestone_index: u32) -> int {
        self.milestone(milestone_index).delivered_at + self.meta().auto_release_seconds
    }

    /// The inputs on which `claim_auto_release` would overflow: the deadline
    /// does not fit in a `u64`, or the unpaid amount does not fit in an `i128`.
    pub open spec fn claim_overflows(self, ledger: Ledger, freelancer: Address, milestone_index: u32) -> bool {
        let m = self.milestone(milestone_index);
        &&& self.claim_reaches_deadline(freelancer, milestone_index)
        &&& (self.deadline(milestone_index) > u64::MAX || (ledger.timestamp >= self.deadline(
            milestone_index,
        ) && !fits_i128(m.amount - m.released_amount)))
    }

    /// The error `claim_auto_release` gives, if any.
    pub open spec fn claim_auto_release_error(self, ledger: Ledger, freelancer: Address, milestone_index: u32) -> Option<Error> {
        let m = self.milestone(milestone_index);
        if self.emergency_paused {
            Some(Error::Paused)
        } else if self.job is None {
            Some(Error::NotInitialized)
        } else if self.meta().freelancer@ != freelancer@ {
            Some(Error::Unauthorized)
        } else if milestone_index >= self.meta().milestone_count {
            Some(Error::InvalidMilestone)
        } else if self.slot(milestone_index) is None {
            Some(Error::InvalidMilestone)
        } else if m.status != MilestoneStatus::Delivered {
            Some(Error::InvalidStatus)
        } else if self.meta().auto_release_seconds == 0 {
            Some(Error::InvalidAmount)
        } else if ledger.timestamp < self.deadline(milestone_index) {
            Some(Error::DeadlineNotPassed)
        } else if m.amount - m.released_amount <= 0 {
            Some(Error::InvalidAmount)
        } else {
            None
        }
    }

    /// Once the auto-release delay has passed since delivery, the freelancer
    /// collects the unpaid rest of a delivered milestone.
    pub fn claim_auto_release(&mut self, ledger: &Ledger, freelancer: &Address, milestone_index: u32) -> (r: Result<Effects, Error>)
        requires
            !old(self).claim_overflows(*ledger, *freelancer, milestone_index),
        ensures
            old(self).claim_auto_release_error(*ledger, *freelancer, milestone_index) matches Some(e)
                ==> r == Err::<Effects, Error>(e) && *final(self) == *old(self),
            old(self).claim_auto_release_error(*ledger, *freelancer, milestone_index) is None ==> {
                let meta = old(self).meta();
                let m = old(self).milestone(milestone_index);
                &&& r is Ok
                &&& final(self).replaced_milestone(*old(self), milestone_index, released_in_full(m))
                &&& r->Ok_0.transfer == Some(
                    Transfer {
                        token: meta.token,
                        from: ledger.contract_address,
                        to: meta.freelancer,
                        amount: (m.amount - m.released_amount) as i128,
                    },
                )
                &&& r->Ok_0.writes@ == seq![DataKey::Milestone(milestone_index)]
                &&& r->Ok_0.event is None
            },
            r is Ok && old(self).wf() ==> held(final(self).milestone(milestone_index)) == held(
                old(self).milestone(milestone_index),
            ) - transferred(r->Ok_0),
            ({
                let m = old(self).milestone(milestone_index);
                &&& !old(self).emergency_paused
                &&& old(self).job is Some
                &&& old(self).meta().freelancer@ == freelancer@
                &&& milestone_index < old(self).meta().milestone_count
                &&& old(self).slot(milestone_index) is Some
                &&& m.status == MilestoneStatus::Delivered
                &&& old(self).meta().auto_release_seconds != 0
                &&& ledger.timestamp >= m.delivered_at + old(self).meta().auto_release_seconds
                &&& m.amount - m.released_amount > 0
            }) ==> ({
                let m = old(self).milestone(milestone_index);
                let m2 = final(self).milestone(milestone_index);
                &&& r is Ok
                &&& m2.status == MilestoneStatus::Released
                &&& m2.released_amount == m.amount
                &&& r->Ok_0.transfer matches Some(t) && t.amount == m.amount - m.released_amount
                    && t.to == old(self).meta().freelancer
            }),
            old(self).wf() ==> final(self).wf(),
    {
        self.ensure_not_paused()?;
        let meta = match &self.job {
            Some(meta) => meta,
            None => return Err(Error::NotInitialized),
        };
        if !meta.freelancer.same(freelancer) {
            return Err(Error::Unauthorized);
        }
        if milestone_index >= meta.milestone_count {
            return Err(Error::InvalidMilestone);
        }
        let milestone = self.load_milestone(milestone_index)?;
        if milestone.status != MilestoneStatus::Delivered {
            return Err(Error::InvalidStatus);
        }
        if meta.auto_release_seconds == 0 {
            return Err(Error::InvalidAmount);
        }
        let deadline = milestone.delivered_at + meta.auto_release_seconds;
        if ledger.timestamp < deadline {
            return Err(Error::DeadlineNotPassed);
        }
        let remaining = milestone.amount - milestone.released_amount;
        if remaining <= 0 {
            return Err(Error::InvalidAmount);
        }
        let transfer = Transfer {
            token: meta.token.clone(),
            from: ledger.contract_address.clone(),
            to: meta.freelancer.clone(),
            amount: remaining,
        };
        let updated = Milestone {
            released_amount: milestone.amount,
            status: MilestoneStatus::Released,
            ..milestone
        };
        let ghost pre = *self;
        self.store_milestone(milestone_index, updated);
        proof {
            self.lemma_replaced_keeps_wf(pre, milestone_index, updated);
        }
        let mut writes = Vec::new();
        writes.push(DataKey::Milestone(milestone_index));
        Ok(Effects { transfer: Some(transfer), writes, event: None })
    }

    /// The seconds left until a milestone can be auto-released (negative once
    /// the deadline has passed).
    pub fn time_until_auto_release(&self, ledger: &Ledger, milestone_index: u32) -> (r: i64)
        requires
            self.job is Some,
            self.slot(milestone_index) is Some,
            self.deadline(milestone_index) <= u64::MAX,
            i64::MIN <= (self.deadline(milestone_index) as u64 as i64) - (ledger.timestamp as i64)
                <= i64::MAX,
        ensures
            r == (self.deadline(milestone_index) as u64 as i64) - (ledger.timestamp as i64),
    {
        let meta = self.job.as_ref().unwrap();
        let milestone = self.milestones[milestone_index as usize].unwrap();
        let deadline = milestone.delivered_at + meta.auto_release_seconds;
        (deadline as i64) - (ledger.timestamp as i64)
    }
    /// The first check that `approve_partial` fails, if any.
    pub open spec fn approve_partial_error(
        self,
        client: Address,
        milestone_index: u32,
        amount: i128,
    ) -> Option<Error> {
        let m = self.milestone(milestone_index);
        if self.emergency_paused {
            Some(Error::Paused)
        } else if self.job is None {
            Some(Error::NotInitialized)
        } else if self.meta().client@ != client@ {
            Some(Error::Unauthorized)
        } else if milestone_index >= self.meta().milestone_count {
            Some(Error::InvalidMilestone)
        } else if self.slot(milestone_index) is None {
            Some(Error::InvalidMilestone)
        } else if !self.meta().funded {
            Some(Error::NotFunded)
        } else if !releasable(m.status) {
            Some(Error::InvalidStatus)
        } else if amount <= 0 {
            Some(Error::InvalidAmount)
        } else if !fits_i128(m.amount - m.released_amount) {
            Some(Error::InvalidAmount)
        } else if amount > m.amount - m.released_amount {
            Some(Error::InvalidAmount)
        } else {
            None
        }
    }

    /// The client releases `amount` of a delivered milestone to the freelancer.
    /// The milestone becomes `Released` once all of it is paid out, else
    /// `PartiallyReleased`.
    pub fn approve_partial(
        &mut self,
        ledger: &Ledger,
        client: &Address,
        milestone_index: u32,
        amount: i128,
    ) -> (r: Result<Effects, Error>)
        ensures
            old(self).approve_partial_error(*client, milestone_index, amount) matches Some(e)
                ==> r == Err::<Effects, Error>(e) && *final(self) == *old(self),
            old(self).approve_partial_error(*client, milestone_index, amount) is None ==> {
                let meta = old(self).meta();
                let m = old(self).milestone(milestone_index);
                let released = m.released_amount + amount;
                let status = if released == m.amount {
                    MilestoneStatus::Released
                } else {
                    MilestoneStatus::PartiallyReleased
                };
                let m2 = partially_approved(m, amount);
                &&& r is Ok
                &&& final(self).replaced_milestone(*old(self), milestone_index, m2)
                &&& r->Ok_0.transfer == Some(
                    Transfer {
                        token: meta.token,
                        from: ledger.contract_address,
                        to: meta.freelancer,
                        amount,
                    },
                )
                &&& r->Ok_0.writes@ == seq![DataKey::Milestone(milestone_index)]
                &&& r->Ok_0.event == Some(
                    Event::Approved(
                        ApprovedEvent {
                            contract_id: ledger.contract_address,
                            milestone_index,
                            client: meta.client,
                            freelancer: meta.freelancer,
                            token: meta.token,
                            amount,
                            released_amount: released as i128,
                            remaining: (m.amount - released) as i128,
                            status,
                        },
                    ),
                )
            },
            r is Ok && old(self).wf() ==> held(final(self).milestone(milestone_index)) == held(
                old(self).milestone(milestone_index),
            ) - transferred(r->Ok_0),
            ({
                let m = old(self).milestone(milestone_index);
                &&& !old(self).emergency_paused
                &&& old(self).job is Some
                &&& old(self).meta().client@ == client@
                &&& old(self).meta().funded
                &&& milestone_index < old(self).meta().milestone_count
                &&& old(self).slot(milestone_index) is Some
                &&& (m.status == MilestoneStatus::Delivered || m.status
                    == MilestoneStatus::PartiallyReleased)
                &&& 0 < amount <= m.amount - m.released_amount <= i128::MAX
            }) ==> ({
                let m = old(self).milestone(milestone_index);
                let m2 = final(self).milestone(milestone_index);
                &&& r is Ok
                &&& m2.amount == m.amount
                &&& m2.released_amount == m.released_amount + amount
                &&& (m2.status == MilestoneStatus::Released) == (m2.released_amount == m.amount)
                &&& m2.status != MilestoneStatus::Released ==> m2.status
                    == MilestoneStatus::PartiallyReleased
                &&& r->Ok_0.transfer matches Some(t) && t.amount == amount && t.to
                    == old(self).meta().freelancer
            }),
            old(self).wf() ==> final(self).wf(),
    {
        self.ensure_not_paused()?;
        let meta = match &self.job {
            Some(meta) => meta,
            None => return Err(Error::NotInitialized),
        };
        if !meta.client.same(client) {
            return Err(Error::Unauthorized);
        }
        if milestone_index >= meta.milestone_count {
            return Err(Error::InvalidMilestone);
        }
        let milestone = self.load_milestone(milestone_index)?;
        if !meta.funded {
            return Err(Error::NotFunded);
        }
        if milestone.status != MilestoneStatus::Delivered && milestone.status
            != MilestoneStatus::PartiallyReleased {
            return Err(Error::InvalidStatus);
        }
        if amount <= 0 {
            return Err(Error::InvalidAmount);
        }
        let remaining = match milestone.amount.checked_sub(milestone.released_amount) {
            Some(v) => v,
            None => return Err(Error::InvalidAmount),
        };
        if amount > remaining {
            return Err(Error::InvalidAmount);
        }
        let transfer = Transfer {
            token: meta.token.clone(),
            from: ledger.contract_address.clone(),
            to: meta.freelancer.clone(),
            amount,
        };
        let released = milestone.released_amount + amount;
        let status = if released == milestone.amount {
            MilestoneStatus::Released
        } else {
            MilestoneStatus::PartiallyReleased
        };
        let updated = Milestone { released_amount: released, status, ..milestone };
        let event = Event::Approved(
            ApprovedEvent {
                contract_id: ledger.contract_address.clone(),
                milestone_index,
                client: meta.client.clone(),
                freelancer: meta.freelancer.clone(),
                token: meta.token.clone(),
                amount,
                released_amount: released,
                remaining: milestone.amount - released,
                status,
            },
        );
        let ghost pre = *self;
        self.store_milestone(milestone_index, updated);
        proof {
            self.lemma_replaced_keeps_wf(pre, milestone_index, updated);
        }
        let mut writes = Vec::new();
        writes.push(DataKey::Milestone(milestone_index));
        Ok(Effects { transfer: Some(transfer), writes, event: Some(event) })
    }

    /// The error `approve_milestone` gives, if any.
    pub open spec fn approve_milestone_error(self, client: Address, milestone_index: u32) -> Option<
        Error,
    > {
        let m = self.milestone(milestone_index);
        if self.emergency_paused {
            Some(Error::Paused)
        } else if self.job is None {
            Some(Error::NotInitialized)
        } else if client@ == zero_account_strkey() || client@ == zero_contract_strkey() {
            Some(Error::InvalidAddress)
        } else if self.meta().client@ != client@ {
            Some(Error::Unauthorized)
        } else if milestone_index >= self.meta().milestone_count {
            Some(Error::InvalidMilestone)
        } else if self.slot(milestone_index) is None {
            Some(Error::InvalidMilestone)
        } else if m.amount <= 0 {
            Some(Error::InvalidAmount)
        } else if !releasable(m.status) {
            Some(Error::InvalidStatus)
        } else if !fits_i128(m.amount - m.released_amount) {
            Some(Error::InvalidAmount)
        } else if m.amount - m.released_amount <= 0 {
            Some(Error::InvalidAmount)
        } else {
            None
        }
    }

    /// The client releases all that is left of a delivered milestone to the
    /// freelancer.
    pub fn approve_milestone(&mut self, ledger: &Ledger, client: &Address, milestone_index: u32) -> (r:
        Result<Effects, Error>)
        ensures
            old(self).approve_milestone_error(*client, milestone_index) matches Some(e) ==> r
                == Err::<Effects, Error>(e) && *final(self) == *old(self),
            old(self).approve_milestone_error(*client, milestone_index) is None ==> {
                let meta = old(self).meta();
                let m = old(self).milestone(milestone_index);
                let remaining = (m.amount - m.released_amount) as i128;
                &&& r is Ok
                &&& final(self).replaced_milestone(*old(self), milestone_index, released_in_full(m))
                &&& r->Ok_0.transfer == Some(
                    Transfer {
                        token: meta.token,
                        from: ledger.contract_address,
                        to: meta.freelancer,
                        amount: remaining,
                    },
                )
                &&& r->Ok_0.writes@ == seq![DataKey::Milestone(milestone_index)]
                &&& r->Ok_0.event == Some(
                    Event::Approved(
                        ApprovedEvent {
                            contract_id: ledger.contract_address,
                            milestone_index,
                            client: meta.client,
                            freelancer: meta.freelancer,
                            token: meta.token,
                            amount: remaining,
                            released_amount: m.amount,
                            remaining: 0,
                            status: MilestoneStatus::Released,
                        },
                    ),
                )
            },
            r is Ok && old(self).wf() ==> held(final(self).milestone(milestone_index)) == held(
                old(self).milestone(milestone_index),
            ) - transferred(r->Ok_0),
            old(self).wf() ==> final(self).wf(),
    {
        self.ensure_not_paused()?;
        let meta = match &self.job {
            Some(meta) => meta,
            None => return Err(Error::NotInitialized),
        };
        if client.is_zero() {
            return Err(Error::InvalidAddress);
        }
        if !meta.client.same(client) {
            return Err(Error::Unauthorized);
        }
        if milestone_index >= meta.milestone_count {
            return Err(Error::InvalidMilestone);
        }
        let milestone = self.load_milestone(milestone_index)?;
        if milestone.amount <= 0 {
            return Err(Error::InvalidAmount);
        }
        if milestone.status != MilestoneStatus::Delivered && milestone.status
            != MilestoneStatus::PartiallyReleased {
            return Err(Error::InvalidStatus);
        }
        let remaining = match milestone.amount.checked_sub(milestone.released_amount) {
            Some(v) => v,
            None => return Err(Error::InvalidAmount),
        };
        if remaining <= 0 {
            return Err(Error::InvalidAmount);
        }
        let transfer = Transfer {
            token: meta.token.clone(),
            from: ledger.contract_address.clone(),
            to: meta.freelancer.clone(),
            amount: remaining,
        };
        let updated = Milestone {
            released_amount: milestone.amount,
            status: MilestoneStatus::Released,
            ..milestone
        };
        let event = Event::Approved(
            ApprovedEvent {
                contract_id: ledger.contract_address.clone(),
                milestone_index,
                client: meta.client.clone(),
                freelancer: meta.freelancer.clone(),
                token: meta.token.clone(),
                amount: remaining,
                released_amount: updated.released_amount,
                remaining: updated.amount - updated.released_amount,
                status: MilestoneStatus::Released,
            },
        );
        let ghost pre = *self;
        self.store_milestone(milestone_index, updated);
        proof {
            self.lemma_replaced_keeps_wf(pre, milestone_index, updated);
        }
        let mut writes = Vec::new();
        writes.push(DataKey::Milestone(milestone_index));
        Ok(Effects { transfer: Some(transfer), writes, event: Some(event) })
    }

    /// The error `raise_dispute` gives, if any.
    pub open spec fn raise_dispute_error(self, caller: Address, milestone_index: u32) -> Option<Error> {
        let m = self.milestone(milestone_index);
        if self.emergency_paused {
            Some(Error::Paused)
        } else if self.job is None {
            Some(Error::NotInitialized)
        } else if self.meta().client@ != caller@ && self.meta().freelancer@ != caller@ {
            Some(Error::Unauthorized)
        } else if self.slot(milestone_index) is None {
            Some(Error::InvalidMilestone)
        } else if !(m.status == MilestoneStatus::Pending || m.status == MilestoneStatus::Delivered
            || m.status == MilestoneStatus::PartiallyReleased) {
            Some(Error::InvalidStatus)
        } else {
            None
        }
    }

    /// The client or the freelancer puts an unsettled milestone in dispute,
    /// and its dispute flag is set.
    pub fn raise_dispute(&mut self, caller: &Address, milestone_index: u32) -> (r: Result<
        Effects,
        Error,
    >)
        ensures
            old(self).raise_dispute_error(*caller, milestone_index) matches Some(e) ==> r == Err::<
                Effects,
                Error,
            >(e) && *final(self) == *old(self),
            old(self).raise_dispute_error(*caller, milestone_index) is None ==> {
                let m = old(self).milestone(milestone_index);
                &&& r is Ok
                &&& final(self).same_settings(*old(self))
                &&& final(self).milestones@ == old(self).milestones@.update(
                    milestone_index as int,
                    Some(disputed(m)),
                )
                &&& final(self).dispute_flags@ == with_flag(
                    old(self).dispute_flags@,
                    milestone_index,
                )
                &&& r->Ok_0.transfer is None
                &&& r->Ok_0.writes@ == seq![
                    DataKey::Milestone(milestone_index),
                    DataKey::DisputeFlag(milestone_index),
                ]
                &&& r->Ok_0.event is None
            },
            r is Ok && old(self).wf() ==> held(final(self).milestone(milestone_index)) == held(
                old(self).milestone(milestone_index),
            ) - transferred(r->Ok_0),
            ({
                let m = old(self).milestone(milestone_index);
                &&& !old(self).emergency_paused
                &&& old(self).job is Some
                &&& (old(self).meta().client@ == caller@ || old(self).meta().freelancer@
                    == caller@)
                &&& old(self).slot(milestone_index) is Some
                &&& (m.status == MilestoneStatus::Pending || m.status == MilestoneStatus::Delivered
                    || m.status == MilestoneStatus::PartiallyReleased)
            }) ==> ({
                let m = old(self).milestone(milestone_index);
                let m2 = final(self).milestone(milestone_index);
                &&& r is Ok
                &&& m2.status == MilestoneStatus::Disputed
                &&& m2.amount == m.amount
                &&& m2.released_amount == m.released_amount
                &&& final(self).dispute_flags@.contains(milestone_index)
            }),
            old(self).wf() ==> final(self).wf(),
    {
        self.ensure_not_paused()?;
        let meta = match &self.job {
            Some(meta) => meta,
            None => return Err(Error::NotInitialized),
        };
        if !meta.client.same(caller) && !meta.freelancer.same(caller) {
            return Err(Error::Unauthorized);
        }
        let milestone = self.load_milestone(milestone_index)?;
        if milestone.status != MilestoneStatus::Pending && milestone.status
            != MilestoneStatus::Delivered && milestone.status
            != MilestoneStatus::PartiallyReleased {
            return Err(Error::InvalidStatus);
        }
        let updated = Milestone { status: MilestoneStatus::Disputed, ..milestone };
        let ghost pre = *self;
        self.store_milestone(milestone_index, updated);
        proof {
            self.lemma_replaced_keeps_wf(pre, milestone_index, updated);
        }
        let mut flagged = false;
        let mut i: usize = 0;
        while i < self.dispute_flags.len()
            invariant
                0 <= i <= self.dispute_flags@.len(),
                flagged == exists|k: int| 0 <= k < i && #[trigger] self.dispute_flags@[k] == milestone_index,
            decreases self.dispute_flags.len() - i,
        {
            if self.dispute_flags[i] == milestone_index {
                flagged = true;
            }
            i = i + 1;
        }
        if !flagged {
            self.dispute_flags.push(milestone_index);
            assert(self.dispute_flags@[self.dispute_flags@.len() - 1] == milestone_index);
        }
        assert(self.dispute_flags@.contains(milestone_index));
        let mut writes = Vec::new();
        writes.push(DataKey::Milestone(milestone_index));
        writes.push(DataKey::DisputeFlag(milestone_index));
        Ok(Effects { transfer: None, writes, event: None })
    }

    /// The checks of `resolve_dispute` all pass up to working out the unpaid
    /// amount, and that amount does not fit in an `i128`.
    pub open spec fn resolve_overflows(self, arbiter: Address, milestone_index: u32) -> bool {
        let m = self.milestone(milestone_index);
        &&& self.resolve_dispute_error(arbiter, milestone_index) is None
        &&& !fits_i128(m.amount - m.released_amount)
    }

    /// The error `resolve_dispute` gives, if any.
    pub open spec fn resolve_dispute_error(self, arbiter: Address, milestone_index: u32) -> Option<
        Error,
    > {
        if self.emergency_paused {
            Some(Error::Paused)
        } else if self.job is None {
            Some(Error::NotInitialized)
        } else if self.meta().arbiter@ != arbiter@ {
            Some(Error::Unauthorized)
        } else if self.slot(milestone_index) is None {
            Some(Error::InvalidMilestone)
        } else if self.milestone(milestone_index).status != MilestoneStatus::Disputed {
            Some(Error::InvalidStatus)
        } else {
            None
        }
    }

    /// The arbiter settles a disputed milestone: the unpaid rest goes to the
    /// freelancer (`Released`) or back to the client (`Refunded`).
    pub fn resolve_dispute(
        &mut self,
        ledger: &Ledger,
        arbiter: &Address,
        milestone_index: u32,
        release_to_freelancer: bool,
    ) -> (r: Result<Effects, Error>)
        requires
            !old(self).resolve_overflows(*arbiter, milestone_index),
        ensures
            old(self).resolve_dispute_error(*arbiter, milestone_index) matches Some(e) ==> r
                == Err::<Effects, Error>(e) && *final(self) == *old(self),
            old(self).resolve_dispute_error(*arbiter, milestone_index) is None ==> {
                let meta = old(self).meta();
                let m = old(self).milestone(milestone_index);
                let remaining = m.amount - m.released_amount;
                let m2 = resolved(m, release_to_freelancer);
                &&& r is Ok
                &&& final(self).replaced_milestone(*old(self), milestone_index, m2)
                &&& r->Ok_0.transfer == if remaining > 0 {
                    Some(
                        Transfer {
                            token: meta.token,
                            from: ledger.contract_address,
                            to: if release_to_freelancer {
                                meta.freelancer
                            } else {
                                meta.client
                            },
                            amount: remaining as i128,
                        },
                    )
                } else {
                    None
                }
                &&& r->Ok_0.writes@ == seq![DataKey::Milestone(milestone_index)]
                &&& r->Ok_0.event is None
            },
            r is Ok && old(self).wf() ==> held(final(self).milestone(milestone_index)) == held(
                old(self).milestone(milestone_index),
            ) - transferred(r->Ok_0),
            r is Ok && !release_to_freelancer ==> ({
                let m = old(self).milestone(milestone_index);
                let m2 = final(self).milestone(milestone_index);
                &&& m2.status == MilestoneStatus::Refunded
                &&& m2.released_amount == m.released_amount
                &&& m2.amount == m.amount
                &&& (m.amount - m.released_amount > 0 ==> (r->Ok_0.transfer matches Some(t)
                    && t.to == old(self).meta().client && t.amount == m.amount
                    - m.released_amount))
            }),
            r is Ok && release_to_freelancer ==> ({
                let m = old(self).milestone(milestone_index);
                let m2 = final(self).milestone(milestone_index);
                &&& m2.status == MilestoneStatus::Released
                &&& m2.amount == m.amount
                &&& (m.amount - m.released_amount > 0 ==> m2.released_amount == m.amount && (
                r->Ok_0.transfer matches Some(t) && t.to == old(self).meta().freelancer && t.amount
                    == m.amount - m.released_amount))
            }),
            !old(self).emergency_paused && old(self).job is Some && old(self).meta().arbiter@
                == arbiter@ && old(self).slot(milestone_index) is Some && old(self).milestone(
                milestone_index,
            ).status == MilestoneStatus::Disputed ==> r is Ok,
            old(self).wf() ==> final(self).wf(),
    {
        self.ensure_not_paused()?;
        let meta = match &self.job {
            Some(meta) => meta,
            None => return Err(Error::NotInitialized),
        };
        if !meta.arbiter.same(arbiter) {
            return Err(Error::Unauthorized);
        }
        let milestone = self.load_milestone(milestone_index)?;
        if milestone.status != MilestoneStatus::Disputed {
            return Err(Error::InvalidStatus);
        }
        let remaining = milestone.amount - milestone.released_amount;
        let mut transfer: Option<Transfer> = None;
        let mut updated = milestone;
        if release_to_freelancer {
            if remaining > 0 {
                transfer = Some(
                    Transfer {
                        token: meta.token.clone(),
                        from: ledger.contract_address.clone(),
                        to: meta.freelancer.clone(),
                        amount: remaining,
                    },
                );
                updated.released_amount = milestone.amount;
            }
            updated.status = MilestoneStatus::Released;
        } else {
            if remaining > 0 {
                transfer = Some(
                    Transfer {
                        token: meta.token.clone(),
                        from: ledger.contract_address.clone(),
                        to: meta.client.clone(),
                        amount: remaining,
                    },
                );
            }
            updated.status = MilestoneStatus::Refunded;
        }
        let ghost pre = *self;
        self.store_milestone(milestone_index, updated);
        proof {
            self.lemma_replaced_keeps_wf(pre, milestone_index, updated);
        }
        let mut writes = Vec::new();
        writes.push(DataKey::Milestone(milestone_index));
        Ok(Effects { transfer, writes, event: None })
    }

    /// The error the administrator's override release or refund gives, if any.
    pub open spec fn override_error(self, admin: Address, milestone_index: u32) -> Option<Error> {
        let m = self.milestone(milestone_index);
        if self.admin_error(admin) is Some {
            self.admin_error(admin)
        } else if self.job is None {
            Some(Error::NotInitialized)
        } else if !self.meta().funded {
            Some(Error::NotFunded)
        } else if milestone_index >= self.meta().milestone_count {
            Some(Error::InvalidMilestone)
        } else if self.slot(milestone_index) is None {
            Some(Error::InvalidMilestone)
        } else if m.status == MilestoneStatus::Released || m.status == MilestoneStatus::Refunded {
            Some(Error::InvalidStatus)
        } else if !fits_i128(m.amount - m.released_amount) {
            Some(Error::InvalidAmount)
        } else {
            None
        }
    }

    /// `self` is `other` with the milestone at `index` replaced by `m` and
    /// the multisig lock cleared.
    pub open spec fn overridden(self, other: MilestoneEscrow, index: u32, m: Milestone) -> bool {
        &&& self.admin == other.admin
        &&& self.emergency_paused == other.emergency_paused
        &&& self.fee_allocation == other.fee_allocation
        &&& self.whitelisted_tokens == other.whitelisted_tokens
        &&& self.job == other.job
        &&& !self.multisig_locked
        &&& self.dispute_flags == other.dispute_flags
        &&& self.milestones@ == other.milestones@.update(index as int, Some(m))
    }

    /// The administrator settles an unsettled milestone of a funded job in
    /// the freelancer's favour, paying out its unpaid rest, and clears the
    /// multisig lock.
    pub fn multisig_admin_override_release(&mut self, ledger: &Ledger, admin: &Address, milestone_index: u32) -> (r: Result<Effects, Error>)
        ensures
            old(self).override_error(*admin, milestone_index) matches Some(e) ==> r == Err::<
                Effects,
                Error,
            >(e) && *final(self) == *old(self),
            old(self).override_error(*admin, milestone_index) is None ==> {
                let meta = old(self).meta();
                let m = old(self).milestone(milestone_index);
                let remaining = (m.amount - m.released_amount) as i128;
                &&& r is Ok
                &&& final(self).overridden(*old(self), milestone_index, released_in_full(m))
                &&& r->Ok_0.transfer == if remaining > 0 {
                    Some(
                        Transfer {
                            token: meta.token,
                            from: ledger.contract_address,
                            to: meta.freelancer,
                            amount: remaining,
                        },
                    )
                } else {
                    None
                }
                &&& r->Ok_0.writes@ == seq![
                    DataKey::Milestone(milestone_index),
                    DataKey::MultisigLocked,
                ]
                &&& r->Ok_0.event == Some(
                    Event::MultisigAdminOverrideRelease(
                        MultisigAdminOverrideReleaseEvent {
                            admin: *admin,
                            contract_id: ledger.contract_address,
                            milestone_index,
                            freelancer: meta.freelancer,
                            token: meta.token,
                            amount: remaining,
                        },
                    ),
                )
            },
            r is Ok && old(self).wf() ==> held(final(self).milestone(milestone_index)) == held(
                old(self).milestone(milestone_index),
            ) - transferred(r->Ok_0),
            old(self).wf() ==> final(self).wf(),
    {
        let (milestone, remaining) = self.override_checks(admin, milestone_index)?;
        let meta = match &self.job {
            Some(meta) => meta,
            None => return Err(Error::NotInitialized),
        };
        let transfer = if remaining > 0 {
            Some(
                Transfer {
                    token: meta.token.clone(),
                    from: ledger.contract_address.clone(),
                    to: meta.freelancer.clone(),
                    amount: remaining,
                },
            )
        } else {
            None
        };
        let event = Event::MultisigAdminOverrideRelease(
            MultisigAdminOverrideReleaseEvent {
                admin: admin.clone(),
                contract_id: ledger.contract_address.clone(),
                milestone_index,
                freelancer: meta.freelancer.clone(),
                token: meta.token.clone(),
                amount: remaining,
            },
        );
        let updated = Milestone {
            released_amount: milestone.amount,
            status: MilestoneStatus::Released,
            ..milestone
        };
        let ghost pre = *self;
        self.store_milestone(milestone_index, updated);
        proof {
            self.lemma_replaced_keeps_wf(pre, milestone_index, updated);
        }
        self.multisig_locked = false;
        let mut writes = Vec::new();
        writes.push(DataKey::Milestone(milestone_index));
        writes.push(DataKey::MultisigLocked);
        Ok(Effects { transfer, writes, event: Some(event) })
    }

    /// The administrator settles an unsettled milestone of a funded job in
    /// the client's favour, refunding its unpaid rest, and clears the
    /// multisig lock.
    pub fn multisig_admin_override_refund(&mut self, ledger: &Ledger, admin: &Address, milestone_index: u32) -> (r: Result<Effects, Error>)
        ensures
            old(self).override_error(*admin, milestone_index) matches Some(e) ==> r == Err::<
                Effects,
                Error,
            >(e) && *final(self) == *old(self),
            old(self).override_error(*admin, milestone_index) is None ==> {
                let meta = old(self).meta();
                let m = old(self).milestone(milestone_index);
                let remaining = (m.amount - m.released_amount) as i128;
                &&& r is Ok
                &&& final(self).overridden(
                    *old(self),
                    milestone_index,
                    refunded(m),
                )
                &&& r->Ok_0.transfer == if remaining > 0 {
                    Some(
                        Transfer {
                            token: meta.token,
                            from: ledger.contract_address,
                            to: meta.client,
                            amount: remaining,
                        },
                    )
                } else {
                    None
                }
                &&& r->Ok_0.writes@ == seq![
                    DataKey::Milestone(milestone_index),
                    DataKey::MultisigLocked,
                ]
                &&& r->Ok_0.event == Some(
                    Event::MultisigAdminOverrideRefund(
                        MultisigAdminOverrideRefundEvent {
                            admin: *admin,
                            contract_id: ledger.contract_address,
                            milestone_index,
                            client: meta.client,
                            token: meta.token,
                            amount: remaining,
                        },
                    ),
                )
            },
            r is Ok && old(self).wf() ==> held(final(self).milestone(milestone_index)) == held(
                old(self).milestone(milestone_index),
            ) - transferred(r->Ok_0),
            old(self).wf() ==> final(self).wf(),
    {
        let (milestone, remaining) = self.override_checks(admin, milestone_index)?;
        let meta = match &self.job {
            Some(meta) => meta,
            None => return Err(Error::NotInitialized),
        };
        let transfer = if remaining > 0 {
            Some(
                Transfer {
                    token: meta.token.clone(),
                    from: ledger.contract_address.clone(),
                    to: meta.client.clone(),
                    amount: remaining,
                },
            )
        } else {
            None
        };
        let event = Event::MultisigAdminOverrideRefund(
            MultisigAdminOverrideRefundEvent {
                admin: admin.clone(),
                contract_id: ledger.contract_address.clone(),
                milestone_index,
                client: meta.client.clone(),
                token: meta.token.clone(),
                amount: remaining,
            },
        );
        let updated = Milestone { status: MilestoneStatus::Refunded, ..milestone };
        let ghost pre = *self;
        self.store_milestone(milestone_index, updated);
        proof {
            self.lemma_replaced_keeps_wf(pre, milestone_index, updated);
        }
        self.multisig_locked = false;
        let mut writes = Vec::new();
        writes.push(DataKey::Milestone(milestone_index));
        writes.push(DataKey::MultisigLocked);
        Ok(Effects { transfer, writes, event: Some(event) })
    }

    /// The checks the override release and refund share; on success, the
    /// milestone and its unpaid amount.
    fn override_checks(&self, admin: &Address, milestone_index: u32) -> (r: Result<(Milestone, i128), Error>)
        ensures
            match self.override_error(*admin, milestone_index) {
                Some(e) => r == Err::<(Milestone, i128), Error>(e),
                None => {
                    let m = self.milestone(milestone_index);
                    &&& self.job is Some
                    &&& self.slot(milestone_index) is Some
                    &&& r == Ok::<(Milestone, i128), Error>(
                        (m, (m.amount - m.released_amount) as i128),
                    )
                },
            },
    {
        self.require_admin(admin)?;
        let meta = match &self.job {
            Some(meta) => meta,
            None => return Err(Error::NotInitialized),
        };
        if !meta.funded {
            return Err(Error::NotFunded);
        }
        if milestone_index >= meta.milestone_count {
            return Err(Error::InvalidMilestone);
        }
        let milestone = self.load_milestone(milestone_index)?;
        if milestone.status == MilestoneStatus::Released || milestone.status
            == MilestoneStatus::Refunded {
            return Err(Error::InvalidStatus);
        }
        let remaining = match milestone.amount.checked_sub(milestone.released_amount) {
            Some(v) => v,
            None => return Err(Error::InvalidAmount),
        };
        Ok((milestone, remaining))
    }

    /// The error `get_job` gives, if any.
    pub open spec fn get_job_error(self) -> Option<Error> {
        if self.job is None {
            Some(Error::NotInitialized)
        } else if exists|i: u32| i < self.meta().milestone_count && #[trigger] self.slot(i) is None {
            Some(Error::InvalidMilestone)
        } else {
            None
        }
    }

    /// The whole job: its settings and its milestones in order.
    pub fn get_job(&self) -> (r: Result<Job, Error>)
        ensures
            self.get_job_error() matches Some(e) ==> r == Err::<Job, Error>(e),
            self.get_job_error() is None ==> {
                let meta = self.meta();
                &&& r is Ok
                &&& r->Ok_0.client == meta.client
                &&& r->Ok_0.freelancer == meta.freelancer
                &&& r->Ok_0.arbiter == meta.arbiter
                &&& r->Ok_0.token == meta.token
                &&& r->Ok_0.funded == meta.funded
                &&& r->Ok_0.auto_release_seconds == meta.auto_release_seconds
                &&& r->Ok_0.milestones@.len() == meta.milestone_count
                &&& forall|i: int|
                    0 <= i < meta.milestone_count ==> #[trigger] r->Ok_0.milestones@[i]
                        == self.milestone(i as u32)
            },
    {
        let meta = match &self.job {
            Some(meta) => meta,
            None => return Err(Error::NotInitialized),
        };
        self.assemble_job(meta)
    }

    /// Puts the job together from its settings and its stored milestones.
    pub fn assemble_job(&self, meta: &JobMeta) -> (r: Result<Job, Error>)
        ensures
            (exists|i: u32| i < meta.milestone_count && #[trigger] self.slot(i) is None) ==> r
                == Err::<Job, Error>(Error::InvalidMilestone),
            !(exists|i: u32| i < meta.milestone_count && #[trigger] self.slot(i) is None) ==> {
                &&& r is Ok
                &&& r->Ok_0.client == meta.client
                &&& r->Ok_0.freelancer == meta.freelancer
                &&& r->Ok_0.arbiter == meta.arbiter
                &&& r->Ok_0.token == meta.token
                &&& r->Ok_0.funded == meta.funded
                &&& r->Ok_0.auto_release_seconds == meta.auto_release_seconds
                &&& r->Ok_0.milestones@.len() == meta.milestone_count
                &&& forall|i: int|
                    0 <= i < meta.milestone_count ==> #[trigger] r->Ok_0.milestones@[i]
                        == self.milestone(i as u32)
            },
    {
        let mut milestones: Vec<Milestone> = Vec::new();
        let mut i: u32 = 0;
        while i < meta.milestone_count
            invariant
                0 <= i <= meta.milestone_count,
                milestones@.len() == i,
                forall|j: u32| j < i ==> #[trigger] self.slot(j) is Some,
                forall|j: int| 0 <= j < i ==> #[trigger] milestones@[j] == self.milestone(j as u32),
            decreases meta.milestone_count - i,
        {
            let m = self.load_milestone(i)?;
            milestones.push(m);
            i = i + 1;
        }
        Ok(
            Job {
                client: meta.client.clone(),
                freelancer: meta.freelancer.clone(),
                arbiter: meta.arbiter.clone(),
                token: meta.token.clone(),
                milestones,
                funded: meta.funded,
                auto_release_seconds: meta.auto_release_seconds,
            },
        )
    }
}

pub proof fn lemma_positive_prefix_le(s: Seq<int>, i: int)
    requires
        all_positive(s),
        0 <= i <= s.len(),
    ensures
        sum(s.take(i)) <= sum(s),
    decreases s.len() - i,
{
    if i < s.len() {
        lemma_sum_take_step(s, i);
        lemma_positive_prefix_le(s, i + 1);
    } else {
        assert(s.take(i) =~= s);
    }
}

} // verus!
