use vstd::prelude::*;
use crate::address::Address;
use crate::types::{
    DataKey, Effects, Error, JobMeta, Milestone, MilestoneStatus, PlatformFeeAllocation, BPS_SCALE,
};

verus! {

/// The escrow's stored state.
///
/// Each field mirrors a storage entry: `admin`, `emergency_paused`,
/// `fee_allocation`, `whitelisted_tokens`, `job` and `multisig_locked` are
/// instance entries (a flag that was never written reads as `false`);
/// `milestones[i]` is the persistent entry of milestone `i` (`None` where
/// there is none; indices past the end have none either); `dispute_flags`
/// lists the milestones whose temporary dispute flag is set.
#[derive(Clone, Debug)]
pub struct MilestoneEscrow {
    pub admin: Option<Address>,
    pub emergency_paused: bool,
    pub fee_allocation: Option<PlatformFeeAllocation>,
    pub whitelisted_tokens: Option<Vec<Address>>,
    pub job: Option<JobMeta>,
    pub milestones: Vec<Option<Milestone>>,
    pub multisig_locked: bool,
    pub dispute_flags: Vec<u32>,
}

/// The status of a milestone that the client may still pay out.
pub open spec fn releasable(s: MilestoneStatus) -> bool {
    s == MilestoneStatus::Delivered || s == MilestoneStatus::PartiallyReleased
}

/// Whether `x` fits in an `i128`.
pub open spec fn fits_i128(x: int) -> bool {
    i128::MIN <= x <= i128::MAX
}

/// A milestone whose payout is consistent: a positive amount, paid out
/// between nothing and all of it, nothing before it is approved, all of it
/// once released, strictly between for a partial release, and not all of it
/// while disputed or once refunded.
pub open spec fn milestone_wf(m: Milestone) -> bool {
    &&& m.amount > 0
    &&& 0 <= m.released_amount <= m.amount
    &&& (m.status == MilestoneStatus::Pending || m.status == MilestoneStatus::Delivered)
        ==> m.released_amount == 0
    &&& m.status == MilestoneStatus::Released ==> m.released_amount == m.amount
    &&& m.status == MilestoneStatus::PartiallyReleased ==> 0 < m.released_amount < m.amount
    &&& (m.status == MilestoneStatus::Disputed || m.status == MilestoneStatus::Refunded)
        ==> m.released_amount < m.amount
}

/// A stored milestone slot, if filled, holds a consistent milestone.
pub open spec fn slot_wf(slot: Option<Milestone>) -> bool {
    match slot {
        Some(m) => milestone_wf(m),
        None => true,
    }
}

/// A stored whitelist holds no token twice.
pub open spec fn whitelist_wf(tokens: Option<Vec<Address>>) -> bool {
    match tokens {
        Some(v) => no_duplicates(v@),
        None => true,
    }
}

/// A stored fee allocation has shares that add up to `BPS_SCALE`.
pub open spec fn fee_wf(fee: Option<PlatformFeeAllocation>) -> bool {
    match fee {
        Some(f) => f.client_bps + f.freelancer_bps + f.treasury_bps == BPS_SCALE,
        None => true,
    }
}

/// What the escrow still holds for a milestone: its unpaid rest, or nothing
/// once it was refunded.
pub open spec fn held(m: Milestone) -> int {
    if m.status == MilestoneStatus::Refunded {
        0
    } else {
        m.amount - m.released_amount
    }
}

/// What the escrow holds for a storage slot (nothing for an empty one).
pub open spec fn held_slot(slot: Option<Milestone>) -> int {
    match slot {
        Some(m) => held(m),
        None => 0,
    }
}

/// The amount a successful entry point asks the host to transfer.
pub open spec fn transferred(e: Effects) -> int {
    match e.transfer {
        Some(t) => t.amount as int,
        None => 0,
    }
}

/// Whether `a` occurs in `s`.
pub open spec fn contains(s: Seq<Address>, a: Address) -> bool {
    exists|i: int| 0 <= i < s.len() && #[trigger] s[i]@ == a@
}

/// `i` is the first position of `a` in `s`.
pub open spec fn is_first(s: Seq<Address>, a: Address, i: int) -> bool {
    &&& 0 <= i < s.len()
    &&& s[i]@ == a@
    &&& forall|j: int| 0 <= j < i ==> #[trigger] s[j]@ != a@
}

/// No address occurs twice in `s`.
pub open spec fn no_duplicates(s: Seq<Address>) -> bool {
    forall|i: int, j: int| 0 <= i < j < s.len() ==> #[trigger] s[i]@ != #[trigger] s[j]@
}

/// The first position of `a` in `v`, if any.
pub fn position(v: &Vec<Address>, a: &Address) -> (r: Option<usize>)
    ensures
        match r {
            Some(i) => is_first(v@, *a, i as int),
            None => !contains(v@, *a),
        },
{
    let mut i: usize = 0;
    while i < v.len()
        invariant
            0 <= i <= v@.len(),
            forall|j: int| 0 <= j < i ==> #[trigger] v@[j]@ != a@,
        decreases v.len() - i,
    {
        if v[i].same(a) {
            return Some(i);
        }
        i = i + 1;
    }
    None
}

/// A copy of a list of addresses.
pub fn copy_addresses(v: &Vec<Address>) -> (r: Vec<Address>)
    ensures
        r@ == v@,
{
    let mut r: Vec<Address> = Vec::new();
    let mut i: usize = 0;
    while i < v.len()
        invariant
            0 <= i <= v@.len(),
            r@ == v@.take(i as int),
        decreases v.len() - i,
    {
        r.push(v[i].clone());
        assert(v@.take(i + 1) =~= v@.take(i as int).push(v@[i as int]));
        i = i + 1;
    }
    assert(v@.take(v@.len() as int) =~= v@);
    r
}

impl MilestoneEscrow {
    /// The stored milestone at `index`, if any.
    pub open spec fn slot(self, index: u32) -> Option<Milestone> {
        if index < self.milestones@.len() {
            self.milestones@[index as int]
        } else {
            None
        }
    }

    /// The stored job settings; meaningful where `self.job` is `Some`.
    pub open spec fn meta(self) -> JobMeta {
        self.job->Some_0
    }

    /// The milestone stored at `index`; meaningful where `slot(index)` is `Some`.
    pub open spec fn milestone(self, index: u32) -> Milestone {
        self.slot(index)->Some_0
    }

    /// An empty escrow: nothing stored yet.
    pub fn new() -> (r: MilestoneEscrow)
        ensures
            r.admin is None,
            !r.emergency_paused,
            r.fee_allocation is None,
            r.whitelisted_tokens is None,
            r.job is None,
            r.milestones@.len() == 0,
            !r.multisig_locked,
            r.dispute_flags@.len() == 0,
            r.wf(),
    {
        MilestoneEscrow {
            admin: None,
            emergency_paused: false,
            fee_allocation: None,
            whitelisted_tokens: None,
            job: None,
            milestones: Vec::new(),
            multisig_locked: false,
            dispute_flags: Vec::new(),
        }
    }

    /// Reads the milestone stored at `index`.
    pub fn load_milestone(&self, index: u32) -> (r: Result<Milestone, Error>)
        ensures
            match self.slot(index) {
                Some(m) => r == Ok::<Milestone, Error>(m),
                None => r == Err::<Milestone, Error>(Error::InvalidMilestone),
            },
    {
        if (index as usize) < self.milestones.len() {
            match self.milestones[index as usize] {
                Some(m) => Ok(m),
                None => Err(Error::InvalidMilestone),
            }
        } else {
            Err(Error::InvalidMilestone)
        }
    }

    /// Writes the milestone entry at `index`, making room for it if needed.
    pub fn store_milestone(&mut self, index: u32, milestone: Milestone)
        ensures
            final(self).slot(index) == Some(milestone),
            forall|j: u32| j != index ==> #[trigger] final(self).slot(j) == old(self).slot(j),
            index < old(self).milestones@.len() ==> final(self).milestones@ == old(self).milestones@.update(index as int, Some(milestone)),
            final(self).admin == old(self).admin,
            final(self).emergency_paused == old(self).emergency_paused,
            final(self).fee_allocation == old(self).fee_allocation,
            final(self).whitelisted_tokens == old(self).whitelisted_tokens,
            final(self).job == old(self).job,
            final(self).multisig_locked == old(self).multisig_locked,
            final(self).dispute_flags == old(self).dispute_flags,
    {
        while self.milestones.len() <= index as usize
            invariant
                forall|j: u32| #[trigger] self.slot(j) == old(self).slot(j),
                index < old(self).milestones@.len() ==> self.milestones@ == old(self).milestones@,
                self.admin == old(self).admin,
                self.emergency_paused == old(self).emergency_paused,
                self.fee_allocation == old(self).fee_allocation,
                self.whitelisted_tokens == old(self).whitelisted_tokens,
                self.job == old(self).job,
                self.multisig_locked == old(self).multisig_locked,
                self.dispute_flags == old(self).dispute_flags,
            decreases index as usize + 1 - self.milestones.len(),
        {
            let ghost prev = *self;
            self.milestones.push(None);
            assert forall|j: u32| #[trigger] self.slot(j) == prev.slot(j) by {
                if (j as int) < prev.milestones@.len() {
                    assert(self.milestones@[j as int] == prev.milestones@[j as int]);
                }
            }
        }
        let ghost prev = *self;
        self.milestones.set(index as usize, Some(milestone));
        assert forall|j: u32| j != index implies #[trigger] self.slot(j) == prev.slot(j) by {
            if (j as int) < prev.milestones@.len() {
                assert(self.milestones@[j as int] == prev.milestones@[j as int]);
            }
        }
    }

    /// Fails with `Paused` while the emergency pause is on.
    pub fn ensure_not_paused(&self) -> (r: Result<(), Error>)
        ensures
            r == (if self.emergency_paused {
                Err(Error::Paused)
            } else {
                Ok::<(), Error>(())
            }),
    {
        if self.emergency_paused {
            Err(Error::Paused)
        } else {
            Ok(())
        }
    }

    /// Every field but the milestones and the dispute flags is as in `other`.
    pub open spec fn same_settings(self, other: MilestoneEscrow) -> bool {
        &&& self.admin == other.admin
        &&& self.emergency_paused == other.emergency_paused
        &&& self.fee_allocation == other.fee_allocation
        &&& self.whitelisted_tokens == other.whitelisted_tokens
        &&& self.multisig_locked == other.multisig_locked
        &&& self.job == other.job
    }

    /// `self` is `other` with the milestone at `index` replaced by `m`.
    pub open spec fn replaced_milestone(self, other: MilestoneEscrow, index: u32, m: Milestone) -> bool {
        &&& self.same_settings(other)
        &&& self.dispute_flags == other.dispute_flags
        &&& self.milestones@ == other.milestones@.update(index as int, Some(m))
    }

    /// `self` is `other` with nothing but the listed instance fields changed.
    pub open spec fn same_milestones(self, other: MilestoneEscrow) -> bool {
        &&& self.milestones == other.milestones
        &&& self.dispute_flags == other.dispute_flags
        &&& self.job == other.job
    }

    /// The error an administrator-only entry point gives before doing
    /// anything, if any.
    pub open spec fn admin_error(self, admin: Address) -> Option<Error> {
        match self.admin {
            None => Some(Error::NotInitialized),
            Some(a) => if a@ != admin@ {
                Some(Error::Unauthorized)
            } else {
                None
            },
        }
    }

    /// Checks that `admin` is the stored administrator. (The host has already
    /// checked that `admin` authorized the call.)
    pub fn require_admin(&self, admin: &Address) -> (r: Result<(), Error>)
        ensures
            r == (match self.admin_error(*admin) {
                Some(e) => Err(e),
                None => Ok::<(), Error>(()),
            }),
    {
        match &self.admin {
            None => Err(Error::NotInitialized),
            Some(stored) => if !stored.same(admin) {
                Err(Error::Unauthorized)
            } else {
                Ok(())
            },
        }
    }

    /// Hands the administrator role to `new_admin`.
    pub fn transfer_admin(&mut self, current_admin: &Address, new_admin: &Address) -> (r: Result<
        Effects,
        Error,
    >)
        ensures
            old(self).admin_error(*current_admin) matches Some(e) ==> r == Err::<Effects, Error>(e)
                && *final(self) == *old(self),
            old(self).admin_error(*current_admin) is None ==> {
                &&& r is Ok
                &&& final(self).admin == Some(*new_admin)
                &&& final(self).emergency_paused == old(self).emergency_paused
                &&& final(self).fee_allocation == old(self).fee_allocation
                &&& final(self).whitelisted_tokens == old(self).whitelisted_tokens
                &&& final(self).multisig_locked == old(self).multisig_locked
                &&& final(self).same_milestones(*old(self))
                &&& r->Ok_0.transfer is None
                &&& r->Ok_0.writes@ == seq![DataKey::Admin]
                &&& r->Ok_0.event is None
            },
            old(self).wf() ==> final(self).wf(),
    {
        self.require_admin(current_admin)?;
        self.admin = Some(new_admin.clone());
        Ok(Self::writes_only(DataKey::Admin))
    }

    /// Effects that write a single storage entry and do nothing else.
    pub fn writes_only(key: DataKey) -> (r: Effects)
        ensures
            r.transfer is None,
            r.writes@ == seq![key],
            r.event is None,
    {
        let mut writes = Vec::new();
        writes.push(key);
        Effects { transfer: None, writes, event: None }
    }

    /// Turns the emergency pause on.
    pub fn emergency_pause(&mut self, admin: &Address) -> (r: Result<Effects, Error>)
        ensures
            old(self).admin_error(*admin) matches Some(e) ==> r == Err::<Effects, Error>(e)
                && *final(self) == *old(self),
            old(self).admin_error(*admin) is None ==> r is Ok && final(self).paused_set(
                *old(self),
                true,
            ) && r->Ok_0.transfer is None && r->Ok_0.writes@ == seq![DataKey::EmergencyPaused]
                && r->Ok_0.event is None,
            old(self).wf() ==> final(self).wf(),
    {
        self.emergency_pause_admin_override(admin, true)
    }

    /// Turns the emergency pause off.
    pub fn emergency_unpause(&mut self, admin: &Address) -> (r: Result<Effects, Error>)
        ensures
            old(self).admin_error(*admin) matches Some(e) ==> r == Err::<Effects, Error>(e)
                && *final(self) == *old(self),
            old(self).admin_error(*admin) is None ==> r is Ok && final(self).paused_set(
                *old(self),
                false,
            ) && r->Ok_0.transfer is None && r->Ok_0.writes@ == seq![DataKey::EmergencyPaused]
                && r->Ok_0.event is None,
            old(self).wf() ==> final(self).wf(),
    {
        self.emergency_pause_admin_override(admin, false)
    }

    /// `self` is `other` with the emergency pause set to `paused`.
    pub open spec fn paused_set(self, other: MilestoneEscrow, paused: bool) -> bool {
        &&& self.emergency_paused == paused
        &&& self.admin == other.admin
        &&& self.fee_allocation == other.fee_allocation
        &&& self.whitelisted_tokens == other.whitelisted_tokens
        &&& self.multisig_locked == other.multisig_locked
        &&& self.same_milestones(other)
    }

    /// Sets the emergency pause to `paused`.
    pub fn emergency_pause_admin_override(&mut self, admin: &Address, paused: bool) -> (r: Result<
        Effects,
        Error,
    >)
        ensures
            old(self).admin_error(*admin) matches Some(e) ==> r == Err::<Effects, Error>(e)
                && *final(self) == *old(self),
            old(self).admin_error(*admin) is None ==> r is Ok && final(self).paused_set(
                *old(self),
                paused,
            ) && r->Ok_0.transfer is None && r->Ok_0.writes@ == seq![DataKey::EmergencyPaused]
                && r->Ok_0.event is None,
            old(self).wf() ==> final(self).wf(),
    {
        self.require_admin(admin)?;
        self.emergency_paused = paused;
        Ok(Self::writes_only(DataKey::EmergencyPaused))
    }

    /// Whether the emergency pause is on.
    pub fn is_emergency_paused(&self) -> (r: bool)
        ensures
            r == self.emergency_paused,
    {
        self.emergency_paused
    }

    /// Locks the escrow for multisig approval.
    pub fn multisig_lock(&mut self, admin: &Address) -> (r: Result<Effects, Error>)
        ensures
            old(self).admin_error(*admin) matches Some(e) ==> r == Err::<Effects, Error>(e)
                && *final(self) == *old(self),
            old(self).admin_error(*admin) is None ==> {
                &&& r is Ok
                &&& final(self).multisig_locked
                &&& final(self).admin == old(self).admin
                &&& final(self).emergency_paused == old(self).emergency_paused
                &&& final(self).fee_allocation == old(self).fee_allocation
                &&& final(self).whitelisted_tokens == old(self).whitelisted_tokens
                &&& final(self).same_milestones(*old(self))
                &&& r->Ok_0.transfer is None
                &&& r->Ok_0.writes@ == seq![DataKey::MultisigLocked]
                &&& r->Ok_0.event is None
            },
            old(self).wf() ==> final(self).wf(),
    {
        self.require_admin(admin)?;
        self.multisig_locked = true;
        Ok(Self::writes_only(DataKey::MultisigLocked))
    }

    /// Whether the escrow is locked for multisig approval.
    pub fn is_multisig_locked(&self) -> (r: bool)
        ensures
            r == self.multisig_locked,
    {
        self.multisig_locked
    }

    /// `self` is `other` with the fee allocation set to `fee`.
    pub open spec fn fee_set(self, other: MilestoneEscrow, fee: PlatformFeeAllocation) -> bool {
        &&& self.fee_allocation == Some(fee)
        &&& self.admin == other.admin
        &&& self.emergency_paused == other.emergency_paused
        &&& self.whitelisted_tokens == other.whitelisted_tokens
        &&& self.multisig_locked == other.multisig_locked
        &&& self.same_milestones(other)
    }

    /// The error `set_platform_fee_allocation` gives, if any.
    pub open spec fn set_fee_error(self, admin: Address, client_bps: u32, freelancer_bps: u32, treasury_bps: u32) -> Option<Error> {
        if self.admin_error(admin) is Some {
            self.admin_error(admin)
        } else if client_bps + freelancer_bps + treasury_bps != BPS_SCALE {
            Some(Error::InvalidRatio)
        } else if self.fee_allocation is None {
            Some(Error::NotInitialized)
        } else if self.fee_allocation->Some_0.locked {
            Some(Error::InvalidStatus)
        } else {
            None
        }
    }

    /// Sets the platform fee shares, unless the allocation is locked.
    pub fn set_platform_fee_allocation(
        &mut self,
        admin: &Address,
        client_bps: u32,
        freelancer_bps: u32,
        treasury_bps: u32,
    ) -> (r: Result<Effects, Error>)
        ensures
            old(self).set_fee_error(*admin, client_bps, freelancer_bps, treasury_bps) matches Some(e)
                ==> r == Err::<Effects, Error>(e) && *final(self) == *old(self),
            old(self).set_fee_error(*admin, client_bps, freelancer_bps, treasury_bps) is None ==> r is Ok
                && final(self).fee_set(
                *old(self),
                PlatformFeeAllocation { client_bps, freelancer_bps, treasury_bps, locked: false },
            ) && r->Ok_0.transfer is None && r->Ok_0.writes@ == seq![
                DataKey::PlatformFeeAllocation,
            ] && r->Ok_0.event is None,
            old(self).wf() ==> final(self).wf(),
    {
        self.require_admin(admin)?;
        Self::validate_fee_allocation(client_bps, freelancer_bps, treasury_bps)?;
        match &self.fee_allocation {
            None => return Err(Error::NotInitialized),
            Some(current) => {
                if current.locked {
                    return Err(Error::InvalidStatus);
                }
            },
        }
        self.fee_allocation = Some(
            PlatformFeeAllocation { client_bps, freelancer_bps, treasury_bps, locked: false },
        );
        Ok(Self::writes_only(DataKey::PlatformFeeAllocation))
    }

    /// Locks the platform fee allocation against further changes.
    pub fn lock_platform_fee_allocation(&mut self, admin: &Address) -> (r: Result<Effects, Error>)
        ensures
            old(self).admin_error(*admin) matches Some(e) ==> r == Err::<Effects, Error>(e)
                && *final(self) == *old(self),
            old(self).admin_error(*admin) is None && old(self).fee_allocation is None ==> r
                == Err::<Effects, Error>(Error::NotInitialized) && *final(self) == *old(self),
            old(self).admin_error(*admin) is None && old(self).fee_allocation is Some ==> r is Ok
                && final(self).fee_set(
                *old(self),
                PlatformFeeAllocation { locked: true, ..old(self).fee_allocation->Some_0 },
            ) && r->Ok_0.transfer is None && r->Ok_0.writes@ == seq![
                DataKey::PlatformFeeAllocation,
            ] && r->Ok_0.event is None,
            old(self).wf() ==> final(self).wf(),
    {
        self.require_admin(admin)?;
        let current = match &self.fee_allocation {
            None => return Err(Error::NotInitialized),
            Some(current) => *current,
        };
        self.fee_allocation = Some(PlatformFeeAllocation { locked: true, ..current });
        Ok(Self::writes_only(DataKey::PlatformFeeAllocation))
    }

    /// Sets the platform fee shares whether or not the allocation is locked,
    /// and unlocks it.
    pub fn platform_fee_allocation_admin_override(
        &mut self,
        admin: &Address,
        client_bps: u32,
        freelancer_bps: u32,
        treasury_bps: u32,
    ) -> (r: Result<Effects, Error>)
        ensures
            old(self).admin_error(*admin) matches Some(e) ==> r == Err::<Effects, Error>(e)
                && *final(self) == *old(self),
            old(self).admin_error(*admin) is None && client_bps + freelancer_bps + treasury_bps
                != BPS_SCALE ==> r == Err::<Effects, Error>(Error::InvalidRatio) && *final(self)
                == *old(self),
            old(self).admin_error(*admin) is None && client_bps + freelancer_bps + treasury_bps
                == BPS_SCALE ==> r is Ok && final(self).fee_set(
                *old(self),
                PlatformFeeAllocation { client_bps, freelancer_bps, treasury_bps, locked: false },
            ) && r->Ok_0.transfer is None && r->Ok_0.writes@ == seq![
                DataKey::PlatformFeeAllocation,
            ] && r->Ok_0.event is None,
            old(self).wf() ==> final(self).wf(),
    {
        self.require_admin(admin)?;
        Self::validate_fee_allocation(client_bps, freelancer_bps, treasury_bps)?;
        self.fee_allocation = Some(
            PlatformFeeAllocation { client_bps, freelancer_bps, treasury_bps, locked: false },
        );
        Ok(Self::writes_only(DataKey::PlatformFeeAllocation))
    }

    /// The platform fee allocation, or `NotInitialized` before there is one.
    pub fn get_platform_fee_allocation(&self) -> (r: Result<PlatformFeeAllocation, Error>)
        ensures
            r == (match self.fee_allocation {
                Some(f) => Ok(f),
                None => Err::<PlatformFeeAllocation, Error>(Error::NotInitialized),
            }),
    {
        match &self.fee_allocation {
            Some(f) => Ok(*f),
            None => Err(Error::NotInitialized),
        }
    }

    /// Whether `token` is on the whitelist (`false` before there is one).
    pub fn is_token_whitelisted(&self, token: &Address) -> (r: bool)
        ensures
            r == (self.whitelisted_tokens matches Some(v) && contains(v@, *token)),
    {
        match &self.whitelisted_tokens {
            None => false,
            Some(v) => position(v, token).is_some(),
        }
    }

    /// A copy of the whitelist, or `NotInitialized` before there is one.
    pub fn get_whitelisted_tokens(&self) -> (r: Result<Vec<Address>, Error>)
        ensures
            match self.whitelisted_tokens {
                Some(v) => r is Ok && r->Ok_0@ == v@,
                None => r == Err::<Vec<Address>, Error>(Error::NotInitialized),
            },
    {
        match &self.whitelisted_tokens {
            None => Err(Error::NotInitialized),
            Some(v) => Ok(copy_addresses(v)),
        }
    }

    /// `self` is `other` with the whitelist set to `tokens`.
    pub open spec fn whitelist_set(self, other: MilestoneEscrow, tokens: Seq<Address>) -> bool {
        &&& self.whitelisted_tokens matches Some(v) && v@ == tokens
        &&& self.admin == other.admin
        &&& self.emergency_paused == other.emergency_paused
        &&& self.fee_allocation == other.fee_allocation
        &&& self.multisig_locked == other.multisig_locked
        &&& self.same_milestones(other)
    }

    /// The error `add_whitelisted_token` gives, if any.
    pub open spec fn add_token_error(self, admin: Address, token: Address) -> Option<Error> {
        if self.admin_error(admin) is Some {
            self.admin_error(admin)
        } else if self.whitelisted_tokens is None {
            Some(Error::NotInitialized)
        } else if contains(self.whitelisted_tokens->Some_0@, token) {
            Some(Error::TokenAlreadyWhitelisted)
        } else {
            None
        }
    }

    /// Appends `token` to the whitelist; a token already on it is refused.
    pub fn add_whitelisted_token(&mut self, admin: &Address, token: &Address) -> (r: Result<
        Effects,
        Error,
    >)
        ensures
            old(self).add_token_error(*admin, *token) matches Some(e) ==> r == Err::<
                Effects,
                Error,
            >(e) && *final(self) == *old(self),
            old(self).add_token_error(*admin, *token) is None ==> r is Ok && final(self).whitelist_set(*old(self), old(self).whitelisted_tokens->Some_0@.push(*token))
                && r->Ok_0.transfer is None && r->Ok_0.writes@ == seq![DataKey::WhitelistedTokens]
                && r->Ok_0.event is None,
            old(self).wf() ==> final(self).wf(),
            r is Ok ==> (final(self).whitelisted_tokens matches Some(v) && contains(v@, *token)),
    {
        self.require_admin(admin)?;
        let mut whitelist = match &self.whitelisted_tokens {
            None => return Err(Error::NotInitialized),
            Some(v) => copy_addresses(v),
        };
        if position(&whitelist, token).is_some() {
            return Err(Error::TokenAlreadyWhitelisted);
        }
        let ghost prev = whitelist@;
        whitelist.push(token.clone());
        proof {
            assert(whitelist@[prev.len() as int]@ == token@);
            if no_duplicates(prev) {
                assert forall|i: int, j: int|
                    0 <= i < j < whitelist@.len() implies #[trigger] whitelist@[i]@
                    != #[trigger] whitelist@[j]@ by {
                    assert(whitelist@[i] == prev[i]);
                    if j == prev.len() {
                        assert(!contains(prev, *token));
                        assert(prev[i]@ != token@);
                    } else {
                        assert(whitelist@[j] == prev[j]);
                    }
                }
            }
        }
        self.whitelisted_tokens = Some(whitelist);
        Ok(Self::writes_only(DataKey::WhitelistedTokens))
    }

    /// The error `remove_whitelisted_token` gives, if any.
    pub open spec fn remove_token_error(self, admin: Address, token: Address) -> Option<Error> {
        if self.admin_error(admin) is Some {
            self.admin_error(admin)
        } else if self.whitelisted_tokens is None {
            Some(Error::NotInitialized)
        } else if !contains(self.whitelisted_tokens->Some_0@, token) {
            Some(Error::TokenNotWhitelisted)
        } else {
            None
        }
    }

    /// Removes the first occurrence of `token` from the whitelist; a token
    /// not on it is refused.
    pub fn remove_whitelisted_token(&mut self, admin: &Address, token: &Address) -> (r: Result<
        Effects,
        Error,
    >)
        ensures
            old(self).remove_token_error(*admin, *token) matches Some(e) ==> r == Err::<
                Effects,
                Error,
            >(e) && *final(self) == *old(self),
            old(self).remove_token_error(*admin, *token) is None ==> {
                let old_list = old(self).whitelisted_tokens->Some_0@;
                &&& r is Ok
                &&& exists|i: int|
                    0 <= i < old_list.len() && is_first(old_list, *token, i) && final(self).whitelist_set(*old(self), old_list.remove(i))
                &&& r->Ok_0.transfer is None
                &&& r->Ok_0.writes@ == seq![DataKey::WhitelistedTokens]
                &&& r->Ok_0.event is None
            },
            old(self).wf() ==> final(self).wf(),
            old(self).wf() && r is Ok ==> (final(self).whitelisted_tokens matches Some(v) && !contains(v@, *token)),
    {
        self.require_admin(admin)?;
        let mut whitelist = match &self.whitelisted_tokens {
            None => return Err(Error::NotInitialized),
            Some(v) => copy_addresses(v),
        };
        match position(&whitelist, token) {
            None => Err(Error::TokenNotWhitelisted),
            Some(index) => {
                let ghost prev = whitelist@;
                whitelist.remove(index);
                proof {
                    assert(is_first(prev, *token, index as int));
                    if no_duplicates(prev) {
                        assert forall|i: int, j: int|
                            0 <= i < j < whitelist@.len() implies #[trigger] whitelist@[i]@
                            != #[trigger] whitelist@[j]@ by {
                            let pi = if i < index { i } else { i + 1 };
                            let pj = if j < index { j } else { j + 1 };
                            assert(whitelist@[i] == prev[pi]);
                            assert(whitelist@[j] == prev[pj]);
                        }
                        assert forall|i: int| 0 <= i < whitelist@.len() implies whitelist@[i]@ != token@ by {
                            let pi = if i < index { i } else { i + 1 };
                            assert(whitelist@[i] == prev[pi]);
                            assert(prev[index as int]@ == token@);
                        }
                    }
                }
                self.whitelisted_tokens = Some(whitelist);
                Ok(Self::writes_only(DataKey::WhitelistedTokens))
            },
        }
    }

    /// Everything the escrow holds for its stored milestones.
    pub open spec fn holdings(self) -> int {
        crate::allocation::sum(
            Seq::new(self.milestones@.len(), |i: int| held_slot(self.milestones@[i])),
        )
    }

    /// The escrow's invariant, which every entry point keeps: each stored
    /// milestone has paid out between nothing and all of its amount, in line
    /// with its status; the whitelist holds no token twice; the fee shares
    /// add up to `BPS_SCALE`.
    pub open spec fn wf(self) -> bool {
        &&& forall|i: int| 0 <= i < self.milestones@.len() ==> slot_wf(#[trigger] self.milestones@[i])
        &&& whitelist_wf(self.whitelisted_tokens)
        &&& fee_wf(self.fee_allocation)
    }

}

} // verus!
