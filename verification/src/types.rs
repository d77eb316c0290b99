use vstd::prelude::*;
use crate::address::Address;

verus! {

/// Basis points that make up a whole (100%).
pub const BPS_SCALE: u32 = 10_000;

/// The reasons an entry point refuses a request.
#[derive(Clone, Copy, Debug, PartialEq, Eq, Structural)]
pub enum Error {
    AlreadyInitialized,
    NotInitialized,
    AlreadyFunded,
    NotFunded,
    Unauthorized,
    InvalidMilestone,
    InvalidStatus,
    TokenNotWhitelisted,
    TokenAlreadyWhitelisted,
    InvalidAmount,
    DeadlineNotPassed,
    InvalidAddress,
    Paused,
    InvalidRatio,
}

/// Where a milestone stands in its life cycle.
#[derive(Clone, Copy, Debug, PartialEq, Eq, Structural)]
pub enum MilestoneStatus {
    Pending,
    Delivered,
    PartiallyReleased,
    Released,
    Disputed,
    Refunded,
}

/// One milestone of the job: its amount, how much of it was paid out,
/// its status and the time at which it was marked delivered.
#[derive(Clone, Copy, Debug, PartialEq, Eq, Structural)]
pub struct Milestone {
    pub amount: i128,
    pub released_amount: i128,
    pub status: MilestoneStatus,
    pub delivered_at: u64,
}

/// The job's parties and settings, as kept in storage beside the milestones.
#[derive(Clone, Debug)]
pub struct JobMeta {
    pub client: Address,
    pub freelancer: Address,
    pub arbiter: Address,
    pub token: Address,
    pub funded: bool,
    pub auto_release_seconds: u64,
    pub milestone_count: u32,
    pub total_amount: i128,
}

/// The whole job as callers see it: the parties, the milestones in order,
/// whether it was funded, and the auto-release delay.
#[derive(Clone, Debug)]
pub struct Job {
    pub client: Address,
    pub freelancer: Address,
    pub arbiter: Address,
    pub token: Address,
    pub milestones: Vec<Milestone>,
    pub funded: bool,
    pub auto_release_seconds: u64,
}

/// The storage entries of the escrow.
#[derive(Clone, Copy, Debug, PartialEq, Eq, Structural)]
pub enum DataKey {
    Job,
    Milestone(u32),
    Admin,
    WhitelistedTokens,
    EmergencyPaused,
    PlatformFeeAllocation,
    MultisigLocked,
    DisputeFlag(u32),
}

/// How the platform fee is shared, in basis points, and whether the sharing
/// is locked against changes.
#[derive(Clone, Copy, Debug, PartialEq, Eq, Structural)]
pub struct PlatformFeeAllocation {
    pub client_bps: u32,
    pub freelancer_bps: u32,
    pub treasury_bps: u32,
    pub locked: bool,
}

/// A total split in two parts that add up to it.
#[derive(Clone, Copy, Debug, PartialEq, Eq, Structural)]
pub struct RatioSplit {
    pub first: i128,
    pub second: i128,
}

/// A refund split between client and freelancer, with the basis points used.
#[derive(Clone, Copy, Debug, PartialEq, Eq, Structural)]
pub struct SplitRefundAllocation {
    pub client_refund: i128,
    pub freelancer_payout: i128,
    pub client_refund_bps: u32,
    pub freelancer_payout_bps: u32,
}

/// What the host tells the escrow about the current invocation: the escrow's
/// own address and the ledger time.
#[derive(Clone, Debug)]
pub struct Ledger {
    pub contract_address: Address,
    pub timestamp: u64,
}

/// A token transfer that the host must carry out.
#[derive(Clone, Debug, PartialEq, Eq)]
pub struct Transfer {
    pub token: Address,
    pub from: Address,
    pub to: Address,
    pub amount: i128,
}

#[derive(Clone, Debug, PartialEq, Eq)]
pub struct InitializedEvent {
    pub client: Address,
    pub freelancer: Address,
    pub arbiter: Address,
    pub token: Address,
    pub milestone_amounts: Vec<i128>,
}

/// Published under the topic `fund` once the job is funded.
#[derive(Clone, Debug, PartialEq, Eq)]
pub struct FundedEvent {
    pub contract_id: Address,
    pub client: Address,
    pub freelancer: Address,
    pub arbiter: Address,
    pub token: Address,
    pub total_amount: i128,
    pub milestone_count: u32,
    pub auto_release_seconds: u64,
    pub funded: bool,
}

/// Published under the topic `deliver` when a milestone is marked delivered.
#[derive(Clone, Debug, PartialEq, Eq)]
pub struct DeliveredEvent {
    pub contract_id: Address,
    pub milestone_index: u32,
    pub freelancer: Address,
    pub client: Address,
    pub delivered_at: u64,
    pub status: MilestoneStatus,
    pub amount: i128,
}

/// Published under the topic `approve` when the client releases funds.
#[derive(Clone, Debug, PartialEq, Eq)]
pub struct ApprovedEvent {
    pub contract_id: Address,
    pub milestone_index: u32,
    pub client: Address,
    pub freelancer: Address,
    pub token: Address,
    pub amount: i128,
    pub released_amount: i128,
    pub remaining: i128,
    pub status: MilestoneStatus,
}

#[derive(Clone, Copy, Debug, PartialEq, Eq, Structural)]
pub struct DisputeRaisedEvent {
    pub milestone_index: u32,
}

#[derive(Clone, Copy, Debug, PartialEq, Eq, Structural)]
pub struct DisputeResolvedEvent {
    pub milestone_index: u32,
    pub released_to_freelancer: bool,
}

/// Published under the topic `msadmrel` when the administrator releases a
/// milestone to the freelancer.
#[derive(Clone, Debug, PartialEq, Eq)]
pub struct MultisigAdminOverrideReleaseEvent {
    pub admin: Address,
    pub contract_id: Address,
    pub milestone_index: u32,
    pub freelancer: Address,
    pub token: Address,
    pub amount: i128,
}

/// Published under the topic `msadmref` when the administrator refunds a
/// milestone to the client.
#[derive(Clone, Debug, PartialEq, Eq)]
pub struct MultisigAdminOverrideRefundEvent {
    pub admin: Address,
    pub contract_id: Address,
    pub milestone_index: u32,
    pub client: Address,
    pub token: Address,
    pub amount: i128,
}

/// Published under the topic `splitref` when a refund split is computed.
#[derive(Clone, Copy, Debug, PartialEq, Eq, Structural)]
pub struct SplitRefundCalculatedEvent {
    pub client_refund: i128,
    pub freelancer_payout: i128,
    pub client_refund_bps: u32,
    pub freelancer_payout_bps: u32,
}

/// An event that an entry point publishes.
#[derive(Clone, Debug, PartialEq, Eq)]
pub enum Event {
    Funded(FundedEvent),
    Delivered(DeliveredEvent),
    Approved(ApprovedEvent),
    MultisigAdminOverrideRelease(MultisigAdminOverrideReleaseEvent),
    MultisigAdminOverrideRefund(MultisigAdminOverrideRefundEvent),
    SplitRefundCalculated(SplitRefundCalculatedEvent),
}

/// What an entry point that succeeded asks the host to do, in this order:
/// carry out the transfer, write the listed storage entries from the new
/// state, then publish the event.
#[derive(Clone, Debug)]
pub struct Effects {
    pub transfer: Option<Transfer>,
    pub writes: Vec<DataKey>,
    pub event: Option<Event>,
}

} // verus!
