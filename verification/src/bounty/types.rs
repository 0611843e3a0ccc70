//! Plain data of the bounty registry: actors, parameters, milestones, errors
//! and events.

use vstd::prelude::*;

verus! {

/// Identifier of an account in the escrow ledger.
pub type AccountId = u64;

/// Identifier of a member.
pub type MemberId = u64;

/// Identifier of a bounty. Ids start at 1 and are never reused.
pub type BountyId = u64;

/// Identifier of a work entry, unique across all bounties.
pub type WorkEntryId = u64;

/// An amount of the single fungible balance.
pub type Balance = u64;

/// A tick of the environment's monotonic counter, or a number of ticks.
pub type BlockNumber = u64;

/// The credential a call arrives with.
#[derive(Clone, Copy, Debug, PartialEq, Eq, Structural)]
pub enum Caller {
    /// The privileged authority.
    Root,
    /// A call signed by an account.
    Signed(AccountId),
}

/// The entity that creates or funds a bounty.
#[derive(Clone, Copy, Debug, PartialEq, Eq, Structural)]
pub enum BountyActor {
    /// The collective treasury.
    Council,
    /// An individual member.
    Member(MemberId),
}

impl Default for BountyActor {
    fn default() -> (actor: Self)
        ensures
            actor == BountyActor::Council,
    {
        BountyActor::Council
    }
}

/// What a creator asks for when posting a bounty.
#[derive(Clone, Copy, Debug, PartialEq, Eq, Structural)]
pub struct BountyCreationParameters {
    /// Who posts the bounty.
    pub creator: BountyActor,
    /// The creator's own refundable deposit.
    pub cherry: Balance,
    /// Funding that must be raised for the work to start once the funding
    /// period is over.
    pub min_amount: Balance,
    /// Funding cap.
    pub max_amount: Balance,
    /// Length of the funding stage; without one the bounty starts past it.
    pub funding_period: Option<BlockNumber>,
    /// Length of the work stage.
    pub work_period: BlockNumber,
    /// Length of the judging stage.
    pub judging_period: BlockNumber,
}

impl BountyCreationParameters {
    /// The configuration is acceptable: the funding bounds are ordered and
    /// both the work and the judging period are non-empty.
    pub open spec fn valid(self) -> bool {
        &&& self.min_amount <= self.max_amount
        &&& self.work_period > 0
        &&& self.judging_period > 0
    }

    /// Decides [`Self::valid`].
    pub fn is_valid(&self) -> (ok: bool)
        ensures
            ok == self.valid(),
    {
        self.min_amount <= self.max_amount && self.work_period > 0 && self.judging_period > 0
    }
}

impl Default for BountyCreationParameters {
    fn default() -> (params: Self)
        ensures
            params == (BountyCreationParameters {
                creator: BountyActor::Council,
                cherry: 0,
                min_amount: 0,
                max_amount: 0,
                funding_period: None,
                work_period: 0,
                judging_period: 0,
            }),
    {
        BountyCreationParameters {
            creator: BountyActor::Council,
            cherry: 0,
            min_amount: 0,
            max_amount: 0,
            funding_period: None,
            work_period: 0,
            judging_period: 0,
        }
    }
}

/// Lifecycle state of a bounty.
#[derive(Clone, Copy, Debug, PartialEq, Eq, Structural)]
pub enum BountyMilestone {
    /// Posted, no stage entered yet.
    Created,
    /// Contributions are collected.
    Funding { started_at: BlockNumber },
    /// Workers announce entries and submit work.
    WorkSubmission { started_at: BlockNumber },
    /// Submissions are judged.
    Judgment { started_at: BlockNumber },
    /// Resolved in favour of the work.
    Successful,
    /// Canceled, vetoed or left unjudged; the refund path is open.
    Canceled,
}

/// The coarse classes of failure.
#[derive(Clone, Copy, Debug, PartialEq, Eq, Structural)]
pub enum ErrorKind {
    Unauthorized,
    InvalidParameters,
    InvalidMilestone,
    InsufficientBalance,
    FundingExceedsCap,
    NotFound,
}

/// Why a call was rejected. A rejected call changes nothing.
#[derive(Clone, Copy, Debug, PartialEq, Eq, Structural)]
pub enum Error {
    /// The caller does not hold the authority of the claimed actor, or does
    /// not own the work entry.
    Unauthorized,
    /// Funding bounds out of order, or an empty work or judging period.
    InvalidPeriodConfiguration,
    /// The creator cannot afford the cherry.
    InsufficientBalanceForCherry,
    /// The funder cannot afford the contribution.
    InsufficientBalance,
    /// No bounty is registered under the id.
    BountyNotFound,
    /// The bounty has no work entry under the id.
    WorkEntryNotFound,
    /// The actor has no outstanding contribution to the bounty.
    NoContributionFound,
    /// The cherry has left escrow already.
    NoCherryInEscrow,
    /// The bounty does not accept contributions.
    BountyNotInFundingMilestone,
    /// The call is not permitted in the bounty's current milestone.
    InvalidMilestone,
    /// The contribution would push the raised amount above the cap.
    FundingExceedsCap,
    /// A contribution of nothing.
    ZeroAmount,
}

impl Error {
    /// The class of this failure.
    pub open spec fn spec_kind(&self) -> ErrorKind {
        match *self {
            Error::Unauthorized => ErrorKind::Unauthorized,
            Error::InvalidPeriodConfiguration | Error::ZeroAmount => ErrorKind::InvalidParameters,
            Error::InsufficientBalanceForCherry | Error::InsufficientBalance =>
                ErrorKind::InsufficientBalance,
            Error::BountyNotFound
            | Error::WorkEntryNotFound
            | Error::NoContributionFound
            | Error::NoCherryInEscrow => ErrorKind::NotFound,
            Error::BountyNotInFundingMilestone | Error::InvalidMilestone =>
                ErrorKind::InvalidMilestone,
            Error::FundingExceedsCap => ErrorKind::FundingExceedsCap,
        }
    }

    /// The class of this failure.
    #[verifier::when_used_as_spec(spec_kind)]
    pub fn kind(&self) -> (kind: ErrorKind)
        ensures
            kind == self.spec_kind(),
    {
        match self {
            Error::Unauthorized => ErrorKind::Unauthorized,
            Error::InvalidPeriodConfiguration | Error::ZeroAmount => ErrorKind::InvalidParameters,
            Error::InsufficientBalanceForCherry | Error::InsufficientBalance =>
                ErrorKind::InsufficientBalance,
            Error::BountyNotFound
            | Error::WorkEntryNotFound
            | Error::NoContributionFound
            | Error::NoCherryInEscrow => ErrorKind::NotFound,
            Error::BountyNotInFundingMilestone | Error::InvalidMilestone =>
                ErrorKind::InvalidMilestone,
            Error::FundingExceedsCap => ErrorKind::FundingExceedsCap,
        }
    }
}

/// One funder's cumulative contribution to one bounty.
#[derive(Clone, Copy, Debug, PartialEq, Eq, Structural)]
pub struct FundingContribution {
    pub funder: BountyActor,
    pub amount: Balance,
}

/// The stored facts of a bounty.
#[derive(Clone, Copy, Debug, PartialEq, Eq, Structural)]
pub struct Bounty {
    pub id: BountyId,
    pub creator: BountyActor,
    /// The account that paid the cherry and gets it back; none where the
    /// council's budget did.
    pub creator_account: Option<AccountId>,
    pub cherry: Balance,
    /// Whether the cherry is still held in escrow.
    pub cherry_in_escrow: bool,
    pub min_amount: Balance,
    pub max_amount: Balance,
    /// Sum of the outstanding contributions.
    pub total_funding: Balance,
    pub milestone: BountyMilestone,
    pub funding_period: Option<BlockNumber>,
    pub work_period: BlockNumber,
    pub judging_period: BlockNumber,
    pub created_at: BlockNumber,
}

/// Mathematical value of a [`WorkEntry`].
pub struct WorkEntryView {
    pub id: WorkEntryId,
    pub bounty_id: BountyId,
    pub member_id: MemberId,
    pub staking_account_id: Option<AccountId>,
    pub last_submitted_work: Option<Seq<u8>>,
}

/// A worker's registered claim to work on a bounty.
#[derive(Clone, Debug, PartialEq, Eq)]
pub struct WorkEntry {
    pub id: WorkEntryId,
    pub bounty_id: BountyId,
    pub member_id: MemberId,
    pub staking_account_id: Option<AccountId>,
    /// Fingerprint of the most recent submission.
    pub last_submitted_work: Option<Vec<u8>>,
}

impl View for WorkEntry {
    type V = WorkEntryView;

    open spec fn view(&self) -> WorkEntryView {
        WorkEntryView {
            id: self.id,
            bounty_id: self.bounty_id,
            member_id: self.member_id,
            staking_account_id: self.staking_account_id,
            last_submitted_work: match self.last_submitted_work {
                Some(digest) => Some(digest@),
                None => None,
            },
        }
    }
}

/// Mathematical value of an [`Event`].
pub enum EventView {
    BountyCreated(BountyId, BountyCreationParameters),
    BountyCanceled(BountyId, BountyActor),
    BountyVetoed(BountyId),
    BountyMaxFundingReached(BountyId),
    BountyRemoved(BountyId),
    WorkEntryAnnounced(BountyId, WorkEntryId, MemberId, Option<AccountId>),
    WorkEntryWithdrawn(BountyId, WorkEntryId, MemberId),
    WorkSubmitted(BountyId, WorkEntryId, MemberId, Seq<u8>),
}

/// What the registry reports of a successful call.
#[derive(Clone, Debug, PartialEq, Eq)]
pub enum Event {
    /// A bounty was posted with these parameters.
    BountyCreated(BountyId, BountyCreationParameters),
    /// The creator canceled the bounty.
    BountyCanceled(BountyId, BountyActor),
    /// The privileged authority canceled the bounty.
    BountyVetoed(BountyId),
    /// The raised amount reached the cap.
    BountyMaxFundingReached(BountyId),
    /// The last escrowed value left and the record is gone.
    BountyRemoved(BountyId),
    /// A worker registered, possibly with a staking account.
    WorkEntryAnnounced(BountyId, WorkEntryId, MemberId, Option<AccountId>),
    /// A worker withdrew an entry.
    WorkEntryWithdrawn(BountyId, WorkEntryId, MemberId),
    /// A worker submitted this payload.
    WorkSubmitted(BountyId, WorkEntryId, MemberId, Vec<u8>),
}

impl View for Event {
    type V = EventView;

    open spec fn view(&self) -> EventView {
        match *self {
            Event::BountyCreated(id, params) => EventView::BountyCreated(id, params),
            Event::BountyCanceled(id, actor) => EventView::BountyCanceled(id, actor),
            Event::BountyVetoed(id) => EventView::BountyVetoed(id),
            Event::BountyMaxFundingReached(id) => EventView::BountyMaxFundingReached(id),
            Event::BountyRemoved(id) => EventView::BountyRemoved(id),
            Event::WorkEntryAnnounced(id, entry, member, account) => EventView::WorkEntryAnnounced(
                id,
                entry,
                member,
                account,
            ),
            Event::WorkEntryWithdrawn(id, entry, member) => EventView::WorkEntryWithdrawn(
                id,
                entry,
                member,
            ),
            Event::WorkSubmitted(id, entry, member, payload) => EventView::WorkSubmitted(
                id,
                entry,
                member,
                payload@,
            ),
        }
    }
}

} // verus!
