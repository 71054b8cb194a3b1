use vstd::prelude::*;

verus! {

/// The identifier of an account or a program: 256 bits, as two halves of which
/// `high` holds the first sixteen bytes in big-endian order.
#[derive(Clone, Copy, Debug, PartialEq, Eq, Structural)]
pub struct ActorId {
    pub high: u128,
    pub low: u128,
}

impl ActorId {
    /// The identifier whose bits are all zero.
    pub fn zero() -> (r: ActorId)
        ensures
            r.high == 0 && r.low == 0,
    {
        ActorId { high: 0, low: 0 }
    }

    pub fn new(high: u128, low: u128) -> (r: ActorId)
        ensures
            r.high == high && r.low == low,
    {
        ActorId { high, low }
    }

    /// The order of identifiers: that of their bytes, read from the first.
    pub open spec fn precedes(self, other: ActorId) -> bool {
        self.high < other.high || (self.high == other.high && self.low < other.low)
    }

    /// Whether `self` comes before `other` in the order of identifiers.
    pub fn is_before(&self, other: &ActorId) -> (r: bool)
        ensures
            r == self.precedes(*other),
    {
        self.high < other.high || (self.high == other.high && self.low < other.low)
    }
}

/// The identifier of a token: a 256-bit number, as its high and low halves.
#[derive(Clone, Copy, Debug, PartialEq, Eq, Structural)]
pub struct TokenId {
    pub high: u128,
    pub low: u128,
}

impl TokenId {
    pub fn new(high: u128, low: u128) -> (r: TokenId)
        ensures
            r.high == high && r.low == low,
    {
        TokenId { high, low }
    }

    /// The token numbered `n`.
    pub fn from_u128(n: u128) -> (r: TokenId)
        ensures
            r.high == 0 && r.low == n,
    {
        TokenId { high: 0, low: n }
    }
}

/// How long an auction runs.
#[derive(Clone, Copy, Debug, PartialEq, Eq, Structural)]
pub struct Duration {
    pub hours: u64,
    pub minutes: u64,
    pub seconds: u64,
}

impl Duration {
    /// The length of the duration in seconds.
    pub open spec fn in_seconds(self) -> int {
        (self.hours * 60 + self.minutes) * 60 + self.seconds
    }

    /// The length of the duration in milliseconds, the unit of block time.
    pub open spec fn in_millis(self) -> int {
        self.in_seconds() * 1000
    }
}

/// What the owner asks for when starting an auction.
#[derive(Clone, Copy, Debug, PartialEq, Eq, Structural)]
pub struct CreateConfig {
    pub nft_contract_actor_id: ActorId,
    pub token_id: TokenId,
    pub starting_price: u128,
    pub duration: Duration,
}

/// A message to the auction.
#[derive(Clone, Copy, Debug, PartialEq, Eq, Structural)]
pub enum Action {
    Create(CreateConfig),
    ForceStop,
    Reward,
    Bid,
}

/// Where the auction stands.
#[derive(Clone, Copy, Debug, PartialEq, Eq, Structural)]
pub enum Status {
    /// No auction has been started yet.
    NotStarted,
    IsRunning,
    /// At least one offer has been made.
    Offered,
    Purchased { price: u128 },
    Rewarded { price: u128 },
    Expired,
    Stopped,
}

/// What the auction answers when a request succeeds.
#[derive(Clone, Copy, Debug, PartialEq, Eq, Structural)]
pub enum Event {
    AuctionStarted { token_owner: ActorId, price: u128, token_id: TokenId },
    Offered { offered_price: u128 },
    Bought { price: u128 },
    Rewarded { price: u128 },
    AuctionStopped { token_owner: ActorId, token_id: TokenId },
    Close,
    Running,
}

/// Why a request was refused.
#[derive(Clone, Copy, Debug, PartialEq, Eq, Structural)]
pub enum Error {
    AlreadyRunning,
    AlreadyStopped,
    Expired,
    InsufficientMoney,
    NftTransferFailed,
    WrongState,
    IncorrectRewarder,
    RewardSendFailed,
    SendingError,
    NftOwnerFailed,
    WrongReply,
    NftNotApproved,
    NotOwner,
    NotRewarded,
    PreviousTxMustBeCompleted,
}

/// A request that a sender has begun and not yet completed.
#[derive(Clone, Copy, Debug, PartialEq, Eq, Structural)]
pub struct Transaction<T> {
    pub id: u64,
    pub action: T,
}

/// The token that is up for auction.
#[derive(Clone, Copy, Debug, PartialEq, Eq, Structural)]
pub struct Nft {
    pub token_id: TokenId,
    pub owner: ActorId,
    pub contract_id: ActorId,
}

/// A request that the auction sends to the NFT contract.
#[derive(Clone, Copy, Debug, PartialEq, Eq, Structural)]
pub enum NftRequest {
    Transfer { transaction_id: u64, to: ActorId, token_id: TokenId },
    Owner { token_id: TokenId },
    IsApproved { token_id: TokenId, to: ActorId },
}

/// What the auction reads of the NFT contract's reply.
#[derive(Clone, Copy, Debug, PartialEq, Eq, Structural)]
pub enum NftReply {
    Owner { owner: ActorId },
    IsApproved { approved: bool },
    /// Any other reply.
    Other,
}

/// How a request to the NFT contract ended.
#[derive(Clone, Copy, Debug, PartialEq, Eq, Structural)]
pub enum NftOutcome {
    /// The request could not be sent.
    SendFailed,
    /// The request was sent, and no reply came back.
    ReplyFailed,
    Replied(NftReply),
}

/// A request addressed to an NFT contract.
#[derive(Clone, Copy, Debug, PartialEq, Eq, Structural)]
pub struct NftCall {
    pub contract: ActorId,
    pub request: NftRequest,
}

/// The next thing an operation needs: an NFT contract's answer to `Call`, after
/// which it resumes with the pending data `P`, or nothing more, with the result `T`.
#[derive(Clone, Copy, Debug, PartialEq, Eq)]
pub enum Step<P, T> {
    Call(NftCall, P),
    Finish(T),
}

} // verus!
