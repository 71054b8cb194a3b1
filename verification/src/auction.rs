use vstd::prelude::*;

use crate::actor_map::{is_top_entry, top_entry, ActorMap};
use crate::types::{
    Action, ActorId, CreateConfig, Error, Event, Nft, NftCall, NftOutcome, NftReply, NftRequest,
    Status, Step, TokenId, Transaction,
};

verus! {

/// An overpayment below this amount is kept by the auction rather than refunded.
pub const MIN_REFUND: u128 = 500;

/// What a bidder gets back of an overpayment.
pub open spec fn refund_of(overpaid: u128) -> u128 {
    if overpaid < MIN_REFUND {
        0
    } else {
        overpaid
    }
}

/// The answer to an offer and the value sent back with it: the refund when the
/// offer is accepted, nothing when it is refused.
pub fn bid_reply(r: Result<(Event, u128), Error>) -> (reply: (Result<Event, Error>, u128))
    ensures
        reply == (match r {
            Ok((event, refund)) => (Ok::<Event, Error>(event), refund),
            Err(e) => (Err::<Event, Error>(e), 0u128),
        }),
{
    match r {
        Ok((event, refund)) => (Ok(event), refund),
        Err(e) => (Err(e), 0),
    }
}

/// What the auction concludes from the NFT contract's answer to `IsApproved`.
pub open spec fn approval_verdict(outcome: NftOutcome) -> Result<(), Error> {
    match outcome {
        NftOutcome::SendFailed => Err(Error::SendingError),
        NftOutcome::ReplyFailed => Err(Error::NftNotApproved),
        NftOutcome::Replied(NftReply::IsApproved { approved }) => if approved {
            Ok(())
        } else {
            Err(Error::NftNotApproved)
        },
        NftOutcome::Replied(_) => Err(Error::WrongReply),
    }
}

/// What the auction concludes from the NFT contract's answer to `Owner`.
pub open spec fn owner_verdict(outcome: NftOutcome) -> Result<ActorId, Error> {
    match outcome {
        NftOutcome::SendFailed => Err(Error::SendingError),
        NftOutcome::ReplyFailed => Err(Error::NftOwnerFailed),
        NftOutcome::Replied(NftReply::Owner { owner }) => Ok(owner),
        NftOutcome::Replied(_) => Err(Error::WrongReply),
    }
}

/// The state of an auction, with its maps as mathematical maps.
pub struct AuctionView {
    pub owner: ActorId,
    pub nft: Nft,
    pub starting_price: u128,
    pub status: Status,
    pub started_at: u64,
    pub expires_at: u64,
    pub highest: Map<ActorId, u128>,
    pub transactions: Map<ActorId, Transaction<Action>>,
    pub current_tid: u64,
}

impl AuctionView {
    /// The state of a new auction owned by `owner`.
    pub open spec fn initial(owner: ActorId) -> AuctionView {
        AuctionView {
            owner,
            nft: Nft {
                token_id: TokenId { high: 0, low: 0 },
                owner: ActorId { high: 0, low: 0 },
                contract_id: ActorId { high: 0, low: 0 },
            },
            starting_price: 0,
            status: Status::NotStarted,
            started_at: 0,
            expires_at: 0,
            highest: Map::empty(),
            transactions: Map::empty(),
            current_tid: 0,
        }
    }

    /// Whether an auction is under way, so that no new one can be started.
    pub open spec fn is_running(self) -> bool {
        self.status == Status::IsRunning || self.status == Status::Offered
    }

    /// The invariant of the auction: while an offer is pending, some recorded
    /// offer reaches the starting price.
    pub open spec fn wf(self) -> bool {
        self.status == Status::Offered ==> exists|k: ActorId|
            #[trigger] self.highest.contains_key(k) && self.highest[k] >= self.starting_price
    }

    /// Who gets the token when the auction is settled, and at what price: the
    /// highest offer, or nobody at price zero when there is none.
    pub open spec fn sale_offer(self) -> (ActorId, u128) {
        match top_entry(self.highest) {
            Some(e) => e,
            None => (ActorId { high: 0, low: 0 }, 0),
        }
    }

    /// The event that announces that the auction was stopped.
    pub open spec fn stopped_event(self) -> Event {
        Event::AuctionStopped { token_owner: self.owner, token_id: self.nft.token_id }
    }

    /// The outcome of opening a transaction for `action` from `source`: the
    /// state after it and the transaction's id, or the refusal.
    pub open spec fn opened(self, source: ActorId, action: Action) -> (AuctionView, Result<u64, Error>) {
        if self.transactions.contains_key(source) {
            let pending = self.transactions[source];
            if pending.action == action {
                (self, Ok(pending.id))
            } else {
                (self, Err(Error::PreviousTxMustBeCompleted))
            }
        } else {
            (
                AuctionView {
                    transactions: self.transactions.insert(
                        source,
                        Transaction { id: self.current_tid, action },
                    ),
                    current_tid: if self.current_tid == u64::MAX {
                        0
                    } else {
                        (self.current_tid + 1) as u64
                    },
                    ..self
                },
                Ok(self.current_tid),
            )
        }
    }

    /// The state after the handling of `action` from `source` has ended: every
    /// transaction but an offer's is complete.
    pub open spec fn closed(self, source: ActorId, action: Action) -> AuctionView {
        if action == Action::Bid {
            self
        } else {
            AuctionView { transactions: self.transactions.remove(source), ..self }
        }
    }
}

/// The invariant speaks only of the offers, the status and the starting price.
proof fn lemma_offers_keep_wf(a: AuctionView, b: AuctionView)
    requires
        a.wf(),
        a.highest == b.highest,
        a.status == b.status,
        a.starting_price == b.starting_price,
    ensures
        b.wf(),
{
    if a.status == Status::Offered {
        let k = choose|k: ActorId| #[trigger] a.highest.contains_key(k) && a.highest[k] >= a.starting_price;
        assert(b.highest.contains_key(k));
    }
}

/// Where a renewal of the auction waits.
#[derive(Clone, Copy, Debug, PartialEq, Eq, Structural)]
pub enum RenewStage {
    /// For the NFT contract to say whether the auction may transfer the token.
    AwaitApproval,
    /// For the NFT contract to name the token's owner.
    AwaitOwner,
    /// For the NFT contract to transfer the token to the auction.
    AwaitTransfer,
}

/// A renewal of the auction that waits for the NFT contract.
#[derive(Clone, Copy, Debug, PartialEq, Eq, Structural)]
pub struct Renewal {
    pub transaction_id: u64,
    pub config: CreateConfig,
    /// The auction's own identifier.
    pub program_id: ActorId,
    /// The length of the auction in seconds.
    pub duration_seconds: u64,
    pub stage: RenewStage,
}

/// A settlement of the auction that waits for the token's transfer.
#[derive(Clone, Copy, Debug, PartialEq, Eq, Structural)]
pub struct Sale {
    pub price: u128,
    pub refund: u128,
}

/// A payment that the auction makes.
#[derive(Clone, Copy, Debug, PartialEq, Eq, Structural)]
pub struct Payment {
    pub to: ActorId,
    pub value: u128,
}

/// An auction for one token.
pub struct Auction {
    pub owner: ActorId,
    pub nft: Nft,
    pub starting_price: u128,
    pub status: Status,
    pub started_at: u64,
    pub expires_at: u64,
    /// The offer of each bidder.
    pub highest: ActorMap<u128>,
    /// The request that each sender has begun and not completed.
    pub transactions: ActorMap<Transaction<Action>>,
    /// The id that the next transaction gets.
    pub current_tid: u64,
}

impl View for Auction {
    type V = AuctionView;

    open spec fn view(&self) -> AuctionView {
        AuctionView {
            owner: self.owner,
            nft: self.nft,
            starting_price: self.starting_price,
            status: self.status,
            started_at: self.started_at,
            expires_at: self.expires_at,
            highest: self.highest@,
            transactions: self.transactions@,
            current_tid: self.current_tid,
        }
    }
}

/// The state of an auction as its readers see it.
pub struct AuctionInfo {
    pub nft_contract_actor_id: ActorId,
    pub token_id: TokenId,
    pub token_owner: ActorId,
    pub auction_owner: ActorId,
    pub starting_price: u128,
    pub current_price: u128,
    pub time_left: u64,
    pub expires_at: u64,
    pub status: Status,
    pub transactions: ActorMap<Transaction<Action>>,
    pub highest: ActorMap<u128>,
    pub current_tid: u64,
}

impl Auction {
    /// A new auction owned by `owner`, with nothing for sale yet.
    pub fn new(owner: ActorId) -> (r: Auction)
        ensures
            r@ == AuctionView::initial(owner),
    {
        Auction {
            owner,
            nft: Nft {
                token_id: TokenId { high: 0, low: 0 },
                owner: ActorId::zero(),
                contract_id: ActorId::zero(),
            },
            starting_price: 0,
            status: Status::NotStarted,
            started_at: 0,
            expires_at: 0,
            highest: ActorMap::new(),
            transactions: ActorMap::new(),
            current_tid: 0,
        }
    }

    /// Whether an auction is under way, so that no new one can be started.
    pub fn is_running(&self) -> (r: bool)
        ensures
            r == self@.is_running(),
            r == (self.status == Status::IsRunning || self.status == Status::Offered),
    {
        self.status == Status::IsRunning || self.status == Status::Offered
    }

    /// The price that an offer must reach.
    pub fn token_price(&self) -> (r: u128)
        ensures
            r == self.starting_price,
    {
        self.starting_price
    }
    /// An offer of `value` from `source` at block time `now`.
    ///
    /// The offer is refused once the auction has expired, and when it is below the
    /// starting price. Otherwise it becomes `source`'s offer, the auction holds an
    /// offer, and the part of `value` above the price comes back as a refund when it
    /// reaches `MIN_REFUND`.
    pub fn bid(&mut self, now: u64, source: ActorId, value: u128) -> (r: Result<(Event, u128), Error>)
        ensures
            now >= old(self).expires_at ==> r == Err::<(Event, u128), Error>(Error::Expired),
            now < old(self).expires_at && value < old(self).starting_price ==> r == Err::<
                (Event, u128),
                Error,
            >(Error::InsufficientMoney),
            r is Err ==> *final(self) == *old(self),
            now < old(self).expires_at && value >= old(self).starting_price ==> {
                &&& r == Ok::<(Event, u128), Error>(
                    (
                        Event::Offered { offered_price: value },
                        refund_of((value - old(self).starting_price) as u128),
                    ),
                )
                &&& final(self)@ == (AuctionView {
                    status: Status::Offered,
                    highest: old(self)@.highest.insert(source, value),
                    ..old(self)@
                })
            },
            old(self)@.wf() ==> final(self)@.wf(),
    {
        if self.status == Status::IsRunning && self.status == Status::Offered {
            return Err(Error::AlreadyStopped);
        }
        if now >= self.expires_at {
            return Err(Error::Expired);
        }
        let price = self.token_price();
        let offered_price = value;
        if offered_price < price {
            return Err(Error::InsufficientMoney);
        }
        self.highest.insert(source, value);
        self.status = Status::Offered;
        let refund = offered_price - price;
        let refund = if refund < MIN_REFUND {
            0
        } else {
            refund
        };
        assert(self@.highest.contains_key(source));
        Ok((Event::Offered { offered_price }, refund))
    }

    /// Settles the auction at block time `now` once its time is over.
    ///
    /// With an offer pending after the end, the token goes to the highest offer
    /// (`sale_offer`): the transfer is requested, and the state stays as it is. A
    /// running auction without offers expires. In every other case the auction
    /// is set running again.
    pub fn stop_if_time_is_over(&mut self, now: u64) -> (r: Step<Sale, Result<(Event, u128), Error>>)
        requires
            old(self).status == Status::Offered && now >= old(self).expires_at
                ==> old(self)@.sale_offer().1 >= old(self).starting_price,
        ensures
            old(self).status == Status::Offered && now >= old(self).expires_at ==> {
                let (winner, price) = old(self)@.sale_offer();
                &&& *final(self) == *old(self)
                &&& r == Step::<Sale, Result<(Event, u128), Error>>::Call(
                    NftCall {
                        contract: old(self).nft.contract_id,
                        request: NftRequest::Transfer {
                            transaction_id: old(self).current_tid,
                            to: winner,
                            token_id: old(self).nft.token_id,
                        },
                    },
                    Sale { price, refund: refund_of((price - old(self).starting_price) as u128) },
                )
            },
            old(self).status == Status::Offered && now >= old(self).expires_at ==> (match r {
                Step::Call(call, sale) => match call.request {
                    NftRequest::Transfer { to, .. } => {
                        let offers = old(self).highest@;
                        &&& sale.refund == refund_of((sale.price - old(self).starting_price) as u128)
                        &&& offers.dom().is_empty() ==> to == ActorId { high: 0, low: 0 } && sale.price
                            == 0
                        &&& !offers.dom().is_empty() ==> {
                            &&& offers.contains_key(to)
                            &&& sale.price == offers[to]
                            &&& forall|j: ActorId| #[trigger]
                                offers.contains_key(j) ==> offers[j] < sale.price || (offers[j]
                                    == sale.price && (j == to || j.precedes(to)))
                        }
                    },
                    _ => false,
                },
                Step::Finish(_) => false,
            }),
            old(self).status == Status::IsRunning && now >= old(self).expires_at ==> {
                &&& final(self)@ == (AuctionView { status: Status::Expired, ..old(self)@ })
                &&& r == Step::<Sale, Result<(Event, u128), Error>>::Finish(Ok((Event::Close, 0)))
            },
            !((old(self).status == Status::Offered || old(self).status == Status::IsRunning) && now
                >= old(self).expires_at) ==> {
                &&& final(self)@ == (AuctionView { status: Status::IsRunning, ..old(self)@ })
                &&& r == Step::<Sale, Result<(Event, u128), Error>>::Finish(Ok((Event::Running, 0)))
            },
            old(self)@.wf() ==> final(self)@.wf(),
    {
        let refund: u128 = 0;
        let mut price: u128 = 0;
        let mut winner = ActorId::zero();
        if self.status == Status::Offered && now >= self.expires_at {
            if let Some((max_key, max_value)) = self.highest.max_by_value() {
                price = max_value;
                winner = max_key;
                proof {
                    let m = self.highest@;
                    assert(exists|k: ActorId| is_top_entry(m, k));
                    let c = choose|k: ActorId| is_top_entry(m, k);
                    assert(is_top_entry(m, c));
                }
            }
            let refund = price - self.starting_price;
            let transaction_id = self.current_tid;
            let refund = if refund < MIN_REFUND {
                0
            } else {
                refund
            };
            Step::Call(
                NftCall {
                    contract: self.nft.contract_id,
                    request: NftRequest::Transfer { to: winner, token_id: self.nft.token_id, transaction_id },
                },
                Sale { price, refund },
            )
        } else {
            if self.status == Status::IsRunning && now >= self.expires_at {
                self.status = Status::Expired;
                Step::Finish(Ok((Event::Close, refund)))
            } else {
                self.status = Status::IsRunning;
                Step::Finish(Ok((Event::Running, refund)))
            }
        }
    }

    /// The result of a settlement once the NFT contract has answered the transfer.
    pub fn finish_sale(sale: Sale, outcome: NftOutcome) -> (r: Result<(Event, u128), Error>)
        ensures
            r == (match outcome {
                NftOutcome::Replied(_) => Ok((Event::Bought { price: sale.price }, sale.refund)),
                _ => Err(Error::NftTransferFailed),
            }),
    {
        match outcome {
            NftOutcome::SendFailed => Err(Error::NftTransferFailed),
            NftOutcome::ReplyFailed => Err(Error::NftTransferFailed),
            NftOutcome::Replied(_) => Ok((Event::Bought { price: sale.price }, sale.refund)),
        }
    }

    /// Registers the request `action` from `source` before it is handled.
    ///
    /// A sender with a request still pending may only repeat it, and then gets
    /// the same transaction id again; any other request is refused. A sender
    /// without one gets a fresh id, and the next id moves on, wrapping around.
    pub fn open_transaction(&mut self, source: ActorId, action: Action) -> (r: Result<u64, Error>)
        ensures
            (final(self)@, r) == old(self)@.opened(source, action),
            old(self)@.wf() ==> final(self)@.wf(),
    {
        let r = match self.transactions.get(&source) {
            Some(pending) => {
                if action != pending.action {
                    Err(Error::PreviousTxMustBeCompleted)
                } else {
                    Ok(pending.id)
                }
            },
            None => {
                let transaction_id = self.current_tid;
                self.transactions.insert(source, Transaction { id: transaction_id, action });
                self.current_tid = self.current_tid.wrapping_add(1);
                Ok(transaction_id)
            },
        };
        proof {
            if old(self)@.wf() {
                lemma_offers_keep_wf(old(self)@, self@);
            }
        }
        r
    }

    /// Completes the transaction of `source` once `action` has been handled;
    /// an offer's transaction stays pending.
    pub fn close_transaction(&mut self, source: ActorId, action: Action)
        ensures
            final(self)@ == old(self)@.closed(source, action),
            old(self)@.wf() ==> final(self)@.wf(),
    {
        match action {
            Action::Bid => {},
            _ => {
                self.transactions.remove(&source);
            },
        }
        proof {
            if old(self)@.wf() {
                lemma_offers_keep_wf(old(self)@, self@);
            }
        }
    }

    /// The state of the auction as its readers see it, at block time `now`.
    pub fn info(&mut self, now: u64) -> (r: AuctionInfo)
        ensures
            *final(self) == *old(self),
            r.nft_contract_actor_id == old(self).nft.contract_id,
            r.token_id == old(self).nft.token_id,
            r.token_owner == old(self).nft.owner,
            r.auction_owner == old(self).owner,
            r.starting_price == old(self).starting_price,
            r.current_price == old(self).starting_price,
            r.time_left == (if old(self).expires_at > now {
                old(self).expires_at - now
            } else {
                0
            }),
            r.expires_at == old(self).expires_at,
            r.status == old(self).status,
            r.transactions@ == old(self).transactions@,
            r.highest@ == old(self).highest@,
            r.current_tid == old(self).current_tid,
    {
        AuctionInfo {
            nft_contract_actor_id: self.nft.contract_id,
            token_id: self.nft.token_id,
            token_owner: self.nft.owner,
            auction_owner: self.owner,
            starting_price: self.starting_price,
            current_price: self.token_price(),
            time_left: self.expires_at.saturating_sub(now),
            expires_at: self.expires_at,
            status: self.status,
            transactions: self.transactions.clone(),
            highest: self.highest.clone(),
            current_tid: self.current_tid,
        }
    }


    /// What the auction concludes from the NFT contract's answer to whether it
    /// may transfer the token.
    pub fn validate_nft_approve(outcome: NftOutcome) -> (r: Result<(), Error>)
        ensures
            r == approval_verdict(outcome),
    {
        match outcome {
            NftOutcome::SendFailed => Err(Error::SendingError),
            NftOutcome::ReplyFailed => Err(Error::NftNotApproved),
            NftOutcome::Replied(NftReply::IsApproved { approved }) => {
                if !approved {
                    return Err(Error::NftNotApproved);
                }
                Ok(())
            },
            NftOutcome::Replied(_) => Err(Error::WrongReply),
        }
    }

    /// What the auction concludes from the NFT contract's answer to who owns the
    /// token.
    pub fn get_token_owner(outcome: NftOutcome) -> (r: Result<ActorId, Error>)
        ensures
            r == owner_verdict(outcome),
    {
        match outcome {
            NftOutcome::SendFailed => Err(Error::SendingError),
            NftOutcome::ReplyFailed => Err(Error::NftOwnerFailed),
            NftOutcome::Replied(NftReply::Owner { owner }) => Ok(owner),
            NftOutcome::Replied(_) => Err(Error::WrongReply),
        }
    }

    /// Starts a new auction as `config` describes, under `transaction_id`;
    /// `program_id` is the auction's own identifier.
    ///
    /// An auction that is under way cannot be renewed. Otherwise the renewal asks
    /// the NFT contract whether the auction may transfer the token, and goes on in
    /// `continue_renewal` with the answer.
    pub fn renew_contract(
        &mut self,
        transaction_id: u64,
        config: &CreateConfig,
        program_id: ActorId,
    ) -> (r: Step<Renewal, Result<Event, Error>>)
        requires
            !(old(self).status == Status::IsRunning || old(self).status == Status::Offered)
                ==> config.duration.in_seconds() <= u64::MAX,
        ensures
            *final(self) == *old(self),
            old(self).status == Status::IsRunning || old(self).status == Status::Offered ==> r
                == Step::<Renewal, Result<Event, Error>>::Finish(
                Err(Error::AlreadyRunning),
            ),
            !(old(self).status == Status::IsRunning || old(self).status == Status::Offered) ==> r
                == Step::<Renewal, Result<Event, Error>>::Call(
                NftCall {
                    contract: config.nft_contract_actor_id,
                    request: NftRequest::IsApproved { token_id: config.token_id, to: program_id },
                },
                Renewal {
                    transaction_id,
                    config: *config,
                    program_id,
                    duration_seconds: config.duration.in_seconds() as u64,
                    stage: RenewStage::AwaitApproval,
                },
            ),
    {
        if self.is_running() {
            return Step::Finish(Err(Error::AlreadyRunning));
        }
        let minutes_count = config.duration.hours * 60 + config.duration.minutes;
        let duration_in_seconds = minutes_count * 60 + config.duration.seconds;
        Step::Call(
            NftCall {
                contract: config.nft_contract_actor_id,
                request: NftRequest::IsApproved { token_id: config.token_id, to: program_id },
            },
            Renewal {
                transaction_id,
                config: *config,
                program_id,
                duration_seconds: duration_in_seconds,
                stage: RenewStage::AwaitApproval,
            },
        )
    }

    /// Goes on with `renewal` once the NFT contract has answered, at block time
    /// `now`.
    ///
    /// Once the transfer is approved the auction runs from `now` for the renewal's
    /// duration, for the token of the configuration, and the token's owner is
    /// asked for. Once the owner is known the starting price is set and the token
    /// is transferred to the auction. Once transferred, the start is announced. A
    /// refusal at any stage ends the renewal with what has been set so far.
    pub fn continue_renewal(&mut self, renewal: Renewal, outcome: NftOutcome, now: u64) -> (r: Step<
        Renewal,
        Result<Event, Error>,
    >)
        requires
            renewal.stage == RenewStage::AwaitApproval && approval_verdict(outcome) is Ok ==> now
                + renewal.duration_seconds * 1000 <= u64::MAX,
            renewal.stage == RenewStage::AwaitTransfer ==> outcome != NftOutcome::SendFailed,
        ensures
            renewal.stage == RenewStage::AwaitApproval ==> match approval_verdict(outcome) {
                Err(e) => {
                    &&& r == Step::<Renewal, Result<Event, Error>>::Finish(Err(e))
                    &&& *final(self) == *old(self)
                },
                Ok(_) => {
                    &&& final(self)@ == (AuctionView {
                        status: Status::IsRunning,
                        started_at: now,
                        expires_at: (now + renewal.duration_seconds * 1000) as u64,
                        nft: Nft {
                            token_id: renewal.config.token_id,
                            contract_id: renewal.config.nft_contract_actor_id,
                            ..old(self).nft
                        },
                        ..old(self)@
                    })
                    &&& r == Step::<Renewal, Result<Event, Error>>::Call(
                        NftCall {
                            contract: renewal.config.nft_contract_actor_id,
                            request: NftRequest::Owner { token_id: renewal.config.token_id },
                        },
                        Renewal { stage: RenewStage::AwaitOwner, ..renewal },
                    )
                },
            },
            renewal.stage == RenewStage::AwaitOwner ==> match owner_verdict(outcome) {
                Err(e) => {
                    &&& r == Step::<Renewal, Result<Event, Error>>::Finish(Err(e))
                    &&& *final(self) == *old(self)
                },
                Ok(owner) => {
                    &&& final(self)@ == (AuctionView {
                        nft: Nft { owner, ..old(self).nft },
                        starting_price: renewal.config.starting_price,
                        ..old(self)@
                    })
                    &&& r == Step::<Renewal, Result<Event, Error>>::Call(
                        NftCall {
                            contract: old(self).nft.contract_id,
                            request: NftRequest::Transfer {
                                transaction_id: renewal.transaction_id,
                                to: renewal.program_id,
                                token_id: old(self).nft.token_id,
                            },
                        },
                        Renewal { stage: RenewStage::AwaitTransfer, ..renewal },
                    )
                },
            },
            renewal.stage == RenewStage::AwaitTransfer ==> {
                &&& *final(self) == *old(self)
                &&& r == (match outcome {
                    NftOutcome::Replied(_) => Step::<Renewal, Result<Event, Error>>::Finish(
                        Ok(
                            Event::AuctionStarted {
                                token_owner: old(self).owner,
                                price: old(self).starting_price,
                                token_id: old(self).nft.token_id,
                            },
                        ),
                    ),
                    _ => Step::<Renewal, Result<Event, Error>>::Finish(Err(Error::NftTransferFailed)),
                })
            },
            old(self)@.wf() && !(renewal.stage == RenewStage::AwaitOwner && old(self).status
                == Status::Offered) ==> final(self)@.wf(),
    {
        match renewal.stage {
            RenewStage::AwaitApproval => {
                match Self::validate_nft_approve(outcome) {
                    Err(e) => {
                        return Step::Finish(Err(e));
                    },
                    Ok(()) => {},
                }
                self.status = Status::IsRunning;
                self.started_at = now;
                self.expires_at = self.started_at + renewal.duration_seconds * 1000;
                self.nft.token_id = renewal.config.token_id;
                self.nft.contract_id = renewal.config.nft_contract_actor_id;
                Step::Call(
                    NftCall {
                        contract: renewal.config.nft_contract_actor_id,
                        request: NftRequest::Owner { token_id: renewal.config.token_id },
                    },
                    Renewal { stage: RenewStage::AwaitOwner, ..renewal },
                )
            },
            RenewStage::AwaitOwner => {
                match Self::get_token_owner(outcome) {
                    Err(e) => Step::Finish(Err(e)),
                    Ok(owner) => {
                        self.nft.owner = owner;
                        self.starting_price = renewal.config.starting_price;
                        Step::Call(
                            NftCall {
                                contract: self.nft.contract_id,
                                request: NftRequest::Transfer {
                                    transaction_id: renewal.transaction_id,
                                    to: renewal.program_id,
                                    token_id: self.nft.token_id,
                                },
                            },
                            Renewal { stage: RenewStage::AwaitTransfer, ..renewal },
                        )
                    },
                }
            },
            RenewStage::AwaitTransfer => {
                match outcome {
                    NftOutcome::Replied(_) => Step::Finish(
                        Ok(
                            Event::AuctionStarted {
                                token_owner: self.owner,
                                price: self.starting_price,
                                token_id: self.nft.token_id,
                            },
                        ),
                    ),
                    _ => Step::Finish(Err(Error::NftTransferFailed)),
                }
            },
        }
    }

    /// A request from `source` to stop the auction, under `transaction_id`.
    ///
    /// Only the owner may stop it, and not while a purchase awaits its reward.
    /// Once the reward is paid the auction counts as stopped already; otherwise the
    /// token goes back to its owner, and `finish_force_stop` ends the request.
    pub fn force_stop(&mut self, source: ActorId, transaction_id: u64) -> (r: Step<
        Event,
        Result<Event, Error>,
    >)
        ensures
            *final(self) == *old(self),
            source != old(self).owner ==> r == Step::<Event, Result<Event, Error>>::Finish(
                Err(Error::NotOwner),
            ),
            source == old(self).owner && old(self).status is Purchased ==> r == Step::<
                Event,
                Result<Event, Error>,
            >::Finish(Err(Error::NotRewarded)),
            source == old(self).owner && old(self).status is Rewarded ==> r == Step::<
                Event,
                Result<Event, Error>,
            >::Finish(
                Ok(Event::AuctionStopped { token_owner: old(self).owner, token_id: old(self).nft.token_id }),
            ),
            source == old(self).owner && !(old(self).status is Purchased) && !(old(
                self,
            ).status is Rewarded) ==> r == Step::<Event, Result<Event, Error>>::Call(
                NftCall {
                    contract: old(self).nft.contract_id,
                    request: NftRequest::Transfer {
                        transaction_id,
                        to: old(self).nft.owner,
                        token_id: old(self).nft.token_id,
                    },
                },
                Event::AuctionStopped { token_owner: old(self).owner, token_id: old(self).nft.token_id },
            ),
    {
        if source != self.owner {
            return Step::Finish(Err(Error::NotOwner));
        }
        if let Status::Purchased { price: _ } = self.status {
            return Step::Finish(Err(Error::NotRewarded));
        }
        let stopped = Event::AuctionStopped { token_owner: self.owner, token_id: self.nft.token_id };
        if let Status::Rewarded { price: _ } = self.status {
            return Step::Finish(Ok(stopped));
        }
        Step::Call(
            NftCall {
                contract: self.nft.contract_id,
                request: NftRequest::Transfer {
                    transaction_id,
                    to: self.nft.owner,
                    token_id: self.nft.token_id,
                },
            },
            stopped,
        )
    }

    /// Ends a request to stop the auction once the NFT contract has answered the
    /// transfer of the token back to its owner; `stopped` is the event to answer.
    pub fn finish_force_stop(&mut self, stopped: Event, outcome: NftOutcome) -> (r: Result<Event, Error>)
        requires
            outcome != NftOutcome::SendFailed,
        ensures
            outcome == NftOutcome::ReplyFailed ==> r == Err::<Event, Error>(Error::NftTransferFailed)
                && *final(self) == *old(self),
            outcome is Replied ==> r == Ok::<Event, Error>(stopped) && final(self)@ == (AuctionView {
                status: Status::Stopped,
                ..old(self)@
            }),
            old(self)@.wf() ==> final(self)@.wf(),
    {
        match outcome {
            NftOutcome::Replied(_) => {
                self.status = Status::Stopped;
                Ok(stopped)
            },
            _ => Err(Error::NftTransferFailed),
        }
    }

    /// A request from `source` to be paid for the token after a purchase.
    ///
    /// Only a purchase is paid, and only to the token's owner; the payment is the
    /// purchase price, and `finish_reward` ends the request once it was sent.
    pub fn reward(&mut self, source: ActorId) -> (r: Result<Payment, Error>)
        ensures
            *final(self) == *old(self),
            r == (match old(self).status {
                Status::Purchased { price } => if source == old(self).nft.owner {
                    Ok(Payment { to: old(self).nft.owner, value: price })
                } else {
                    Err(Error::IncorrectRewarder)
                },
                _ => Err(Error::WrongState),
            }),
    {
        let price = match self.status {
            Status::Purchased { price } => price,
            _ => {
                return Err(Error::WrongState);
            },
        };
        if source != self.nft.owner {
            return Err(Error::IncorrectRewarder);
        }
        Ok(Payment { to: self.nft.owner, value: price })
    }

    /// Ends a request to be paid `price`, once the payment was sent or not.
    pub fn finish_reward(&mut self, price: u128, sent: bool) -> (r: Result<Event, Error>)
        ensures
            !sent ==> r == Err::<Event, Error>(Error::RewardSendFailed) && *final(self) == *old(self),
            sent ==> r == Ok::<Event, Error>(Event::Rewarded { price }) && final(self)@ == (AuctionView {
                status: Status::Rewarded { price },
                ..old(self)@
            }),
            old(self)@.wf() ==> final(self)@.wf(),
    {
        if !sent {
            return Err(Error::RewardSendFailed);
        }
        self.status = Status::Rewarded { price };
        Ok(Event::Rewarded { price })
    }

}

impl Default for Auction {
    fn default() -> (r: Self)
        ensures
            r@ == AuctionView::initial(ActorId { high: 0, low: 0 }),
    {
        Auction::new(ActorId::zero())
    }
}

} // verus!
