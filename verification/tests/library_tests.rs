use seal_bid_auction::actor_map::ActorMap;
use seal_bid_auction::auction::{bid_reply, Auction, RenewStage, Renewal, Sale, MIN_REFUND};
use seal_bid_auction::types::{
    Action, ActorId, CreateConfig, Duration, Error, Event, NftCall, NftOutcome, NftReply, NftRequest,
    Status, Step, TokenId, Transaction,
};

const START: u64 = 10_000;
const PRICE: u128 = 1_000_000_000;

fn actor(n: u128) -> ActorId {
    ActorId::new(0, n)
}

fn program() -> ActorId {
    actor(1)
}

fn nft_contract() -> ActorId {
    actor(2)
}

fn config() -> CreateConfig {
    CreateConfig {
        nft_contract_actor_id: nft_contract(),
        token_id: TokenId::from_u128(7),
        starting_price: PRICE,
        duration: Duration { hours: 1, minutes: 2, seconds: 3 },
    }
}

fn approved() -> NftOutcome {
    NftOutcome::Replied(NftReply::IsApproved { approved: true })
}

fn owned_by(owner: ActorId) -> NftOutcome {
    NftOutcome::Replied(NftReply::Owner { owner })
}

fn transferred() -> NftOutcome {
    NftOutcome::Replied(NftReply::Other)
}

/// An auction owned by actor 10 for token 7 of actor 20, running from `START`.
fn running() -> Auction {
    let mut auction = Auction::new(actor(10));
    let step = auction.renew_contract(5, &config(), program());
    let renewal = match step {
        Step::Call(_, r) => r,
        Step::Finish(_) => panic!("renewal refused"),
    };
    let renewal = match auction.continue_renewal(renewal, approved(), START) {
        Step::Call(_, r) => r,
        Step::Finish(_) => panic!("approval refused"),
    };
    let renewal = match auction.continue_renewal(renewal, owned_by(actor(20)), START + 5) {
        Step::Call(_, r) => r,
        Step::Finish(_) => panic!("owner refused"),
    };
    match auction.continue_renewal(renewal, transferred(), START + 9) {
        Step::Finish(r) => assert!(r.is_ok()),
        Step::Call(..) => panic!("renewal did not end"),
    }
    auction
}

fn expiry() -> u64 {
    START + (3600 + 120 + 3) * 1000
}

#[test]
fn new_auction_is_empty() {
    let mut auction = Auction::new(actor(10));
    let info = auction.info(0);
    assert_eq!(info.auction_owner, actor(10));
    assert_eq!(info.status, Status::NotStarted);
    assert_eq!(info.expires_at, 0);
    assert_eq!(info.time_left, 0);
    assert!(info.highest.entries().is_empty());
    assert!(info.transactions.entries().is_empty());
    let default = Auction::default();
    assert_eq!(default.owner, ActorId::zero());
}

#[test]
fn renewal_steps_ask_and_set_in_order() {
    let mut auction = Auction::new(actor(10));
    let step = auction.renew_contract(5, &config(), program());
    let renewal = Renewal {
        transaction_id: 5,
        config: config(),
        program_id: program(),
        duration_seconds: 3723,
        stage: RenewStage::AwaitApproval,
    };
    assert_eq!(
        step,
        Step::Call(
            NftCall {
                contract: nft_contract(),
                request: NftRequest::IsApproved { token_id: TokenId::from_u128(7), to: program() },
            },
            renewal
        )
    );
    assert_eq!(auction.status, Status::NotStarted);

    let step = auction.continue_renewal(renewal, approved(), START);
    assert_eq!(auction.status, Status::IsRunning);
    assert_eq!(auction.started_at, START);
    assert_eq!(auction.expires_at, START + 3_723_000);
    assert_eq!(auction.nft.token_id, TokenId::from_u128(7));
    assert_eq!(auction.nft.contract_id, nft_contract());
    let renewal = Renewal { stage: RenewStage::AwaitOwner, ..renewal };
    assert_eq!(
        step,
        Step::Call(
            NftCall { contract: nft_contract(), request: NftRequest::Owner { token_id: TokenId::from_u128(7) } },
            renewal
        )
    );

    let step = auction.continue_renewal(renewal, owned_by(actor(20)), START + 5);
    assert_eq!(auction.nft.owner, actor(20));
    assert_eq!(auction.token_price(), PRICE);
    let renewal = Renewal { stage: RenewStage::AwaitTransfer, ..renewal };
    assert_eq!(
        step,
        Step::Call(
            NftCall {
                contract: nft_contract(),
                request: NftRequest::Transfer { transaction_id: 5, to: program(), token_id: TokenId::from_u128(7) },
            },
            renewal
        )
    );

    let step = auction.continue_renewal(renewal, transferred(), START + 9);
    assert_eq!(
        step,
        Step::Finish(Ok(Event::AuctionStarted { token_owner: actor(10), price: PRICE, token_id: TokenId::from_u128(7) }))
    );
}

#[test]
fn renewal_refusals() {
    let mut auction = running();
    assert_eq!(auction.renew_contract(6, &config(), program()), Step::Finish(Err(Error::AlreadyRunning)));

    let base = Renewal {
        transaction_id: 5,
        config: config(),
        program_id: program(),
        duration_seconds: 3723,
        stage: RenewStage::AwaitApproval,
    };
    let mut fresh = Auction::new(actor(10));
    assert_eq!(fresh.continue_renewal(base, NftOutcome::SendFailed, START), Step::Finish(Err(Error::SendingError)));
    assert_eq!(fresh.continue_renewal(base, NftOutcome::ReplyFailed, START), Step::Finish(Err(Error::NftNotApproved)));
    let refused = NftOutcome::Replied(NftReply::IsApproved { approved: false });
    assert_eq!(fresh.continue_renewal(base, refused, START), Step::Finish(Err(Error::NftNotApproved)));
    assert_eq!(fresh.continue_renewal(base, transferred(), START), Step::Finish(Err(Error::WrongReply)));
    assert_eq!(fresh.status, Status::NotStarted);

    let owner_stage = Renewal { stage: RenewStage::AwaitOwner, ..base };
    assert_eq!(fresh.continue_renewal(owner_stage, NftOutcome::SendFailed, START), Step::Finish(Err(Error::SendingError)));
    assert_eq!(fresh.continue_renewal(owner_stage, NftOutcome::ReplyFailed, START), Step::Finish(Err(Error::NftOwnerFailed)));
    assert_eq!(fresh.continue_renewal(owner_stage, approved(), START), Step::Finish(Err(Error::WrongReply)));
    assert_eq!(fresh.starting_price, 0);

    let transfer_stage = Renewal { stage: RenewStage::AwaitTransfer, ..base };
    assert_eq!(
        fresh.continue_renewal(transfer_stage, NftOutcome::ReplyFailed, START),
        Step::Finish(Err(Error::NftTransferFailed))
    );
}

#[test]
fn verdicts_of_the_nft_contract() {
    assert_eq!(Auction::validate_nft_approve(approved()), Ok(()));
    assert_eq!(Auction::validate_nft_approve(NftOutcome::SendFailed), Err(Error::SendingError));
    assert_eq!(Auction::get_token_owner(owned_by(actor(4))), Ok(actor(4)));
    assert_eq!(Auction::get_token_owner(NftOutcome::ReplyFailed), Err(Error::NftOwnerFailed));
    assert_eq!(Auction::get_token_owner(approved()), Err(Error::WrongReply));
}

#[test]
fn bid_records_offer_and_refunds_overpayment() {
    let mut auction = running();
    assert_eq!(auction.bid(START + 1, actor(30), PRICE + 499), Ok((Event::Offered { offered_price: PRICE + 499 }, 0)));
    assert_eq!(auction.bid(START + 2, actor(31), PRICE + MIN_REFUND), Ok((Event::Offered { offered_price: PRICE + 500 }, 500)));
    assert_eq!(auction.bid(START + 3, actor(30), PRICE), Ok((Event::Offered { offered_price: PRICE }, 0)));
    assert_eq!(auction.status, Status::Offered);
    assert_eq!(auction.highest.get(&actor(30)), Some(PRICE));
    assert_eq!(auction.highest.get(&actor(31)), Some(PRICE + 500));
    assert_eq!(auction.highest.entries().len(), 2);
}

#[test]
fn refused_bids_change_nothing() {
    let mut auction = running();
    assert_eq!(auction.bid(START + 1, actor(30), PRICE - 1), Err(Error::InsufficientMoney));
    assert_eq!(auction.bid(expiry(), actor(30), PRICE), Err(Error::Expired));
    assert_eq!(auction.status, Status::IsRunning);
    assert_eq!(auction.highest.get(&actor(30)), None);
    assert_eq!(bid_reply(Err(Error::Expired)), (Err(Error::Expired), 0));
    assert_eq!(bid_reply(Ok((Event::Offered { offered_price: 3 }, 2))), (Ok(Event::Offered { offered_price: 3 }), 2));
}

#[test]
fn bid_before_any_auction_has_expired() {
    let mut auction = Auction::new(actor(10));
    assert_eq!(auction.bid(0, actor(30), 5), Err(Error::Expired));
}

#[test]
fn settlement_goes_to_highest_offer() {
    let mut auction = running();
    auction.bid(START + 1, actor(30), PRICE + 10_000).unwrap();
    auction.bid(START + 2, actor(31), PRICE + 20_000).unwrap();
    auction.bid(START + 3, actor(32), PRICE).unwrap();
    let step = auction.stop_if_time_is_over(expiry());
    assert_eq!(
        step,
        Step::Call(
            NftCall {
                contract: nft_contract(),
                request: NftRequest::Transfer { transaction_id: 0, to: actor(31), token_id: TokenId::from_u128(7) },
            },
            Sale { price: PRICE + 20_000, refund: 20_000 }
        )
    );
    assert_eq!(auction.status, Status::Offered);
    let sale = Sale { price: PRICE + 20_000, refund: 20_000 };
    assert_eq!(Auction::finish_sale(sale, transferred()), Ok((Event::Bought { price: PRICE + 20_000 }, 20_000)));
    assert_eq!(Auction::finish_sale(sale, NftOutcome::SendFailed), Err(Error::NftTransferFailed));
    assert_eq!(Auction::finish_sale(sale, NftOutcome::ReplyFailed), Err(Error::NftTransferFailed));
}

#[test]
fn equal_offers_go_to_the_later_identifier() {
    let mut auction = running();
    auction.bid(START + 1, ActorId::new(1, 0), PRICE + 100).unwrap();
    auction.bid(START + 2, ActorId::new(0, 99), PRICE + 100).unwrap();
    auction.bid(START + 3, ActorId::new(0, 5), PRICE + 100).unwrap();
    assert_eq!(auction.highest.max_by_value(), Some((ActorId::new(1, 0), PRICE + 100)));
    match auction.stop_if_time_is_over(expiry()) {
        Step::Call(call, sale) => {
            assert_eq!(call.request, NftRequest::Transfer { transaction_id: 0, to: ActorId::new(1, 0), token_id: TokenId::from_u128(7) });
            assert_eq!(sale, Sale { price: PRICE + 100, refund: 0 });
        }
        Step::Finish(_) => panic!("expected a transfer"),
    }
}

#[test]
fn settlement_without_offers() {
    let mut auction = running();
    assert_eq!(auction.stop_if_time_is_over(START + 1), Step::Finish(Ok((Event::Running, 0))));
    assert_eq!(auction.status, Status::IsRunning);
    assert_eq!(auction.stop_if_time_is_over(expiry()), Step::Finish(Ok((Event::Close, 0))));
    assert_eq!(auction.status, Status::Expired);
    assert_eq!(auction.stop_if_time_is_over(expiry()), Step::Finish(Ok((Event::Running, 0))));
    assert_eq!(auction.status, Status::IsRunning);
}

#[test]
fn pending_offer_before_the_end_goes_back_to_running() {
    let mut auction = running();
    auction.bid(START + 1, actor(30), PRICE).unwrap();
    assert_eq!(auction.stop_if_time_is_over(START + 2), Step::Finish(Ok((Event::Running, 0))));
    assert_eq!(auction.status, Status::IsRunning);
}

#[test]
fn force_stop_rules() {
    let mut auction = running();
    assert_eq!(auction.force_stop(actor(30), 3), Step::Finish(Err(Error::NotOwner)));
    let stopped = Event::AuctionStopped { token_owner: actor(10), token_id: TokenId::from_u128(7) };
    let step = auction.force_stop(actor(10), 3);
    assert_eq!(
        step,
        Step::Call(
            NftCall {
                contract: nft_contract(),
                request: NftRequest::Transfer { transaction_id: 3, to: actor(20), token_id: TokenId::from_u128(7) },
            },
            stopped
        )
    );
    assert_eq!(auction.finish_force_stop(stopped, NftOutcome::ReplyFailed), Err(Error::NftTransferFailed));
    assert_eq!(auction.status, Status::IsRunning);
    assert_eq!(auction.finish_force_stop(stopped, transferred()), Ok(stopped));
    assert_eq!(auction.status, Status::Stopped);

    auction.status = Status::Purchased { price: 9 };
    assert_eq!(auction.force_stop(actor(10), 3), Step::Finish(Err(Error::NotRewarded)));
    auction.status = Status::Rewarded { price: 9 };
    assert_eq!(auction.force_stop(actor(10), 3), Step::Finish(Ok(stopped)));
}

#[test]
fn reward_rules() {
    let mut auction = running();
    assert_eq!(auction.reward(actor(20)), Err(Error::WrongState));
    auction.status = Status::Purchased { price: 77 };
    assert_eq!(auction.reward(actor(10)), Err(Error::IncorrectRewarder));
    let payment = auction.reward(actor(20)).unwrap();
    assert_eq!(payment.to, actor(20));
    assert_eq!(payment.value, 77);
    assert_eq!(auction.finish_reward(77, false), Err(Error::RewardSendFailed));
    assert_eq!(auction.status, Status::Purchased { price: 77 });
    assert_eq!(auction.finish_reward(77, true), Ok(Event::Rewarded { price: 77 }));
    assert_eq!(auction.status, Status::Rewarded { price: 77 });
}

#[test]
fn transactions_are_kept_until_handled() {
    let mut auction = running();
    let create = Action::Create(config());
    assert_eq!(auction.open_transaction(actor(30), Action::Bid), Ok(0));
    assert_eq!(auction.open_transaction(actor(30), Action::Bid), Ok(0));
    assert_eq!(auction.open_transaction(actor(30), create), Err(Error::PreviousTxMustBeCompleted));
    assert_eq!(auction.open_transaction(actor(31), create), Ok(1));
    assert_eq!(auction.current_tid, 2);
    auction.close_transaction(actor(30), Action::Bid);
    assert_eq!(auction.transactions.get(&actor(30)), Some(Transaction { id: 0, action: Action::Bid }));
    auction.close_transaction(actor(31), create);
    assert_eq!(auction.transactions.get(&actor(31)), None);
    assert_eq!(auction.open_transaction(actor(31), Action::ForceStop), Ok(2));
}

#[test]
fn transaction_ids_wrap_around() {
    let mut auction = Auction::new(actor(10));
    auction.current_tid = u64::MAX;
    assert_eq!(auction.open_transaction(actor(30), Action::Reward), Ok(u64::MAX));
    assert_eq!(auction.current_tid, 0);
}

#[test]
fn info_reports_the_state() {
    let mut auction = running();
    auction.bid(START + 1, actor(30), PRICE).unwrap();
    auction.open_transaction(actor(30), Action::Bid).unwrap();
    let info = auction.info(START + 1000);
    assert_eq!(info.nft_contract_actor_id, nft_contract());
    assert_eq!(info.token_id, TokenId::from_u128(7));
    assert_eq!(info.token_owner, actor(20));
    assert_eq!(info.auction_owner, actor(10));
    assert_eq!(info.starting_price, PRICE);
    assert_eq!(info.current_price, PRICE);
    assert_eq!(info.time_left, expiry() - START - 1000);
    assert_eq!(info.expires_at, expiry());
    assert_eq!(info.status, Status::Offered);
    assert_eq!(info.highest.entries(), vec![(actor(30), PRICE)]);
    assert_eq!(info.transactions.entries(), vec![(actor(30), Transaction { id: 0, action: Action::Bid })]);
    assert_eq!(info.current_tid, 1);
    assert_eq!(auction.info(expiry() + 5).time_left, 0);
    assert_eq!(auction.status, Status::Offered);
}

#[test]
fn actor_map_operations() {
    let mut map: ActorMap<u128> = ActorMap::new();
    assert_eq!(map.max_by_value(), None);
    map.insert(actor(1), 10);
    map.insert(actor(2), 20);
    map.insert(actor(1), 30);
    assert_eq!(map.get(&actor(1)), Some(30));
    assert!(map.contains_key(&actor(2)));
    assert_eq!(map.max_by_value(), Some((actor(1), 30)));
    let copy = map.clone();
    map.remove(&actor(1));
    map.remove(&actor(9));
    assert_eq!(map.get(&actor(1)), None);
    assert_eq!(map.entries(), vec![(actor(2), 20)]);
    assert_eq!(copy.get(&actor(1)), Some(30));
}

#[test]
fn identifier_order() {
    assert!(ActorId::new(0, 5).is_before(&ActorId::new(0, 6)));
    assert!(ActorId::new(0, u128::MAX).is_before(&ActorId::new(1, 0)));
    assert!(!ActorId::new(1, 0).is_before(&ActorId::new(1, 0)));
    assert!(!ActorId::new(2, 0).is_before(&ActorId::new(1, 9)));
}
