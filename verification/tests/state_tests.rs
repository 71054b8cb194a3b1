use seal_bid_auction::auction::Auction;
use seal_bid_auction::types::{
    Action, ActorId, CreateConfig, Duration, NftOutcome, NftReply, NftRequest, Status, Step, TokenId,
};

const DURATION: u32 = 169 * 60 * 60 * 1000;
const START: u64 = 1_000_000;

fn owner() -> ActorId {
    ActorId::new(0, 3)
}

/// An auction that its owner has started, with an NFT contract that approves,
/// names the owner and transfers.
fn started_auction() -> Auction {
    let mut auction = Auction::new(owner());
    let config = CreateConfig {
        nft_contract_actor_id: ActorId::new(0, 2),
        token_id: TokenId::from_u128(0),
        starting_price: 1_000_000_000,
        duration: Duration { hours: 168, minutes: 0, seconds: 0 },
    };
    let action = Action::Create(config);
    let transaction_id = auction.open_transaction(owner(), action).unwrap();
    let mut step = auction.renew_contract(transaction_id, &config, ActorId::new(0, 1));
    let result = loop {
        match step {
            Step::Finish(r) => break r,
            Step::Call(call, renewal) => {
                let outcome = match call.request {
                    NftRequest::IsApproved { .. } => NftOutcome::Replied(NftReply::IsApproved { approved: true }),
                    NftRequest::Owner { .. } => NftOutcome::Replied(NftReply::Owner { owner: owner() }),
                    NftRequest::Transfer { .. } => NftOutcome::Replied(NftReply::Other),
                };
                step = auction.continue_renewal(renewal, outcome, START);
            }
        }
    };
    assert!(result.is_ok());
    auction.close_transaction(owner(), action);
    auction
}

#[test]
fn is_not_active_after_time_is_over() {
    let mut auction = started_auction();
    let later = START + DURATION as u64 * 1000;
    let status = auction.info(later).status;
    println!("{:?}", status);
    assert!(!matches!(status, Status::Expired))
}

#[test]
fn is_active_before_deal() {
    let mut auction = started_auction();
    let status = auction.info(START + 1).status;
    println!("{:?}", status);
    assert!(matches!(status, Status::IsRunning));
}
