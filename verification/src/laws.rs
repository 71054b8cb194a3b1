use vstd::prelude::*;

use crate::actor_map::{is_top_entry, lemma_top_entry_exists, top_entry};
use crate::auction::{approval_verdict, owner_verdict, refund_of, AuctionView, MIN_REFUND};
use crate::types::{Action, ActorId, Duration, Error, Event, NftOutcome, NftReply, Status};

verus! {

/// A new auction satisfies the invariant, and holds no offer and no pending
/// request.
pub proof fn law_new_auction_is_well_formed(owner: ActorId)
    ensures
        AuctionView::initial(owner).wf(),
        AuctionView::initial(owner).highest == Map::<ActorId, u128>::empty(),
        AuctionView::initial(owner).transactions.dom().is_empty(),
{
}

/// The offer that wins a settlement is at least every other offer, and there is
/// one as soon as there is any offer.
pub proof fn law_winning_offer_is_highest(m: Map<ActorId, u128>)
    requires
        m.dom().finite(),
    ensures
        top_entry(m) is None <==> m.dom().is_empty(),
        top_entry(m) matches Some((k, p)) ==> m.contains_key(k) && m[k] == p && forall|j: ActorId|
            #[trigger] m.contains_key(j) ==> m[j] <= p,
{
    if m.dom().len() > 0 {
        lemma_top_entry_exists(m);
        let k = choose|k: ActorId| is_top_entry(m, k);
        assert(m.contains_key(k));
    } else {
        assert(m.dom().is_empty());
        if exists|k: ActorId| is_top_entry(m, k) {
            let k = choose|k: ActorId| is_top_entry(m, k);
            assert(m.dom().contains(k));
        }
    }
}

/// Among equal highest offers, the settlement picks the bidder that comes last in
/// the order of identifiers.
pub proof fn law_ties_go_to_the_last_bidder(m: Map<ActorId, u128>, a: ActorId, b: ActorId)
    requires
        m.dom().finite(),
        m.contains_key(a),
        m.contains_key(b),
        m[a] == m[b],
        a.precedes(b),
    ensures
        top_entry(m) matches Some((k, _)) && k != a,
{
    lemma_top_entry_exists(m);
    let k = choose|k: ActorId| is_top_entry(m, k);
    assert(m.contains_key(a));
}

/// In a well-formed auction with an offer pending, the offer that wins reaches the
/// starting price, so that the auction can be settled.
pub proof fn law_pending_offer_covers_price(v: AuctionView)
    requires
        v.highest.dom().finite(),
        v.wf(),
        v.status == crate::types::Status::Offered,
    ensures
        v.sale_offer().1 >= v.starting_price,
{
    let k = choose|k: ActorId| #[trigger] v.highest.contains_key(k) && v.highest[k] >= v.starting_price;
    assert(v.highest.dom().contains(k));
    lemma_top_entry_exists(v.highest);
    let t = choose|t: ActorId| is_top_entry(v.highest, t);
    assert(v.highest.contains_key(k));
}

/// A bidder never gets back more than they paid above the price, and gets all of
/// it back from `MIN_REFUND` on.
pub proof fn law_refund_within_overpayment(overpaid: u128)
    ensures
        refund_of(overpaid) <= overpaid,
        overpaid >= MIN_REFUND ==> refund_of(overpaid) == overpaid,
        overpaid < MIN_REFUND ==> refund_of(overpaid) == 0,
        MIN_REFUND == 500,
{
}

/// Sending the same request again while it is pending changes nothing and gives
/// the same transaction id.
pub proof fn law_repeated_request_keeps_its_transaction(v: AuctionView, source: ActorId, action: Action)
    ensures
        ({
            let (after, r) = v.opened(source, action);
            r is Ok ==> after.opened(source, action) == (after, r)
        }),
{
}

/// While a request from a sender is pending, any other request from that sender
/// is refused and changes nothing.
pub proof fn law_pending_request_blocks_other_requests(
    v: AuctionView,
    source: ActorId,
    action: Action,
    other: Action,
)
    requires
        other != action,
    ensures
        ({
            let (after, r) = v.opened(source, action);
            r is Ok ==> after.opened(source, other) == (after, Err::<u64, Error>(
                Error::PreviousTxMustBeCompleted,
            ))
        }),
{
}

/// Once a request other than an offer has been handled, its sender has nothing
/// pending; an offer stays pending.
pub proof fn law_handled_request_is_forgotten(v: AuctionView, source: ActorId, action: Action)
    ensures
        ({
            let (after, r) = v.opened(source, action);
            &&& action != Action::Bid ==> !after.closed(source, action).transactions.contains_key(source)
            &&& action == Action::Bid ==> after.closed(source, action).transactions.contains_key(source)
        }),
{
}

/// Each new transaction gets the next id, and the other senders' pending
/// requests are untouched.
pub proof fn law_new_transaction_takes_next_id(v: AuctionView, source: ActorId, action: Action)
    requires
        !v.transactions.contains_key(source),
    ensures
        ({
            let (after, r) = v.opened(source, action);
            &&& r == Ok::<u64, Error>(v.current_tid)
            &&& after.transactions[source].id == v.current_tid
            &&& after.current_tid == (if v.current_tid == u64::MAX {
                0
            } else {
                v.current_tid + 1
            })
            &&& forall|k: ActorId| k != source ==> #[trigger] after.transactions.contains_key(k)
                == v.transactions.contains_key(k) && (v.transactions.contains_key(k) ==> after.transactions[k]
                == v.transactions[k])
        }),
{
}

/// When the auction is settled, the winner pays exactly their own offer, and that
/// offer is at least every other one, ties going to the identifier that comes
/// last; with no offer nobody wins, at price zero.
pub proof fn law_settlement_charges_the_winners_offer(v: AuctionView)
    requires
        v.highest.dom().finite(),
    ensures
        v.highest.dom().is_empty() ==> v.sale_offer() == (ActorId { high: 0, low: 0 }, 0u128),
        !v.highest.dom().is_empty() ==> {
            let (winner, price) = v.sale_offer();
            &&& v.highest.contains_key(winner)
            &&& price == v.highest[winner]
            &&& forall|j: ActorId| #[trigger]
                v.highest.contains_key(j) ==> v.highest[j] < price || (v.highest[j] == price && (j
                    == winner || j.precedes(winner)))
        },
{
    let m = v.highest;
    if m.dom().is_empty() {
        if exists|k: ActorId| is_top_entry(m, k) {
            let k = choose|k: ActorId| is_top_entry(m, k);
            assert(m.dom().contains(k));
        }
    } else {
        let k0 = m.dom().choose();
        assert(m.dom().contains(k0));
        assert(m.dom().len() > 0);
        lemma_top_entry_exists(m);
        let k = choose|k: ActorId| is_top_entry(m, k);
        assert(is_top_entry(m, k));
    }
}

/// An auction is under way, and so cannot be started again, exactly while it runs
/// or holds an offer.
pub proof fn law_auction_under_way_while_running_or_offered(v: AuctionView)
    ensures
        v.status == Status::IsRunning ==> v.is_running(),
        v.status == Status::Offered ==> v.is_running(),
        v.is_running() ==> v.status == Status::IsRunning || v.status == Status::Offered,
{
}

/// A forced stop announces the auction's own owner and the auctioned token,
/// whatever the status.
pub proof fn law_stop_announces_the_auction_owner(v: AuctionView)
    ensures
        v.stopped_event() == (Event::AuctionStopped { token_owner: v.owner, token_id: v.nft.token_id }),
{
}

/// The transfer is approved only by a reply that says so; a request that could
/// not be sent is a sending error, and an unexpected reply is a wrong reply.
pub proof fn law_approval_needs_an_approving_reply(outcome: NftOutcome)
    ensures
        approval_verdict(outcome) is Ok <==> outcome == NftOutcome::Replied(
            NftReply::IsApproved { approved: true },
        ),
        outcome == NftOutcome::SendFailed ==> approval_verdict(outcome) == Err::<(), Error>(
            Error::SendingError,
        ),
        outcome == NftOutcome::ReplyFailed ==> approval_verdict(outcome) == Err::<(), Error>(
            Error::NftNotApproved,
        ),
        outcome == NftOutcome::Replied(NftReply::IsApproved { approved: false }) ==> approval_verdict(
            outcome,
        ) == Err::<(), Error>(Error::NftNotApproved),
        outcome is Replied && !(outcome->Replied_0 is IsApproved) ==> approval_verdict(outcome) == Err::<
            (),
            Error,
        >(Error::WrongReply),
{
}

/// The token's owner is the one the NFT contract names in its reply; a request
/// that could not be sent is a sending error, no reply is a failure to learn the
/// owner, and an unexpected reply is a wrong reply.
pub proof fn law_owner_is_the_one_named(outcome: NftOutcome, owner: ActorId)
    ensures
        outcome == NftOutcome::Replied(NftReply::Owner { owner }) ==> owner_verdict(outcome) == Ok::<
            ActorId,
            Error,
        >(owner),
        owner_verdict(outcome) == Ok::<ActorId, Error>(owner) ==> outcome == NftOutcome::Replied(
            NftReply::Owner { owner },
        ),
        outcome == NftOutcome::SendFailed ==> owner_verdict(outcome) == Err::<ActorId, Error>(
            Error::SendingError,
        ),
        outcome == NftOutcome::ReplyFailed ==> owner_verdict(outcome) == Err::<ActorId, Error>(
            Error::NftOwnerFailed,
        ),
        outcome is Replied && !(outcome->Replied_0 is Owner) ==> owner_verdict(outcome) == Err::<
            ActorId,
            Error,
        >(Error::WrongReply),
{
}

/// An auction's duration counts hours, minutes and seconds.
pub proof fn law_duration_in_seconds(d: Duration)
    ensures
        d.in_seconds() == d.hours * 3600 + d.minutes * 60 + d.seconds,
        d.in_millis() == d.in_seconds() * 1000,
{
}

} // verus!
