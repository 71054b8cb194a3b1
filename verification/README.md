# seal-bid-auction

A sealed-bid auction for one non-fungible token, as a Gear program, whose state
and decisions are a library verified with Verus.

- `src/types.rs`: identifiers, messages, statuses, events and errors, and the
  requests the auction sends to the NFT contract (`NftRequest`) with how they
  end (`NftOutcome`).
- `src/actor_map.rs`: `ActorMap`, a map keyed by actor identifiers, viewed as a
  `Map`; `max_by_value` picks the highest offer, ties going to the identifier
  that comes last.
- `src/auction.rs`: the auction (`Auction`, viewed as `AuctionView`). Operations
  that wait for the NFT contract are split into steps: each step returns either
  the request to send (`Step::Call`) with what it needs to resume, or its result
  (`Step::Finish`).
- `src/laws.rs`: properties of the auction stated over several calls.
- `app/`: the program's entry points, which read messages and block time, send
  the requests and payments, and convert between the library's types and the
  encoded messages.
