//! A sealed-bid auction for a single non-fungible token: the owner puts a token
//! up for a limited time, bidders make offers at or above the starting price, and
//! when the time is over the token goes to the highest offer.
//!
//! The library holds the auction's state and every decision it takes. What the
//! auction asks of the NFT contract is returned as a request, and the outcome of
//! that request is handed back to the step that waits for it.

pub mod actor_map;
pub mod auction;
pub mod laws;
pub mod types;
