//! Accounting core of a leveraged trading protocol, verified with Verus.
//!
//! Users post collateral to open long or short positions of up to ten times
//! leverage against an outside liquidity pool; lenders fund the shorts through
//! a share-accounted pool. Every operation takes the ledgers it touches and
//! either applies all of its changes or, refused, none of them. Trades against
//! the pool are performed by the caller: the library works out what to trade
//! (`engine::quote_open`, `amm`) and settles from the vault balances read
//! around the trade (`state::VaultReading`).
//!
//! - `state`: the ledgers, events and errors.
//! - `math`: fixed-point fees, prices and liquidation thresholds.
//! - `layout`: little-endian words and keys in account data.
//! - `amm`: the pool's price, instruction data and trade settlement.
//! - `ledger`, `lending`, `market`: user balances, the lending pool, market setup.
//! - `engine`: opening, closing and liquidating positions.

pub mod amm;
pub mod engine;
pub mod layout;
pub mod ledger;
pub mod lending;
pub mod market;
pub mod math;
pub mod state;
