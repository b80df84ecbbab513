//! Slippage-protected swaps and bridge transfers between a base chain's coin and a
//! stable token: the amounts, the requests sent to the contracts, the decoding of
//! their answers and the decisions taken while a transaction is being confirmed.
pub mod abi;
pub mod amount;
pub mod bridge;
pub mod confirm;
pub mod error;
pub mod pricing;
