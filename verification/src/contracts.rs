//! Concrete implementations of the capability contracts: the document
//! registry itself and reference in-memory ledgers for its collaborators.

pub mod managing_logic;
pub mod native_token;
pub mod nft_token;
