//! A document registry that binds each document to an append-only version
//! history and mirrors that history into a multi-asset ledger's attribute
//! table.

pub mod contracts;
pub mod data_structure;
pub mod erc721;
pub mod traits;
