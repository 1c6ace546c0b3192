//! The narrow capability contracts the registry is built on: the registry's
//! own operation surface and the two ledgers it collaborates with.

pub mod managing_logic;
pub mod native_token;
pub mod nft_token;
