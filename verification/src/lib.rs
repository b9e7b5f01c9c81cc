//! State records of a liquidity-vault strategy and the protocol that creates one.
//!
//! The records are stored in accounts as fixed byte layouts ([`layout`],
//! [`codec`]); the vaults and the share mint of a strategy live at addresses
//! derived from the strategy's own address ([`derive`]); and a strategy is created
//! by a protocol that checks authority, the relationships between the records and
//! the derived addresses before it writes anything ([`init`]).

pub mod address;
pub mod arrays;
pub mod codec;
pub mod collateral;
pub mod derive;
pub mod init;
pub mod layout;
pub mod le;
pub mod parts;
pub mod policy;
pub mod strategy;
