//! A two-leg swap of native currency for a fungible token: the requester pays
//! the payee first, then a vault pays the requester in tokens. The library
//! decides; the host performs each ledger call that it asks for.
pub mod amount;
pub mod error;
pub mod ledger;
pub mod authority;
pub mod swap;
pub mod laws;
