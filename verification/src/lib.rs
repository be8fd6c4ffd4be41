//! The decisions of a Cashu mint server that settles over Lightning.
//!
//! Every request handler of the server alternates calls to the mint or to the Lightning node
//! with decisions of its own. The decisions stand here: each takes what the last call returned
//! and says which call comes next and with what, or how the request is answered. The calls
//! themselves are the server's.
pub mod amount;
pub mod daemon;
pub mod invoice;
pub mod melt;
pub mod melt_quote;
pub mod mint_quote;
pub mod pending;
pub mod quote_state;
pub mod response;
pub mod router;
pub mod run;
