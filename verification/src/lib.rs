//! Guards of the Mirror mint contract and the token-balance query of the
//! governance contract, with their contracts proved.
pub mod decimal;
pub mod host;
pub mod asset;
pub mod state;
pub mod error;
pub mod asserts;
pub mod querier;
pub mod laws;
