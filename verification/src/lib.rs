//! A minimal price oracle.
//!
//! The oracle stores the latest exchange price for ordered pairs of asset
//! identifiers. Anyone may read a price; writing is gated on presenting an
//! administrative credential minted when the oracle is instantiated. Every
//! write sets both directions of a pair at once: the pair itself to the given
//! price and the reversed pair to its reciprocal.

pub mod decimal;
pub mod ledger;
pub mod store;
pub mod oracle;
pub mod laws;
