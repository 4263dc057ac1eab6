//! Decoding, rendering and rule checking of ledger transactions and blocks.
//!
//! - [`section`]: the diagnostic tree, a recursive report with error capture.
//! - [`render`] and [`block`]: trees for decoded transactions and blocks.
//! - [`params`]: the generic protocol parameters and their era-specific
//!   shapes, the network table, and defensive numeric parsing.
//! - [`utxo`]: spent outputs as a chain-data provider describes them.
//! - [`facts`], [`balance`] and [`engine`]: what the checks read, the asset
//!   balance, and the ordered battery of named checks of each era.
//! - [`validate`]: era dispatch and the public entry points.
//! - [`ledger`] and [`hex_text`]: the calls into the ledger codec and the
//!   hexadecimal codec.

pub mod balance;
pub mod block;
pub mod engine;
pub mod facts;
pub mod hex_text;
pub mod ledger;
pub mod params;
pub mod render;
pub mod section;
pub mod utxo;
pub mod validate;
pub mod validation;
