//! Settlement and state-transition core of a music asset marketplace:
//! collections, minting, listing, purchase with a creator royalty, and
//! cancellation, each as a verified transition on plain records.

pub mod address;
pub mod error;
pub mod royalty;
pub mod collection;
pub mod nft;
pub mod laws;
