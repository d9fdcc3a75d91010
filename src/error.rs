use vstd::prelude::*;

verus! {

/// Why an operation on a collection or an asset was refused.
#[derive(Clone, Copy, Debug, PartialEq, Eq, Structural)]
pub enum MusicNftError {
    /// The caller is not the asset's current owner.
    NotOwner,
    /// A purchase was attempted on an asset that is not listed.
    NotForSale,
    /// A descriptive field is longer than its bound.
    InvalidMetadata,
    /// A royalty rate lies outside `[0, 10000]` basis points.
    InvalidRoyalty,
    /// A listing price of zero.
    InvalidPrice,
    /// The host reported that a value transfer of a purchase did not complete.
    TransferFailed,
    /// The royalty exceeds the price, so the seller's share cannot be formed.
    ArithmeticOverflow,
}

} // verus!
