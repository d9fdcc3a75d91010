use vstd::prelude::*;
use crate::error::MusicNftError;

verus! {

/// Basis points that make up the whole price.
pub const BASIS_POINTS_DENOMINATOR: u16 = 10000;

/// The royalty owed on `price` at `basis_points`, rounded down.
pub open spec fn royalty_of(price: u64, basis_points: u16) -> int {
    (price as int * basis_points as int) / 10000
}

/// What remains for the seller once the royalty is taken out of `price`.
pub open spec fn seller_share_of(price: u64, basis_points: u16) -> int {
    price as int - royalty_of(price, basis_points)
}

/// Splits `price` into `(royalty, seller_amount)`.
///
/// The product is formed in 128 bits, so it never overflows; the split fails
/// only when the royalty would exceed the price (a rate above 10000 on a
/// positive price).
pub fn split_price(price: u64, basis_points: u16) -> (r: Result<(u64, u64), MusicNftError>)
    ensures
        match r {
            Ok((royalty, seller_amount)) => {
                &&& royalty_of(price, basis_points) <= price
                &&& royalty as int == royalty_of(price, basis_points)
                &&& seller_amount as int == seller_share_of(price, basis_points)
            },
            Err(e) => {
                &&& e == MusicNftError::ArithmeticOverflow
                &&& royalty_of(price, basis_points) > price
            },
        },
        basis_points <= 10000 ==> r is Ok,
        r matches Ok((royalty, seller_amount)) ==> royalty + seller_amount == price,
{
    if basis_points <= BASIS_POINTS_DENOMINATOR {
        proof {
            lemma_royalty_split_exact(price, basis_points);
        }
    }
    assert(price as int * basis_points as int <= u64::MAX as int * u16::MAX as int) by (nonlinear_arith);
    let product: u128 = price as u128 * basis_points as u128;
    let royalty_wide: u128 = product / (BASIS_POINTS_DENOMINATOR as u128);
    if royalty_wide > price as u128 {
        return Err(MusicNftError::ArithmeticOverflow);
    }
    let royalty: u64 = royalty_wide as u64;
    Ok((royalty, price - royalty))
}

/// A rate of at most 10000 basis points never asks for more than the price,
/// and the royalty and the seller's share add up to the price exactly.
pub proof fn lemma_royalty_split_exact(price: u64, basis_points: u16)
    requires
        basis_points <= 10000,
    ensures
        0 <= royalty_of(price, basis_points) <= price,
        royalty_of(price, basis_points) + seller_share_of(price, basis_points) == price,
{
    assert(0 <= (price as int * basis_points as int) / 10000 <= price) by (nonlinear_arith)
        requires
            basis_points <= 10000,
    ;
}

} // verus!
