use vstd::prelude::*;
use crate::address::Address;
use crate::error::MusicNftError;
use crate::nft::{
    MusicNft,
    buy_outcome,
    cancel_outcome,
    list_outcome,
    settlement_outcome,
    unlisted,
};
use crate::royalty::{lemma_royalty_split_exact, royalty_of};

verus! {

/// Listing an asset and then cancelling the listing leaves it unlisted with a
/// zero price, whatever price it had before and whatever price it was listed at.
pub proof fn lemma_list_then_cancel(n: MusicNft, caller: Address, price: u64)
    requires
        list_outcome(n, caller, price) is Ok,
    ensures
        cancel_outcome(list_outcome(n, caller, price)->Ok_0, caller) == Ok::<
            MusicNft,
            MusicNftError,
        >(unlisted(n)),
        !unlisted(n).for_sale,
        unlisted(n).price == 0,
{
}

/// A completed purchase of a well-formed listed asset hands it to the buyer,
/// off the market at a zero price, with its creator kept; the owner changes
/// unless the buyer already owned it.
pub proof fn lemma_buy_transfers_ownership(n: MusicNft, buyer: Address)
    requires
        n.wf(),
        n.for_sale,
    ensures
        buy_outcome(n, buyer, true) is Ok,
        ({
            let m = buy_outcome(n, buyer, true)->Ok_0;
            &&& m.owner == buyer
            &&& !m.for_sale
            &&& m.price == 0
            &&& m.creator == n.creator
            &&& buyer != n.owner ==> m.owner != n.owner
        }),
{
    lemma_royalty_split_exact(n.price, n.royalty_basis_points);
}

/// Only the current owner may list or cancel: anyone else gets `NotOwner`.
pub proof fn lemma_only_owner_lists_or_cancels(n: MusicNft, caller: Address, price: u64)
    requires
        caller != n.owner,
    ensures
        list_outcome(n, caller, price) == Err::<MusicNft, MusicNftError>(MusicNftError::NotOwner),
        cancel_outcome(n, caller) == Err::<MusicNft, MusicNftError>(MusicNftError::NotOwner),
{
}

/// Who buys never decides whether a purchase goes through: any two buyers
/// meet the same outcome, up to the new owner.
pub proof fn lemma_anyone_may_buy(n: MusicNft, a: Address, b: Address, transfers_completed: bool)
    ensures
        buy_outcome(n, a, transfers_completed) is Ok <==> buy_outcome(
            n,
            b,
            transfers_completed,
        ) is Ok,
        buy_outcome(n, a, transfers_completed) is Err ==> buy_outcome(n, a, transfers_completed)
            == buy_outcome(n, b, transfers_completed),
{
}

/// An unlisted asset cannot be bought: the purchase fails with `NotForSale`
/// before any transfer is named.
pub proof fn lemma_unlisted_not_for_sale(n: MusicNft, buyer: Address, transfers_completed: bool)
    requires
        !n.for_sale,
    ensures
        settlement_outcome(n) is Err,
        settlement_outcome(n)->Err_0 == MusicNftError::NotForSale,
        buy_outcome(n, buyer, transfers_completed) == Err::<MusicNft, MusicNftError>(
            MusicNftError::NotForSale,
        ),
{
}

/// A second cancellation right after a successful one succeeds too and
/// changes nothing.
pub proof fn lemma_cancel_idempotent(n: MusicNft, caller: Address)
    requires
        cancel_outcome(n, caller) is Ok,
    ensures
        cancel_outcome(cancel_outcome(n, caller)->Ok_0, caller) == cancel_outcome(n, caller),
{
    let once = cancel_outcome(n, caller)->Ok_0;
    assert(unlisted(once) == once);
}

/// The settlement of a well-formed listed asset pays out exactly its price:
/// the seller's amount and the royalty add up to it, and the royalty is at
/// most the price.
pub proof fn lemma_settlement_pays_price(n: MusicNft)
    requires
        n.wf(),
        n.for_sale,
    ensures
        settlement_outcome(n) is Ok,
        ({
            let s = settlement_outcome(n)->Ok_0;
            &&& s.royalty as int + s.seller_amount as int == n.price as int
            &&& s.royalty <= n.price
            &&& s.royalty as int == royalty_of(n.price, n.royalty_basis_points)
        }),
{
    lemma_royalty_split_exact(n.price, n.royalty_basis_points);
}

} // verus!
