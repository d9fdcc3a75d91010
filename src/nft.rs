use vstd::prelude::*;
use vstd::string::StrSliceExecFns;
use crate::address::Address;
use crate::collection::MAX_URI_LEN;
use crate::error::MusicNftError;
use crate::royalty::{royalty_of, seller_share_of, split_price};

verus! {

/// Longest asset title, in characters.
pub const MAX_TITLE_LEN: usize = 100;

/// Highest royalty rate: the whole price.
pub const MAX_ROYALTY_BASIS_POINTS: u16 = 10000;

/// A minted track: who holds it, who made it, and whether it is on sale.
#[derive(Clone, Debug)]
pub struct MusicNft {
    /// The backing token unit issued for this asset.
    pub mint: Address,
    pub collection: Address,
    pub owner: Address,
    pub creator: Address,
    pub title: String,
    pub uri: String,
    pub royalty_basis_points: u16,
    pub for_sale: bool,
    /// Asking price; meaningful only while `for_sale` holds.
    pub price: u64,
}

impl MusicNft {
    /// Bounded metadata, a rate within the whole price, and a price that is
    /// positive exactly while the asset is listed.
    pub open spec fn wf(&self) -> bool {
        &&& self.title@.len() <= MAX_TITLE_LEN
        &&& self.uri@.len() <= MAX_URI_LEN
        &&& self.royalty_basis_points <= MAX_ROYALTY_BASIS_POINTS
        &&& self.for_sale <==> self.price > 0
    }
}

/// `n` put on sale at `price`.
pub open spec fn listed(n: MusicNft, price: u64) -> MusicNft {
    MusicNft { for_sale: true, price: price, ..n }
}

/// `n` taken off sale.
pub open spec fn unlisted(n: MusicNft) -> MusicNft {
    MusicNft { for_sale: false, price: 0, ..n }
}

/// `n` after a completed sale to `buyer`.
pub open spec fn sold_to(n: MusicNft, buyer: Address) -> MusicNft {
    MusicNft { owner: buyer, for_sale: false, price: 0, ..n }
}

/// What listing `n` at `price` on behalf of `caller` yields.
pub open spec fn list_outcome(n: MusicNft, caller: Address, price: u64) -> Result<MusicNft, MusicNftError> {
    if caller != n.owner {
        Err(MusicNftError::NotOwner)
    } else if price == 0 {
        Err(MusicNftError::InvalidPrice)
    } else {
        Ok(listed(n, price))
    }
}

/// What cancelling the listing of `n` on behalf of `caller` yields.
pub open spec fn cancel_outcome(n: MusicNft, caller: Address) -> Result<MusicNft, MusicNftError> {
    if caller != n.owner {
        Err(MusicNftError::NotOwner)
    } else {
        Ok(unlisted(n))
    }
}

/// The settlement that a purchase of `n` calls for, if it may go ahead.
pub open spec fn settlement_outcome(n: MusicNft) -> Result<SettlementReceipt, MusicNftError> {
    if !n.for_sale {
        Err(MusicNftError::NotForSale)
    } else if royalty_of(n.price, n.royalty_basis_points) > n.price {
        Err(MusicNftError::ArithmeticOverflow)
    } else {
        Ok(
            SettlementReceipt {
                seller: n.owner,
                seller_amount: seller_share_of(n.price, n.royalty_basis_points) as u64,
                creator: n.creator,
                royalty: royalty_of(n.price, n.royalty_basis_points) as u64,
                pays_creator: n.creator != n.owner,
            },
        )
    }
}

/// What a purchase of `n` by `buyer` yields, given whether the host completed
/// the value transfers of its settlement.
pub open spec fn buy_outcome(n: MusicNft, buyer: Address, transfers_completed: bool) -> Result<MusicNft, MusicNftError> {
    match settlement_outcome(n) {
        Err(e) => Err(e),
        Ok(_) => if transfers_completed {
            Ok(sold_to(n, buyer))
        } else {
            Err(MusicNftError::TransferFailed)
        },
    }
}

/// The value transfers of one purchase: the seller's leg and, where the seller
/// is not the creator, the royalty leg.
#[derive(Clone, Copy, Debug, PartialEq, Eq)]
pub struct SettlementReceipt {
    pub seller: Address,
    pub seller_amount: u64,
    pub creator: Address,
    pub royalty: u64,
    pub pays_creator: bool,
}

/// The accounts and arguments of a mint: the signer, the collection it goes
/// into, and the backing token unit the host issued for it.
#[derive(Clone, Copy, Debug)]
pub struct MintMusicNft {
    pub payer: Address,
    pub collection: Address,
    pub mint: Address,
}

/// A listing request: the signer and the asset.
#[derive(Clone, Debug)]
pub struct ListMusicNft {
    pub owner: Address,
    pub music_nft: MusicNft,
}

/// A purchase: the signing buyer and the asset.
#[derive(Clone, Debug)]
pub struct BuyMusicNft {
    pub buyer: Address,
    pub music_nft: MusicNft,
}

/// A cancellation request: the signer and the asset.
#[derive(Clone, Debug)]
pub struct CancelListing {
    pub owner: Address,
    pub music_nft: MusicNft,
}

/// Mints an unlisted asset owned and created by the signer.
///
/// Fails with `InvalidMetadata` when the title or the URI is too long, else
/// with `InvalidRoyalty` when the rate exceeds 10000 basis points.
pub fn mint_music_nft(
    ctx: &MintMusicNft,
    music_title: String,
    music_uri: String,
    royalty_basis_points: u16,
) -> (r: Result<MusicNft, MusicNftError>)
    ensures
        match r {
            Ok(n) => {
                &&& music_title@.len() <= MAX_TITLE_LEN
                &&& music_uri@.len() <= MAX_URI_LEN
                &&& royalty_basis_points <= MAX_ROYALTY_BASIS_POINTS
                &&& n.mint == ctx.mint
                &&& n.collection == ctx.collection
                &&& n.owner == ctx.payer
                &&& n.creator == ctx.payer
                &&& n.title@ == music_title@
                &&& n.uri@ == music_uri@
                &&& n.royalty_basis_points == royalty_basis_points
                &&& !n.for_sale
                &&& n.price == 0
                &&& n.wf()
            },
            Err(e) => if music_title@.len() > MAX_TITLE_LEN || music_uri@.len() > MAX_URI_LEN {
                e == MusicNftError::InvalidMetadata
            } else {
                &&& royalty_basis_points > MAX_ROYALTY_BASIS_POINTS
                &&& e == MusicNftError::InvalidRoyalty
            },
        },
{
    if music_title.as_str().unicode_len() > MAX_TITLE_LEN || music_uri.as_str().unicode_len()
        > MAX_URI_LEN {
        return Err(MusicNftError::InvalidMetadata);
    }
    if royalty_basis_points > MAX_ROYALTY_BASIS_POINTS {
        return Err(MusicNftError::InvalidRoyalty);
    }
    Ok(
        MusicNft {
            mint: ctx.mint,
            collection: ctx.collection,
            owner: ctx.payer,
            creator: ctx.payer,
            title: music_title,
            uri: music_uri,
            royalty_basis_points,
            for_sale: false,
            price: 0,
        },
    )
}

/// Puts the asset on sale at `price`, or moves the price of a listed one.
///
/// Only the owner may list (`NotOwner`), and the price must be positive
/// (`InvalidPrice`), so that a listed asset always has a price. On an error
/// nothing changes.
pub fn list_music_nft(ctx: &mut ListMusicNft, price: u64) -> (r: Result<(), MusicNftError>)
    ensures
        final(ctx).owner == old(ctx).owner,
        match r {
            Ok(()) => list_outcome(old(ctx).music_nft, old(ctx).owner, price) == Ok::<
                MusicNft,
                MusicNftError,
            >(final(ctx).music_nft),
            Err(e) => {
                &&& list_outcome(old(ctx).music_nft, old(ctx).owner, price) == Err::<
                    MusicNft,
                    MusicNftError,
                >(e)
                &&& final(ctx).music_nft == old(ctx).music_nft
            },
        },
        old(ctx).music_nft.wf() ==> final(ctx).music_nft.wf(),
{
    if !ctx.music_nft.owner.same_as(&ctx.owner) {
        return Err(MusicNftError::NotOwner);
    }
    if price == 0 {
        return Err(MusicNftError::InvalidPrice);
    }
    ctx.music_nft.for_sale = true;
    ctx.music_nft.price = price;
    Ok(())
}

/// Takes the asset off sale; on an unlisted asset this changes nothing.
///
/// Only the owner may cancel (`NotOwner`); on an error nothing changes.
pub fn cancel_listing(ctx: &mut CancelListing) -> (r: Result<(), MusicNftError>)
    ensures
        final(ctx).owner == old(ctx).owner,
        match r {
            Ok(()) => cancel_outcome(old(ctx).music_nft, old(ctx).owner) == Ok::<
                MusicNft,
                MusicNftError,
            >(final(ctx).music_nft),
            Err(e) => {
                &&& cancel_outcome(old(ctx).music_nft, old(ctx).owner) == Err::<
                    MusicNft,
                    MusicNftError,
                >(e)
                &&& final(ctx).music_nft == old(ctx).music_nft
            },
        },
        old(ctx).music_nft.wf() ==> final(ctx).music_nft.wf(),
{
    if !ctx.music_nft.owner.same_as(&ctx.owner) {
        return Err(MusicNftError::NotOwner);
    }
    ctx.music_nft.for_sale = false;
    ctx.music_nft.price = 0;
    Ok(())
}

/// The transfers a purchase of `music_nft` calls for: `seller_amount` to the
/// current owner and, where the creator is someone else, `royalty` to the
/// creator. Fails with `NotForSale` on an unlisted asset and with
/// `ArithmeticOverflow` when the royalty would exceed the price.
pub fn settlement_for(music_nft: &MusicNft) -> (r: Result<SettlementReceipt, MusicNftError>)
    ensures
        r == settlement_outcome(*music_nft),
{
    if !music_nft.for_sale {
        return Err(MusicNftError::NotForSale);
    }
    match split_price(music_nft.price, music_nft.royalty_basis_points) {
        Err(e) => Err(e),
        Ok((royalty, seller_amount)) => {
            let pays_creator = !music_nft.creator.same_as(&music_nft.owner);
            Ok(
                SettlementReceipt {
                    seller: music_nft.owner,
                    seller_amount,
                    creator: music_nft.creator,
                    royalty,
                    pays_creator,
                },
            )
        },
    }
}

/// Completes a purchase once the host has carried out, or failed, the
/// transfers that `settlement_for` named for this asset.
///
/// The asset passes to the buyer and leaves the market only when it was
/// listed, its price splits, and `transfers_completed` holds; otherwise the
/// error says which of these failed, in that order, and nothing changes. Any
/// identity may buy, the owner included.
pub fn buy_music_nft(ctx: &mut BuyMusicNft, transfers_completed: bool) -> (r: Result<
    SettlementReceipt,
    MusicNftError,
>)
    ensures
        final(ctx).buyer == old(ctx).buyer,
        match r {
            Ok(receipt) => {
                &&& settlement_outcome(old(ctx).music_nft) == Ok::<
                    SettlementReceipt,
                    MusicNftError,
                >(receipt)
                &&& buy_outcome(old(ctx).music_nft, old(ctx).buyer, transfers_completed) == Ok::<
                    MusicNft,
                    MusicNftError,
                >(final(ctx).music_nft)
            },
            Err(e) => {
                &&& buy_outcome(old(ctx).music_nft, old(ctx).buyer, transfers_completed) == Err::<
                    MusicNft,
                    MusicNftError,
                >(e)
                &&& final(ctx).music_nft == old(ctx).music_nft
            },
        },
        old(ctx).music_nft.wf() ==> final(ctx).music_nft.wf(),
{
    let receipt = match settlement_for(&ctx.music_nft) {
        Err(e) => return Err(e),
        Ok(receipt) => receipt,
    };
    if !transfers_completed {
        return Err(MusicNftError::TransferFailed);
    }
    ctx.music_nft.owner = ctx.buyer;
    ctx.music_nft.for_sale = false;
    ctx.music_nft.price = 0;
    Ok(receipt)
}

} // verus!
