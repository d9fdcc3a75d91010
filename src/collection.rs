use vstd::prelude::*;
use vstd::string::StrSliceExecFns;
use crate::address::Address;
use crate::error::MusicNftError;

verus! {

/// Longest collection name, in characters.
pub const MAX_NAME_LEN: usize = 64;

/// Longest collection symbol, in characters.
pub const MAX_SYMBOL_LEN: usize = 12;

/// Longest metadata URI, in characters.
pub const MAX_URI_LEN: usize = 200;

/// Royalty rate that every new collection starts with (5%).
pub const DEFAULT_ROYALTY_BASIS_POINTS: u16 = 500;

/// A named grouping of assets with a default royalty rate.
#[derive(Clone, Debug)]
pub struct MusicCollection {
    pub authority: Address,
    pub name: String,
    pub symbol: String,
    pub uri: String,
    pub royalty_basis_points: u16,
}

impl MusicCollection {
    pub open spec fn wf(&self) -> bool {
        &&& self.name@.len() <= MAX_NAME_LEN
        &&& self.symbol@.len() <= MAX_SYMBOL_LEN
        &&& self.uri@.len() <= MAX_URI_LEN
        &&& self.royalty_basis_points <= 10000
    }
}

/// The accounts of the no-op setup call.
#[derive(Clone, Copy, Debug)]
pub struct Initialize {
    pub payer: Address,
}

/// The accounts of a collection's creation: the signer who becomes its authority.
#[derive(Clone, Copy, Debug)]
pub struct InitializeMusicCollection {
    pub authority: Address,
}

/// Setup call of the program; it has nothing to decide and always succeeds.
pub fn initialize(_ctx: &Initialize) -> (r: Result<(), MusicNftError>)
    ensures
        r is Ok,
{
    Ok(())
}

/// Creates a collection owned by the signing authority, at the default royalty rate.
///
/// Fails with `InvalidMetadata` when the name, the symbol or the URI is longer
/// than its bound.
pub fn initialize_music_collection(
    ctx: &InitializeMusicCollection,
    collection_name: String,
    collection_symbol: String,
    collection_uri: String,
) -> (r: Result<MusicCollection, MusicNftError>)
    ensures
        (collection_name@.len() <= MAX_NAME_LEN && collection_symbol@.len() <= MAX_SYMBOL_LEN
            && collection_uri@.len() <= MAX_URI_LEN) <==> r is Ok,
        r is Err ==> r->Err_0 == MusicNftError::InvalidMetadata,
        r is Ok ==> {
            let c = r->Ok_0;
            &&& c.authority == ctx.authority
            &&& c.name@ == collection_name@
            &&& c.symbol@ == collection_symbol@
            &&& c.uri@ == collection_uri@
            &&& c.royalty_basis_points == DEFAULT_ROYALTY_BASIS_POINTS
            &&& c.wf()
        },
{
    if collection_name.as_str().unicode_len() > MAX_NAME_LEN
        || collection_symbol.as_str().unicode_len() > MAX_SYMBOL_LEN
        || collection_uri.as_str().unicode_len() > MAX_URI_LEN {
        return Err(MusicNftError::InvalidMetadata);
    }
    Ok(
        MusicCollection {
            authority: ctx.authority,
            name: collection_name,
            symbol: collection_symbol,
            uri: collection_uri,
            royalty_basis_points: DEFAULT_ROYALTY_BASIS_POINTS,
        },
    )
}

} // verus!
