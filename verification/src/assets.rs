//! Which token a donation is paid in.

use vstd::prelude::*;

use crate::types::{Address, AssetInfo, CampaignData, Error, StellarAsset};

verus! {

/// The code of native XLM, the letters `XLM` in ASCII.
pub open spec fn xlm_code() -> Seq<u8> {
    seq![0x58u8, 0x4Cu8, 0x4Du8]
}

/// The accepted asset at `i` is the first one with the code of XLM.
pub open spec fn is_first_xlm(assets: Seq<StellarAsset>, i: int) -> bool {
    &&& 0 <= i < assets.len()
    &&& assets[i].asset_code@ == xlm_code()
    &&& forall|j: int| 0 <= j < i ==> (#[trigger] assets[j]).asset_code@ != xlm_code()
}

/// The token contract that stands for native XLM: the issuer of the first
/// accepted asset with the code of XLM, where there is one.
pub open spec fn native_token(assets: Seq<StellarAsset>) -> Option<Address> {
    if exists|i: int| is_first_xlm(assets, i) {
        assets[choose|i: int| is_first_xlm(assets, i)].issuer
    } else {
        None
    }
}

/// An accepted asset is issued by the given address.
pub open spec fn is_accepted_issuer(assets: Seq<StellarAsset>, issuer: Address) -> bool {
    exists|i: int| 0 <= i < assets.len() && (#[trigger] assets[i]).issuer == Some(issuer)
}

/// The token contract through which a donation in `asset` is paid, where the
/// accepted assets allow such a donation.
pub open spec fn token_for(asset: AssetInfo, assets: Seq<StellarAsset>) -> Option<Address> {
    match asset {
        AssetInfo::Stellar(token) => if is_accepted_issuer(assets, token) {
            Some(token)
        } else {
            None
        },
        AssetInfo::Native => native_token(assets),
    }
}

/// Tells whether an asset code is that of native XLM.
fn is_xlm_code(code: &Vec<u8>) -> (matches_xlm: bool)
    ensures
        matches_xlm == (code@ == xlm_code()),
{
    if code.len() == 3 && code[0] == 0x58 && code[1] == 0x4C && code[2] == 0x4D {
        assert(code@ =~= xlm_code());
        true
    } else {
        false
    }
}

/// Finds the issuer of the first accepted asset with the code of XLM.
fn find_native_token(assets: &Vec<StellarAsset>) -> (token: Option<Address>)
    ensures
        token == native_token(assets@),
{
    let mut i: usize = 0;
    while i < assets.len()
        invariant
            i <= assets.len(),
            forall|j: int| 0 <= j < i ==> (#[trigger] assets@[j]).asset_code@ != xlm_code(),
        decreases assets.len() - i,
    {
        if is_xlm_code(&assets[i].asset_code) {
            assert(is_first_xlm(assets@, i as int));
            return assets[i].issuer;
        }
        i = i + 1;
    }
    None
}

/// Tells whether an accepted asset is issued by the given address.
fn has_issuer(assets: &Vec<StellarAsset>, issuer: &Address) -> (found: bool)
    ensures
        found == is_accepted_issuer(assets@, *issuer),
{
    let mut i: usize = 0;
    while i < assets.len()
        invariant
            i <= assets.len(),
            forall|j: int| 0 <= j < i ==> (#[trigger] assets@[j]).issuer != Some(*issuer),
        decreases assets.len() - i,
    {
        if let Some(candidate) = assets[i].issuer {
            if candidate == *issuer {
                assert(assets@[i as int].issuer == Some(*issuer));
                return true;
            }
        }
        i = i + 1;
    }
    false
}

/// Returns the address of the token contract through which a donation in
/// `asset` is paid, provided that the campaign accepts that asset.
///
/// - A token is accepted where an accepted asset has it as its issuer.
/// - Native XLM is accepted where the first accepted asset with the code of
///   XLM has an issuer, which is then the token contract.
pub fn get_token_address_for_asset(asset: &AssetInfo, campaign: &CampaignData) -> (token: Result<
    Address,
    Error,
>)
    ensures
        match token_for(*asset, campaign.accepted_assets@) {
            Some(address) => token == Ok::<Address, Error>(address),
            None => token == Err::<Address, Error>(Error::AssetNotAccepted),
        },
{
    match asset {
        AssetInfo::Stellar(address) => {
            if has_issuer(&campaign.accepted_assets, address) {
                Ok(*address)
            } else {
                Err(Error::AssetNotAccepted)
            }
        },
        AssetInfo::Native => match find_native_token(&campaign.accepted_assets) {
            Some(address) => Ok(address),
            None => Err(Error::AssetNotAccepted),
        },
    }
}

} // verus!
