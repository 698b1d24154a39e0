//! Deterministic addresses: where the configuration record is kept, and
//! where a wallet holds its tokens of a given asset type.
//!
//! Both are program-derived addresses. The search for such an address is the
//! work of `anchor_lang`; this module fixes the seeds and the deriving
//! program of each derivation and says what comes out in terms of that search.

use crate::identity::Identity;
use anchor_lang::prelude::Pubkey;
use vstd::prelude::*;

verus! {

/// The identity under which the presale program is deployed
/// (`5tz5xFvHNnJViiCZ3iHdgqrTC1GfcEvnB49KoxvQpR3D` in base 58).
pub const ID: [u8; 32] = [
    72, 191, 234, 102, 123, 117, 16, 86, 71, 71, 98, 168, 48, 13, 229, 75,
    226, 70, 202, 78, 255, 22, 31, 16, 202, 131, 101, 36, 45, 169, 248, 136,
];

/// The namespace tag of the configuration record: the ASCII bytes of `config`.
pub const CONFIG_SEED: [u8; 6] = [99, 111, 110, 102, 105, 103];

/// The identity of the token program
/// (`TokenkegQfeZyiNwAJbNbGKPFXCWuBvf9Ss623VQ5DA` in base 58).
pub const TOKEN_PROGRAM_ID: [u8; 32] = [
    6, 221, 246, 225, 215, 101, 161, 147, 217, 203, 225, 70, 206, 235, 121, 172,
    28, 180, 133, 237, 95, 91, 55, 145, 58, 140, 245, 133, 126, 255, 0, 169,
];

/// The identity of the associated-token-account program
/// (`ATokenGPvbdGVxr1b2hvZbsiqW5xWH25efTNsLJA8knL` in base 58).
pub const ASSOCIATED_TOKEN_PROGRAM_ID: [u8; 32] = [
    140, 151, 37, 143, 78, 36, 137, 241, 187, 61, 16, 41, 20, 142, 13, 131,
    11, 90, 19, 153, 218, 255, 16, 132, 4, 142, 123, 216, 219, 233, 248, 89,
];

/// What `Pubkey::try_find_program_address` returns for the given seeds and
/// deriving program: the derived address with its bump seed, or `None` where
/// the search finds no address. It depends on the seeds and the program alone.
pub uninterp spec fn spec_find_program_address(seeds: Seq<Seq<u8>>, program_id: Seq<u8>) -> Option<
    (Seq<u8>, u8),
>;

/// Calls `anchor_lang::prelude::Pubkey::try_find_program_address`.
///
/// Trusted: the result is the one that `spec_find_program_address` names for
/// the same seeds and program. The outside function returns `None` rather
/// than panic when the seeds are out of its limits or no bump seed fits.
#[verifier::external_body]
fn try_find_program_address(seeds: &Vec<Vec<u8>>, program_id: &Identity) -> (found: Option<
    (Identity, u8),
>)
    ensures
        match found {
            Some((address, bump)) => spec_find_program_address(seeds.deep_view(), program_id@)
                == Some((address@, bump)),
            None => spec_find_program_address(seeds.deep_view(), program_id@) is None,
        },
{
    let parts: Vec<&[u8]> = seeds.iter().map(|seed| seed.as_slice()).collect();
    let program = Pubkey::new_from_array(program_id.bytes);
    Pubkey::try_find_program_address(&parts, &program).map(
        |(address, bump)| (Identity { bytes: address.to_bytes() }, bump),
    )
}

/// Reads `anchor_spl::token::ID`.
///
/// Trusted: that constant holds the bytes of `TOKEN_PROGRAM_ID`.
#[verifier::external_body]
fn token_program_id() -> (id: Identity)
    ensures
        id@ == TOKEN_PROGRAM_ID@,
{
    Identity { bytes: anchor_spl::token::ID.to_bytes() }
}

/// Reads `anchor_spl::associated_token::ID`.
///
/// Trusted: that constant holds the bytes of `ASSOCIATED_TOKEN_PROGRAM_ID`.
#[verifier::external_body]
fn associated_token_program_id() -> (id: Identity)
    ensures
        id@ == ASSOCIATED_TOKEN_PROGRAM_ID@,
{
    Identity { bytes: anchor_spl::associated_token::ID.to_bytes() }
}

/// The bytes of an optional address.
pub open spec fn address_view(address: Option<Identity>) -> Option<Seq<u8>> {
    match address {
        Some(a) => Some(a@),
        None => None,
    }
}

/// The address found by a search, without its bump seed.
pub open spec fn found_address(found: Option<(Seq<u8>, u8)>) -> Option<Seq<u8>> {
    match found {
        Some((address, _)) => Some(address),
        None => None,
    }
}

/// The address at which the configuration record is kept: the one derived
/// for the presale program from the single seed `CONFIG_SEED`.
pub open spec fn spec_config_address() -> Option<Seq<u8>> {
    found_address(spec_find_program_address(seq![CONFIG_SEED@], ID@))
}

/// The address at which `wallet` holds its tokens of asset type `mint`: the
/// one derived for the associated-token-account program from the wallet, the
/// token program and the asset type, in this order.
pub open spec fn spec_associated_token_address(wallet: Seq<u8>, mint: Seq<u8>) -> Option<Seq<u8>> {
    found_address(
        spec_find_program_address(
            seq![wallet, TOKEN_PROGRAM_ID@, mint],
            ASSOCIATED_TOKEN_PROGRAM_ID@,
        ),
    )
}

/// The identity under which the presale program is deployed.
pub fn id() -> (id: Identity)
    ensures
        id@ == ID@,
{
    Identity::new(ID)
}

/// Derives the address of the configuration record.
pub fn config_address() -> (address: Option<Identity>)
    ensures
        address_view(address) == spec_config_address(),
{
    let mut seed: Vec<u8> = Vec::new();
    let mut i: usize = 0;
    while i < 6
        invariant
            i <= 6,
            seed@.len() == i,
            forall|j: int| 0 <= j < i ==> seed@[j] == CONFIG_SEED[j],
        decreases 6 - i,
    {
        seed.push(CONFIG_SEED[i]);
        i += 1;
    }
    assert(seed@ =~= CONFIG_SEED@);
    let mut seeds: Vec<Vec<u8>> = Vec::new();
    seeds.push(seed);
    assert(seeds.deep_view() =~~= seq![CONFIG_SEED@]);
    let program = id();
    match try_find_program_address(&seeds, &program) {
        Some((address, _)) => Some(address),
        None => None,
    }
}

/// Derives the address at which `wallet` holds its tokens of asset type
/// `mint`.
pub fn associated_token_address(wallet: &Identity, mint: &Identity) -> (address: Option<Identity>)
    ensures
        address_view(address) == spec_associated_token_address(wallet@, mint@),
{
    let token_program = token_program_id();
    let program = associated_token_program_id();
    let mut seeds: Vec<Vec<u8>> = Vec::new();
    seeds.push(wallet.to_vec());
    seeds.push(token_program.to_vec());
    seeds.push(mint.to_vec());
    assert(seeds.deep_view() =~~= seq![wallet@, TOKEN_PROGRAM_ID@, mint@]);
    match try_find_program_address(&seeds, &program) {
        Some((address, _)) => Some(address),
        None => None,
    }
}

} // verus!
