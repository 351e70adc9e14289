use vstd::prelude::*;

use anchor_lang::prelude::Pubkey;
use spl_tlv_account_resolution::state::ExtraAccountMetaList;
use spl_token_2022::extension::ExtensionType;

use crate::address::Address;

verus! {

/// The program-derived address of `seeds` under the program `program_id`,
/// with its bump seed, where one exists.
pub uninterp spec fn program_address_of(seeds: Seq<Seq<u8>>, program_id: Seq<u8>) -> Option<
    (Seq<u8>, u8),
>;

/// The data length of a mint account that carries the extensions with the
/// given type codes, where it can be computed.
pub uninterp spec fn mint_len_with(extensions: Seq<u16>) -> Option<usize>;

/// The data length of an account that holds a list of `num_items` extra
/// account metas: an eight-byte discriminator and a four-byte length, then
/// a four-byte item count and 35 bytes per item. There is none where the
/// item count and the items overflow `usize`; the whole saturates.
pub open spec fn meta_list_len_of(num_items: usize) -> Option<usize> {
    let items = 35 * num_items + 4;
    if items > usize::MAX {
        None
    } else if 12 + items > usize::MAX {
        Some(usize::MAX)
    } else {
        Some((12 + items) as usize)
    }
}

/// The model of the result of a search for a program-derived address.
pub open spec fn found_view(r: Option<(Address, u8)>) -> Option<(Seq<u8>, u8)> {
    match r {
        Some(p) => Some((p.0@, p.1)),
        None => None,
    }
}

/// The models of a list of seeds.
pub open spec fn seeds_view(seeds: Seq<Vec<u8>>) -> Seq<Seq<u8>> {
    seeds.map_values(|s: Vec<u8>| s@)
}

/// Relies on `Pubkey::try_find_program_address` of solana_program (through
/// anchor_lang): the search for the program-derived address of the seeds and
/// its bump seed, a function of the seeds and the program id alone.
#[verifier::external_body]
pub(crate) fn find_program_address(seeds: &Vec<Vec<u8>>, program_id: &Address) -> (r: Option<
    (Address, u8),
>)
    ensures
        found_view(r) == program_address_of(seeds_view(seeds@), program_id@),
{
    let slices: Vec<&[u8]> = seeds.iter().map(|s| s.as_slice()).collect();
    let program = Pubkey::new_from_array(program_id.bytes);
    Pubkey::try_find_program_address(&slices, &program).map(
        |(key, bump)| (Address { bytes: key.to_bytes() }, bump),
    )
}

/// Relies on `ExtensionType::try_calculate_account_len::<Mint>` of
/// spl_token_2022: the data length of a mint account with the extensions,
/// a function of the extension types alone. A code that names no extension
/// type gives no length.
#[verifier::external_body]
pub(crate) fn mint_account_len(extensions: &Vec<u16>) -> (r: Option<usize>)
    ensures
        r == mint_len_with(extensions@),
{
    let mut types: Vec<ExtensionType> = Vec::new();
    for code in extensions.iter() {
        match ExtensionType::try_from(*code) {
            Ok(t) => types.push(t),
            Err(_) => return None,
        }
    }
    ExtensionType::try_calculate_account_len::<spl_token_2022::state::Mint>(&types).ok()
}

/// Relies on `ExtraAccountMetaList::size_of` of spl_tlv_account_resolution:
/// the data length of the account that lists the extra accounts of a
/// transfer hook. It adds the TLV header (`get_base_len`: an 8-byte
/// discriminator and a 4-byte length) to `PodSlice::size_of`, which is
/// `size_of::<ExtraAccountMeta>()` (35 bytes) times the count plus a 4-byte
/// count, checked for overflow.
#[verifier::external_body]
pub(crate) fn extra_account_meta_list_len(num_items: usize) -> (r: Option<usize>)
    ensures
        r == meta_list_len_of(num_items),
{
    ExtraAccountMetaList::size_of(num_items).ok()
}

} // verus!
