use vstd::prelude::*;

use crate::address::Address;
use crate::runtime::{find_program_address, found_view, program_address_of};

verus! {

/// The seed prefix of the mint of each share.
pub open spec fn mint_seed_prefix() -> Seq<u8> {
    vstd::utf8::encode_utf8("token-mint"@)
}

/// The seed prefix of the account that lists the extra accounts of a mint's
/// transfer hook.
pub open spec fn meta_list_seed_prefix() -> Seq<u8> {
    vstd::utf8::encode_utf8("extra-account-metas"@)
}

/// The `k` low bytes of `n`, least significant first.
pub open spec fn le_bytes(n: nat, k: nat) -> Seq<u8>
    decreases k,
{
    if k == 0 {
        seq![]
    } else {
        seq![(n % 256) as u8] + le_bytes(n / 256, (k - 1) as nat)
    }
}

/// The seeds of the mint of the share issued under `index` by the token
/// manager at `manager`.
pub open spec fn mint_seeds(manager: Seq<u8>, index: u64) -> Seq<Seq<u8>> {
    seq![mint_seed_prefix(), manager, le_bytes(index as nat, 8)]
}

/// The seeds of the extra-account list of the transfer hook of `mint`.
pub open spec fn meta_list_seeds(mint: Seq<u8>) -> Seq<Seq<u8>> {
    seq![meta_list_seed_prefix(), mint]
}

/// The eight bytes of `n`, least significant first.
pub fn u64_le_bytes(n: u64) -> (r: Vec<u8>)
    ensures
        r@ == le_bytes(n as nat, 8),
{
    let mut out: Vec<u8> = Vec::new();
    let mut rest: u64 = n;
    let mut i: usize = 0;
    while i < 8
        invariant
            0 <= i <= 8,
            out@ + le_bytes(rest as nat, (8 - i) as nat) == le_bytes(n as nat, 8),
        decreases 8 - i,
    {
        let ghost before = out@;
        out.push((rest % 256) as u8);
        proof {
            assert(out@ + le_bytes((rest / 256) as nat, (8 - i - 1) as nat) =~= before + le_bytes(
                rest as nat,
                (8 - i) as nat,
            ));
        }
        rest = rest / 256;
        i = i + 1;
    }
    assert(out@ =~= le_bytes(n as nat, 8));
    out
}

/// The address of the mint of the share issued under `index` by the token
/// manager at `manager`, and its bump seed.
pub fn token_mint_address(program_id: &Address, manager: &Address, index: u64) -> (r: Option<
    (Address, u8),
>)
    ensures
        found_view(r) == program_address_of(mint_seeds(manager@, index), program_id@),
{
    let mut seeds: Vec<Vec<u8>> = Vec::new();
    seeds.push("token-mint".as_bytes_vec());
    seeds.push(manager.to_vec());
    seeds.push(u64_le_bytes(index));
    proof {
        assert(crate::runtime::seeds_view(seeds@) =~= mint_seeds(manager@, index));
    }
    find_program_address(&seeds, program_id)
}

/// The address of the account that lists the extra accounts of the
/// transfer hook of `mint`, and its bump seed.
pub fn extra_account_metas_address(program_id: &Address, mint: &Address) -> (r: Option<
    (Address, u8),
>)
    ensures
        found_view(r) == program_address_of(meta_list_seeds(mint@), program_id@),
{
    let mut seeds: Vec<Vec<u8>> = Vec::new();
    seeds.push("extra-account-metas".as_bytes_vec());
    seeds.push(mint.to_vec());
    proof {
        assert(crate::runtime::seeds_view(seeds@) =~= meta_list_seeds(mint@));
    }
    find_program_address(&seeds, program_id)
}

} // verus!
