use vstd::prelude::*;

use crate::address::Address;
use crate::error::TokenManagerError;
use crate::metadata::{
    byte_len, calculate_metadata_space, lemma_encode_concat, lemma_encode_len_bound,
    metadata_space, share_name, share_name_of,
};
use crate::pda::{extra_account_metas_address, meta_list_seeds, mint_seeds, token_mint_address};
use crate::runtime::{
    extra_account_meta_list_len, meta_list_len_of, mint_account_len, mint_len_with,
    program_address_of,
};
use crate::state::{TokenManager, TokenManagerView, ISIN_LEN, MAX_TOKENS, MAX_WHITELIST};

verus! {

/// The type code of the transfer-hook extension of a mint.
pub const TRANSFER_HOOK_EXTENSION: u16 = 14;

/// The type code of the metadata-pointer extension of a mint.
pub const METADATA_POINTER_EXTENSION: u16 = 18;

/// The extensions that each share's mint carries.
pub open spec fn share_mint_extensions() -> Seq<u16> {
    seq![TRANSFER_HOOK_EXTENSION, METADATA_POINTER_EXTENSION]
}

/// What the instruction that sets up a token manager reads and writes.
pub struct InitializeTokenManager {
    /// The wallet that signs and becomes the creator.
    pub signer: Address,
    /// The state of the token manager.
    pub token_manager: TokenManager,
}

/// Sets up the token manager: no shares, an empty whitelist, the counter at
/// zero, and the signer as its creator.
pub fn initialize_token_manager(ctx: &mut InitializeTokenManager) -> (r: Result<
    (),
    TokenManagerError,
>)
    ensures
        r is Ok,
        final(ctx).signer == old(ctx).signer,
        final(ctx).token_manager@.creator == old(ctx).signer@,
        final(ctx).token_manager@.current_token_index == 0,
        final(ctx).token_manager@.tokens.len() == 0,
        final(ctx).token_manager@.whitelist.len() == 0,
        final(ctx).token_manager@.wf(),
{
    ctx.token_manager = TokenManager::new(ctx.signer);
    Ok(())
}

/// What the instruction that issues a share reads and writes.
pub struct CreateNewShare {
    /// The id of this program.
    pub program_id: Address,
    /// The address of the token manager's account.
    pub token_manager_key: Address,
    /// The state of the token manager.
    pub token_manager: TokenManager,
    /// The account given for the new mint.
    pub token_mint: Address,
    /// The account given for the list of the hook's extra accounts.
    pub extra_account_meta_list: Address,
}

/// An account that the runtime passes to the transfer hook besides the
/// accounts of the transfer.
#[derive(Clone, Copy, Debug)]
pub struct ExtraAccount {
    pub key: Address,
    pub is_signer: bool,
    pub is_writable: bool,
}

/// What the runtime must create for a newly issued share: the mint with its
/// transfer hook and metadata, and the account that lists the hook's extra
/// accounts.
pub struct ShareSetup {
    /// The index under which the share is issued.
    pub index: u64,
    /// The address of the mint, derived from the token manager and the index.
    pub mint: Address,
    pub mint_bump: u8,
    /// The address of the extra-account list, derived from the mint.
    pub extra_account_meta_list: Address,
    pub meta_list_bump: u8,
    pub decimals: u8,
    /// Who may mint further tokens, and who may freeze token accounts.
    pub mint_authority: Address,
    pub freeze_authority: Address,
    /// Who may change the transfer hook, and the program it calls.
    pub hook_authority: Address,
    pub hook_program: Address,
    /// Who may update the metadata.
    pub metadata_authority: Address,
    /// The accounts that the list of the hook's extra accounts holds.
    pub extra_accounts: Vec<ExtraAccount>,
    /// The metadata of the mint.
    pub name: String,
    pub symbol: String,
    pub uri: String,
    /// The data length of the mint account with its extensions.
    pub token_space: usize,
    /// The space reserved for the metadata.
    pub metadata_space: usize,
    /// The data length of the extra-account list, which holds one item.
    pub meta_list_space: usize,
}

/// Why the registry refuses to issue a share under `isin`, if it does.
pub open spec fn issue_error(m: TokenManagerView, isin: Seq<char>) -> Option<TokenManagerError> {
    if byte_len(isin) != ISIN_LEN {
        Some(TokenManagerError::InvalidIsinLength)
    } else if m.token_for(isin) is Some {
        Some(TokenManagerError::DuplicateIsin)
    } else if m.tokens.len() >= MAX_TOKENS {
        Some(TokenManagerError::CapacityExceeded)
    } else if m.current_token_index == u64::MAX {
        Some(TokenManagerError::IndexOverflow)
    } else {
        None
    }
}

/// Why the accounts of the share issued under `index` cannot be laid out,
/// if they cannot: the accounts given must be the derived ones.
pub open spec fn setup_error(
    program_id: Seq<u8>,
    manager: Seq<u8>,
    index: u64,
    token_mint: Seq<u8>,
    meta_list: Seq<u8>,
) -> Option<TokenManagerError> {
    match program_address_of(mint_seeds(manager, index), program_id) {
        None => Some(TokenManagerError::InvalidTokenAccount),
        Some(mint) => if mint.0 != token_mint {
            Some(TokenManagerError::InvalidTokenAccount)
        } else if !(program_address_of(meta_list_seeds(mint.0), program_id) is Some
            && program_address_of(meta_list_seeds(mint.0), program_id)->Some_0.0 == meta_list) {
            Some(TokenManagerError::InvalidTokenAccount)
        } else if mint_len_with(share_mint_extensions()) is None || meta_list_len_of(1) is None {
            Some(TokenManagerError::TransferHookInitFailed)
        } else {
            None
        },
    }
}

/// Why `create_new_share` fails, if it does.
pub open spec fn create_error(ctx: CreateNewShare, isin: Seq<char>) -> Option<TokenManagerError> {
    match issue_error(ctx.token_manager@, isin) {
        Some(e) => Some(e),
        None => setup_error(
            ctx.program_id@,
            ctx.token_manager_key@,
            ctx.token_manager@.current_token_index,
            ctx.token_mint@,
            ctx.extra_account_meta_list@,
        ),
    }
}

/// Whether `s` is the setup of the share issued under `isin` with
/// `decimals` by the token manager at `manager` when its counter stood at
/// `index`.
pub open spec fn is_share_setup(
    s: ShareSetup,
    program_id: Seq<u8>,
    manager: Seq<u8>,
    index: u64,
    decimals: u8,
    isin: Seq<char>,
) -> bool {
    &&& s.index == index
    &&& program_address_of(mint_seeds(manager, index), program_id) == Some((s.mint@, s.mint_bump))
    &&& program_address_of(meta_list_seeds(s.mint@), program_id) == Some(
        (s.extra_account_meta_list@, s.meta_list_bump),
    )
    &&& s.decimals == decimals
    &&& s.mint_authority@ == s.mint@
    &&& s.freeze_authority@ == s.mint@
    &&& s.hook_authority@ == manager
    &&& s.hook_program@ == program_id
    &&& s.metadata_authority@ == s.mint@
    &&& s.extra_accounts@.len() == 1
    &&& s.extra_accounts@[0].key@ == manager
    &&& !s.extra_accounts@[0].is_signer
    &&& !s.extra_accounts@[0].is_writable
    &&& s.name@ == share_name_of(isin)
    &&& s.symbol@ == isin
    &&& s.uri@ == Seq::<char>::empty()
    &&& mint_len_with(share_mint_extensions()) == Some(s.token_space)
    &&& s.metadata_space == metadata_space(s.name@, s.symbol@, s.uri@)
    &&& meta_list_len_of(1) == Some(s.meta_list_space)
}

/// Issues a share under the instrument code `isin`: checks the code, that no
/// share has it yet, and the registry's room, derives the mint from the token manager and the next
/// index, lays out the accounts the runtime must create, and records the
/// share. Nothing changes when it fails.
pub fn create_new_share(ctx: &mut CreateNewShare, decimals: u8, isin: String) -> (r: Result<
    ShareSetup,
    TokenManagerError,
>)
    ensures
        final(ctx).program_id == old(ctx).program_id,
        final(ctx).token_manager_key == old(ctx).token_manager_key,
        final(ctx).token_mint == old(ctx).token_mint,
        final(ctx).extra_account_meta_list == old(ctx).extra_account_meta_list,
        match create_error(*old(ctx), isin@) {
            Some(e) => r is Err && r->Err_0 == e && final(ctx).token_manager@ == old(
                ctx,
            ).token_manager@,
            None => r is Ok && is_share_setup(
                r->Ok_0,
                old(ctx).program_id@,
                old(ctx).token_manager_key@,
                old(ctx).token_manager@.current_token_index,
                decimals,
                isin@,
            ) && final(ctx).token_manager@ == old(ctx).token_manager@.issue(isin@, r->Ok_0.mint@),
        },
        old(ctx).token_manager@.wf() ==> final(ctx).token_manager@.wf(),
{
    if isin.as_str().as_bytes().len() != ISIN_LEN {
        return Err(TokenManagerError::InvalidIsinLength);
    }
    proof {
        crate::state::lemma_find_share(ctx.token_manager@.tokens, isin@);
    }
    if ctx.token_manager.find_token(&isin).is_some() {
        return Err(TokenManagerError::DuplicateIsin);
    }
    if ctx.token_manager.tokens.len() >= MAX_TOKENS {
        return Err(TokenManagerError::CapacityExceeded);
    }
    let index = ctx.token_manager.current_token_index;
    if index == u64::MAX {
        return Err(TokenManagerError::IndexOverflow);
    }
    let (mint, mint_bump) = match token_mint_address(
        &ctx.program_id,
        &ctx.token_manager_key,
        index,
    ) {
        Some(found) => found,
        None => return Err(TokenManagerError::InvalidTokenAccount),
    };
    if !(mint == ctx.token_mint) {
        return Err(TokenManagerError::InvalidTokenAccount);
    }
    let (extra_account_meta_list, meta_list_bump) = match extra_account_metas_address(
        &ctx.program_id,
        &mint,
    ) {
        Some(found) => found,
        None => return Err(TokenManagerError::InvalidTokenAccount),
    };
    if !(extra_account_meta_list == ctx.extra_account_meta_list) {
        return Err(TokenManagerError::InvalidTokenAccount);
    }
    let mut extensions: Vec<u16> = Vec::new();
    extensions.push(TRANSFER_HOOK_EXTENSION);
    extensions.push(METADATA_POINTER_EXTENSION);
    proof {
        assert(extensions@ =~= share_mint_extensions());
    }
    let token_space = match mint_account_len(&extensions) {
        Some(len) => len,
        None => return Err(TokenManagerError::TransferHookInitFailed),
    };
    let meta_list_space = match extra_account_meta_list_len(1) {
        Some(len) => len,
        None => return Err(TokenManagerError::TransferHookInitFailed),
    };
    let name = share_name(&isin);
    let symbol = isin.clone();
    let uri = String::new();
    proof {
        reveal_strlit("Security Token ");
        lemma_encode_concat("Security Token "@, isin@);
        lemma_encode_len_bound("Security Token "@);
    }
    let metadata_space = calculate_metadata_space(&name, &symbol, &uri);
    let mut extra_accounts: Vec<ExtraAccount> = Vec::new();
    extra_accounts.push(
        ExtraAccount { key: ctx.token_manager_key, is_signer: false, is_writable: false },
    );
    let committed = ctx.token_manager.commit_instrument(isin, mint);
    match committed {
        Ok(index) => Ok(
            ShareSetup {
                index,
                mint,
                mint_bump,
                extra_account_meta_list,
                meta_list_bump,
                decimals,
                mint_authority: mint,
                freeze_authority: mint,
                hook_authority: ctx.token_manager_key,
                hook_program: ctx.program_id,
                metadata_authority: mint,
                extra_accounts,
                name,
                symbol,
                uri,
                token_space,
                metadata_space,
                meta_list_space,
            },
        ),
        Err(e) => Err(e),
    }
}

/// What the instructions that change the whitelist read and write.
pub struct Whitelist {
    /// The wallet that signs.
    pub signer: Address,
    /// The state of the token manager.
    pub token_manager: TokenManager,
}

/// Why `add_to_whitelist` fails, if it does.
pub open spec fn add_error(signer: Seq<u8>, m: TokenManagerView, isin: Seq<char>) -> Option<
    TokenManagerError,
> {
    if signer != m.creator {
        Some(TokenManagerError::Unauthorized)
    } else if m.whitelist.len() >= MAX_WHITELIST {
        Some(TokenManagerError::WhitelistFull)
    } else if m.token_for(isin) is None {
        Some(TokenManagerError::TokenNotFound)
    } else {
        None
    }
}

/// Why `remove_from_whitelist` fails, if it does.
pub open spec fn remove_error(
    signer: Seq<u8>,
    m: TokenManagerView,
    wallet: Seq<u8>,
    isin: Seq<char>,
) -> Option<TokenManagerError> {
    if signer != m.creator {
        Some(TokenManagerError::Unauthorized)
    } else if m.token_for(isin) is None {
        Some(TokenManagerError::TokenNotFound)
    } else if !m.allows(m.token_for(isin)->Some_0, wallet) {
        Some(TokenManagerError::WalletNotFound)
    } else {
        None
    }
}

/// Lets `wallet` receive the tokens of the share issued under `isin`, by
/// appending an entry to the whitelist; an entry that is already there is
/// appended again. Only the creator may do so. Nothing changes when it
/// fails.
pub fn add_to_whitelist(ctx: &mut Whitelist, wallet: Address, isin: String) -> (r: Result<
    (),
    TokenManagerError,
>)
    ensures
        final(ctx).signer == old(ctx).signer,
        match add_error(old(ctx).signer@, old(ctx).token_manager@, isin@) {
            Some(e) => r == Err::<(), TokenManagerError>(e) && final(ctx).token_manager@ == old(
                ctx,
            ).token_manager@,
            None => r is Ok && final(ctx).token_manager@ == old(ctx).token_manager@.authorize(
                old(ctx).token_manager@.token_for(isin@)->Some_0,
                wallet@,
            ),
        },
        old(ctx).token_manager@.wf() ==> final(ctx).token_manager@.wf(),
{
    if !(ctx.signer == ctx.token_manager.creator) {
        return Err(TokenManagerError::Unauthorized);
    }
    if ctx.token_manager.whitelist.len() >= MAX_WHITELIST {
        return Err(TokenManagerError::WhitelistFull);
    }
    proof {
        crate::state::lemma_find_share(ctx.token_manager@.tokens, isin@);
    }
    match ctx.token_manager.find_token(&isin) {
        Some(i) => {
            let ghost before = ctx.token_manager@;
            let authorization = crate::state::Authorization {
                mint: ctx.token_manager.tokens[i].mint,
                wallet,
            };
            ctx.token_manager.whitelist.push(authorization);
            proof {
                assert(ctx.token_manager@.whitelist =~= before.whitelist.push(
                    (before.tokens[i as int].mint, wallet@),
                ));
                assert(ctx.token_manager@.tokens =~= before.tokens);
                if before.wf() {
                    let w = ctx.token_manager@.whitelist;
                    assert forall|k: int| 0 <= k < w.len() implies crate::state::has_mint(
                        before.tokens,
                        #[trigger] w[k].0,
                    ) by {
                        if k == before.whitelist.len() {
                            assert(before.tokens[i as int].mint == w[k].0);
                        } else {
                            assert(w[k] == before.whitelist[k]);
                        }
                    }
                }
            }
            Ok(())
        },
        None => Err(TokenManagerError::TokenNotFound),
    }
}

/// Takes the first whitelist entry for `wallet` and the share issued under
/// `isin` out of the whitelist; the entries after it keep their order. Only
/// the creator may do so. Nothing changes when it fails.
pub fn remove_from_whitelist(ctx: &mut Whitelist, wallet: Address, isin: String) -> (r: Result<
    (),
    TokenManagerError,
>)
    ensures
        final(ctx).signer == old(ctx).signer,
        match remove_error(old(ctx).signer@, old(ctx).token_manager@, wallet@, isin@) {
            Some(e) => r == Err::<(), TokenManagerError>(e) && final(ctx).token_manager@ == old(
                ctx,
            ).token_manager@,
            None => r is Ok && final(ctx).token_manager@ == old(ctx).token_manager@.revoke(
                old(ctx).token_manager@.token_for(isin@)->Some_0,
                wallet@,
            ),
        },
        old(ctx).token_manager@.wf() ==> final(ctx).token_manager@.wf(),
{
    if !(ctx.signer == ctx.token_manager.creator) {
        return Err(TokenManagerError::Unauthorized);
    }
    proof {
        crate::state::lemma_find_share(ctx.token_manager@.tokens, isin@);
    }
    let i = match ctx.token_manager.find_token(&isin) {
        Some(i) => i,
        None => return Err(TokenManagerError::TokenNotFound),
    };
    let mint = ctx.token_manager.tokens[i].mint;
    match ctx.token_manager.find_authorization(&mint, &wallet) {
        Some(k) => {
            let ghost before = ctx.token_manager@;
            proof {
                before.whitelist.index_of_first_ensures((mint@, wallet@));
            }
            ctx.token_manager.whitelist.remove(k);
            proof {
                assert(ctx.token_manager@.whitelist =~= before.whitelist.remove(k as int));
                assert(ctx.token_manager@.tokens =~= before.tokens);
                if before.wf() {
                    let w = ctx.token_manager@.whitelist;
                    assert forall|j: int| 0 <= j < w.len() implies crate::state::has_mint(
                        before.tokens,
                        #[trigger] w[j].0,
                    ) by {
                        if j < k {
                            assert(w[j] == before.whitelist[j]);
                        } else {
                            assert(w[j] == before.whitelist[j + 1]);
                        }
                    }
                }
            }
            Ok(())
        },
        None => Err(TokenManagerError::WalletNotFound),
    }
}

/// What the transfer hook reads: the mint of the tokens that move, the owner
/// of the account that receives them, and the whitelist.
pub struct TransferHook {
    pub mint: Address,
    pub destination_owner: Address,
    pub token_manager: TokenManager,
}

/// Decides a transfer: it may go ahead exactly when the whitelist has an
/// entry for the mint and the owner of the receiving account.
pub fn transfer_hook(ctx: &TransferHook) -> (r: Result<(), TokenManagerError>)
    ensures
        r == if ctx.token_manager@.allows(ctx.mint@, ctx.destination_owner@) {
            Ok::<(), TokenManagerError>(())
        } else {
            Err(TokenManagerError::TransferNotAllowed)
        },
{
    match ctx.token_manager.find_authorization(&ctx.mint, &ctx.destination_owner) {
        Some(_) => Ok(()),
        None => Err(TokenManagerError::TransferNotAllowed),
    }
}

/// What the instruction that mints further tokens of a share reads.
pub struct MintToken {
    /// The wallet that signs.
    pub signer: Address,
    /// The id of this program.
    pub program_id: Address,
    /// The address of the token manager's account.
    pub token_manager_key: Address,
    /// The state of the token manager.
    pub token_manager: TokenManager,
}

/// Authorizes minting tokens of the share issued under `token_index`: only
/// the creator may. Returns the mint's address and bump seed, with which the
/// program signs for the mint.
pub fn mint_tokens(ctx: &MintToken, token_index: u64) -> (r: Result<
    (Address, u8),
    TokenManagerError,
>)
    ensures
        ctx.signer@ != ctx.token_manager@.creator ==> r == Err::<(Address, u8), TokenManagerError>(
            TokenManagerError::Unauthorized,
        ),
        ctx.signer@ == ctx.token_manager@.creator ==> match program_address_of(
            mint_seeds(ctx.token_manager_key@, token_index),
            ctx.program_id@,
        ) {
            Some(found) => r is Ok && r->Ok_0.0@ == found.0 && r->Ok_0.1 == found.1,
            None => r == Err::<(Address, u8), TokenManagerError>(
                TokenManagerError::InvalidTokenAccount,
            ),
        },
{
    if !(ctx.signer == ctx.token_manager.creator) {
        return Err(TokenManagerError::Unauthorized);
    }
    match token_mint_address(&ctx.program_id, &ctx.token_manager_key, token_index) {
        Some(found) => Ok(found),
        None => Err(TokenManagerError::InvalidTokenAccount),
    }
}

} // verus!
