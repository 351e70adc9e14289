use anchor_lang::prelude::Pubkey;
use spl_tlv_account_resolution::state::ExtraAccountMetaList;
use spl_token_2022::extension::ExtensionType;

use token_manager::address::Address;
use token_manager::error::TokenManagerError;
use token_manager::instructions::{
    create_new_share, initialize_token_manager, CreateNewShare, InitializeTokenManager, ShareSetup,
};
use token_manager::metadata::{calculate_metadata_space, share_name};
use token_manager::pda::{extra_account_metas_address, token_mint_address, u64_le_bytes};
use token_manager::state::{TokenManager, MAX_TOKENS};

fn addr(b: u8) -> Address {
    Address::new([b; 32])
}

fn program() -> Address {
    addr(200)
}

fn manager_key() -> Address {
    addr(100)
}

fn fresh(creator: Address) -> TokenManager {
    let mut ctx = InitializeTokenManager {
        signer: creator,
        token_manager: TokenManager::new(addr(0)),
    };
    assert!(initialize_token_manager(&mut ctx).is_ok());
    ctx.token_manager
}

fn derived_accounts(index: u64) -> (Address, Address) {
    let mint = token_mint_address(&program(), &manager_key(), index).unwrap().0;
    let metas = extra_account_metas_address(&program(), &mint).unwrap().0;
    (mint, metas)
}

fn issue(m: TokenManager, isin: &str) -> (TokenManager, Result<ShareSetup, TokenManagerError>) {
    let (token_mint, extra_account_meta_list) = derived_accounts(m.current_token_index);
    let mut ctx = CreateNewShare {
        program_id: program(),
        token_manager_key: manager_key(),
        token_manager: m,
        token_mint,
        extra_account_meta_list,
    };
    let r = create_new_share(&mut ctx, 6, isin.to_string());
    (ctx.token_manager, r)
}

fn code(n: usize) -> String {
    format!("US03783310{:02}", n)
}

#[test]
fn initialize_sets_creator_and_empty_state() {
    let m = fresh(addr(1));
    assert_eq!(m.creator, addr(1));
    assert_eq!(m.current_token_index, 0);
    assert!(m.tokens.is_empty());
    assert!(m.whitelist.is_empty());
    assert_eq!(m.reserve_next_index(), 0);
}

#[test]
fn issued_share_is_found_and_counter_moves() {
    let (m, r) = issue(fresh(addr(1)), "US0378331005");
    let setup = r.unwrap();
    assert_eq!(setup.index, 0);
    assert_eq!(m.current_token_index, 1);
    assert_eq!(m.get_token(&"US0378331005".to_string()), Ok(setup.mint));
    assert_eq!(m.tokens[0].index, 0);
    assert_eq!(m.tokens[0].isin, "US0378331005");
}

#[test]
fn wrong_length_codes_are_refused_without_change() {
    let (m, r) = issue(fresh(addr(1)), "ABC");
    assert_eq!(r.err(), Some(TokenManagerError::InvalidIsinLength));
    let (m, r) = issue(m, "US03783310050");
    assert_eq!(r.err(), Some(TokenManagerError::InvalidIsinLength));
    let (m, r) = issue(m, "");
    assert_eq!(r.err(), Some(TokenManagerError::InvalidIsinLength));
    assert_eq!(m.current_token_index, 0);
    assert!(m.tokens.is_empty());
}

#[test]
fn code_length_counts_bytes() {
    // eleven characters, twelve bytes
    let (m, r) = issue(fresh(addr(1)), "US037833100\u{e9}");
    assert_eq!(r.err(), Some(TokenManagerError::InvalidIsinLength));
    assert_eq!(m.current_token_index, 0);
}

#[test]
fn eleventh_share_exceeds_capacity() {
    let mut m = fresh(addr(1));
    let mut mints = Vec::new();
    for n in 0..MAX_TOKENS {
        let (next, r) = issue(m, &code(n));
        m = next;
        mints.push(r.unwrap().mint);
    }
    let (m, r) = issue(m, &code(10));
    assert_eq!(r.err(), Some(TokenManagerError::CapacityExceeded));
    assert_eq!(m.current_token_index, 10);
    assert_eq!(m.tokens.len(), 10);
    for n in 0..MAX_TOKENS {
        assert_eq!(m.tokens[n].index, n as u64);
        assert_eq!(m.get_token(&code(n)), Ok(mints[n]));
    }
}

#[test]
fn counter_at_its_largest_overflows() {
    let m = TokenManager {
        creator: addr(1),
        current_token_index: u64::MAX,
        tokens: Vec::new(),
        whitelist: Vec::new(),
    };
    let (m, r) = issue(m, "US0378331005");
    assert_eq!(r.err(), Some(TokenManagerError::IndexOverflow));
    assert!(m.tokens.is_empty());
    assert_eq!(m.current_token_index, u64::MAX);
}

#[test]
fn share_setup_lays_out_the_accounts() {
    let (_, r) = issue(fresh(addr(1)), "US0378331005");
    let s = r.unwrap();
    let program_key = Pubkey::new_from_array(program().bytes);
    let manager = Pubkey::new_from_array(manager_key().bytes);
    let (mint, bump) = Pubkey::find_program_address(
        &[b"token-mint", manager.as_ref(), &0u64.to_le_bytes()],
        &program_key,
    );
    assert_eq!(s.mint.bytes, mint.to_bytes());
    assert_eq!(s.mint_bump, bump);
    let (metas, metas_bump) =
        Pubkey::find_program_address(&[b"extra-account-metas", mint.as_ref()], &program_key);
    assert_eq!(s.extra_account_meta_list.bytes, metas.to_bytes());
    assert_eq!(s.meta_list_bump, metas_bump);
    assert_eq!(s.decimals, 6);
    assert_eq!(s.name, "Security Token US0378331005");
    assert_eq!(s.symbol, "US0378331005");
    assert_eq!(s.uri, "");
    let token_space = ExtensionType::try_calculate_account_len::<spl_token_2022::state::Mint>(&[
        ExtensionType::TransferHook,
        ExtensionType::MetadataPointer,
    ])
    .unwrap();
    assert_eq!(s.token_space, token_space);
    assert_eq!(s.token_space, 302);
    assert_eq!(s.metadata_space, 366);
    assert_eq!(s.meta_list_space, ExtraAccountMetaList::size_of(1).unwrap());
    assert_eq!(s.meta_list_space, 51);
    assert_eq!(s.mint_authority, s.mint);
    assert_eq!(s.freeze_authority, s.mint);
    assert_eq!(s.metadata_authority, s.mint);
    assert_eq!(s.hook_authority, manager_key());
    assert_eq!(s.hook_program, program());
    assert_eq!(s.extra_accounts.len(), 1);
    assert_eq!(s.extra_accounts[0].key, manager_key());
    assert!(!s.extra_accounts[0].is_signer);
    assert!(!s.extra_accounts[0].is_writable);
}

#[test]
fn issued_code_is_refused_again() {
    let (m, r) = issue(fresh(addr(1)), "US0378331005");
    let first = r.unwrap().mint;
    let (m, r) = issue(m, "US0378331005");
    assert_eq!(r.err(), Some(TokenManagerError::DuplicateIsin));
    assert_eq!(m.current_token_index, 1);
    assert_eq!(m.tokens.len(), 1);
    assert_eq!(m.get_token(&"US0378331005".to_string()), Ok(first));
}

#[test]
fn accounts_other_than_the_derived_ones_are_refused() {
    let (mint, metas) = derived_accounts(0);
    let mut ctx = CreateNewShare {
        program_id: program(),
        token_manager_key: manager_key(),
        token_manager: fresh(addr(1)),
        token_mint: addr(7),
        extra_account_meta_list: metas,
    };
    let r = create_new_share(&mut ctx, 6, "US0378331005".to_string());
    assert_eq!(r.err(), Some(TokenManagerError::InvalidTokenAccount));
    ctx.token_mint = mint;
    ctx.extra_account_meta_list = addr(8);
    let r = create_new_share(&mut ctx, 6, "US0378331005".to_string());
    assert_eq!(r.err(), Some(TokenManagerError::InvalidTokenAccount));
    assert!(ctx.token_manager.tokens.is_empty());
    ctx.extra_account_meta_list = metas;
    assert!(create_new_share(&mut ctx, 6, "US0378331005".to_string()).is_ok());
}

#[test]
fn mint_address_depends_on_manager_and_index() {
    let a = token_mint_address(&program(), &manager_key(), 0).unwrap();
    let b = token_mint_address(&program(), &manager_key(), 1).unwrap();
    let c = token_mint_address(&program(), &addr(101), 0).unwrap();
    assert_eq!(a, token_mint_address(&program(), &manager_key(), 0).unwrap());
    assert_ne!(a.0, b.0);
    assert_ne!(a.0, c.0);
    assert_ne!(a.0, manager_key());
    assert_ne!(a.0, program());
    let metas = extra_account_metas_address(&program(), &a.0).unwrap();
    assert_ne!(metas.0, a.0);
}

#[test]
fn index_bytes_are_little_endian() {
    assert_eq!(u64_le_bytes(0x0102), vec![2, 1, 0, 0, 0, 0, 0, 0]);
    assert_eq!(u64_le_bytes(u64::MAX), vec![255; 8]);
    assert_eq!(u64_le_bytes(0), vec![0; 8]);
}

#[test]
fn metadata_space_counts_each_field() {
    let name = share_name(&"US0378331005".to_string());
    assert_eq!(name, "Security Token US0378331005");
    let space = calculate_metadata_space(&name, &"US0378331005".to_string(), &String::new());
    assert_eq!(space, 32 + 13 + 27 + 13 + 12 + 13 + 256);
    assert_eq!(calculate_metadata_space(&String::new(), &String::new(), &String::new()), 327);
}

#[test]
fn get_token_of_unknown_code_fails() {
    let (m, _) = issue(fresh(addr(1)), "US0378331005");
    assert_eq!(m.get_token(&"US0378331006".to_string()), Err(TokenManagerError::TokenNotFound));
}

#[test]
fn errors_carry_their_messages() {
    assert_eq!(TokenManagerError::InvalidIsinLength.message(), "Invalid ISIN length");
    assert_eq!(TokenManagerError::WhitelistFull.message(), "Whitelist is full");
    assert_eq!(TokenManagerError::TransferNotAllowed.message(), "Transfer not allowed");
}
