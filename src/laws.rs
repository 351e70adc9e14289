use vstd::prelude::*;

use crate::error::TokenManagerError;
use crate::instructions::{add_error, create_error, issue_error, remove_error, CreateNewShare};
use crate::metadata::byte_len;
use crate::state::{find_share, TokenManagerView, ISIN_LEN, MAX_TOKENS};

verus! {

broadcast use vstd::seq_lib::group_to_multiset_ensures;

/// Once a share is issued under a code, the code looks up the new mint, and
/// the counter has moved on by exactly one.
pub proof fn lemma_issued_share_is_found(m: TokenManagerView, isin: Seq<char>, mint: Seq<u8>)
    requires
        issue_error(m, isin) is None,
    ensures
        m.issue(isin, mint).token_for(isin) == Some(mint),
        m.issue(isin, mint).current_token_index == m.current_token_index + 1,
{
    let after = m.issue(isin, mint);
    assert(after.tokens.drop_last() =~= m.tokens);
    assert(find_share(after.tokens, isin) == Some(m.tokens.len() as int));
}

/// A code that is not exactly twelve bytes long is refused, whatever the
/// state of the registry.
pub proof fn lemma_wrong_length_code_refused(ctx: CreateNewShare, isin: Seq<char>)
    requires
        byte_len(isin) != ISIN_LEN,
    ensures
        create_error(ctx, isin) == Some(TokenManagerError::InvalidIsinLength),
{
}

/// A code under which a share was already issued is refused: each code
/// names at most one share.
pub proof fn lemma_issued_code_refused(ctx: CreateNewShare, isin: Seq<char>)
    requires
        byte_len(isin) == ISIN_LEN,
        ctx.token_manager@.token_for(isin) is Some,
    ensures
        create_error(ctx, isin) == Some(TokenManagerError::DuplicateIsin),
{
}

/// A registry that holds as many shares as it can refuses a further valid
/// code.
pub proof fn lemma_full_registry_refused(ctx: CreateNewShare, isin: Seq<char>)
    requires
        byte_len(isin) == ISIN_LEN,
        ctx.token_manager@.token_for(isin) is None,
        ctx.token_manager@.tokens.len() >= MAX_TOKENS,
    ensures
        create_error(ctx, isin) == Some(TokenManagerError::CapacityExceeded),
{
}

/// Only the creator can add to the whitelist.
pub proof fn lemma_non_creator_cannot_add(signer: Seq<u8>, m: TokenManagerView, isin: Seq<char>)
    requires
        signer != m.creator,
    ensures
        add_error(signer, m, isin) == Some(TokenManagerError::Unauthorized),
{
}

/// After an entry for `wallet` is added under a code, the wallet may receive
/// the code's tokens; any other pair is allowed exactly when it was before.
pub proof fn lemma_added_wallet_may_receive(
    m: TokenManagerView,
    isin: Seq<char>,
    wallet: Seq<u8>,
    mint: Seq<u8>,
    receiver: Seq<u8>,
)
    requires
        m.token_for(isin) is Some,
    ensures
        m.authorize(m.token_for(isin)->Some_0, wallet).allows(m.token_for(isin)->Some_0, wallet),
        m.authorize(m.token_for(isin)->Some_0, wallet).allows(mint, receiver) == ((mint, receiver)
            == (m.token_for(isin)->Some_0, wallet) || m.allows(mint, receiver)),
{
    let pair = (m.token_for(isin)->Some_0, wallet);
    let w = m.authorize(pair.0, wallet).whitelist;
    assert(w[m.whitelist.len() as int] == pair);
    if m.allows(mint, receiver) {
        let i = choose|i: int| 0 <= i < m.whitelist.len() && m.whitelist[i] == (mint, receiver);
        assert(w[i] == m.whitelist[i]);
    }
    if w.contains((mint, receiver)) && (mint, receiver) != pair {
        let i = choose|i: int| 0 <= i < w.len() && w[i] == (mint, receiver);
        assert(i < m.whitelist.len());
        assert(m.whitelist[i] == w[i]);
    }
}

/// Removing the entry that was just added, for a pair that the whitelist did
/// not allow, gives back the state from before the addition: the pair is
/// refused again.
pub proof fn lemma_remove_undoes_add(m: TokenManagerView, mint: Seq<u8>, wallet: Seq<u8>)
    requires
        !m.allows(mint, wallet),
    ensures
        m.authorize(mint, wallet).revoke(mint, wallet) == m,
        !m.authorize(mint, wallet).revoke(mint, wallet).allows(mint, wallet),
{
    let w = m.authorize(mint, wallet).whitelist;
    assert(w[m.whitelist.len() as int] == (mint, wallet));
    w.index_of_first_ensures((mint, wallet));
    let k = w.index_of_first((mint, wallet))->Some_0;
    if k < m.whitelist.len() {
        assert(m.whitelist[k] == w[k]);
    }
    assert(k == m.whitelist.len());
    assert(w.remove(m.whitelist.len() as int) =~= m.whitelist);
}

/// Removing a pair that the whitelist does not hold fails with
/// `WalletNotFound` when the creator asks for a code that was issued.
pub proof fn lemma_remove_absent_fails(
    m: TokenManagerView,
    wallet: Seq<u8>,
    isin: Seq<char>,
)
    requires
        m.token_for(isin) is Some,
        !m.allows(m.token_for(isin)->Some_0, wallet),
    ensures
        remove_error(m.creator, m, wallet, isin) == Some(TokenManagerError::WalletNotFound),
{
}

/// The whitelist keeps duplicate entries: adding a pair adds one entry for
/// it, and removing it takes exactly one entry away, leaving every other
/// pair's count as it was.
pub proof fn lemma_entries_counted(
    m: TokenManagerView,
    mint: Seq<u8>,
    wallet: Seq<u8>,
    other_mint: Seq<u8>,
    other_wallet: Seq<u8>,
)
    ensures
        m.authorize(mint, wallet).entries(mint, wallet) == m.entries(mint, wallet) + 1,
        m.allows(mint, wallet) ==> m.revoke(mint, wallet).entries(mint, wallet) + 1 == m.entries(
            mint,
            wallet,
        ),
        (other_mint, other_wallet) != (mint, wallet) ==> m.authorize(mint, wallet).entries(
            other_mint,
            other_wallet,
        ) == m.entries(other_mint, other_wallet) && m.revoke(mint, wallet).entries(
            other_mint,
            other_wallet,
        ) == m.entries(other_mint, other_wallet),
{
    m.whitelist.index_of_first_ensures((mint, wallet));
    assert(m.authorize(mint, wallet).whitelist.to_multiset() == m.whitelist.to_multiset().insert(
        (mint, wallet),
    ));
    if m.allows(mint, wallet) {
        assert(m.revoke(mint, wallet).whitelist.to_multiset() == m.whitelist.to_multiset().remove(
            (mint, wallet),
        ));
    }
}

} // verus!
