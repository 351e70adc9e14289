use vstd::prelude::*;

use crate::address::Address;

verus! {

/// How many shares one token manager can issue.
pub const MAX_TOKENS: usize = 10;

/// How many entries the whitelist of one token manager can hold.
pub const MAX_WHITELIST: usize = 10;

/// The length of an instrument code (an ISIN), in bytes.
pub const ISIN_LEN: usize = 12;

/// One issued share: the instrument code and the mint created for it.
#[derive(Debug)]
pub struct TokenShare {
    pub index: u64,
    pub isin: String,
    pub mint: Address,
}

/// The mathematical model of a [`TokenShare`].
pub struct ShareView {
    pub index: u64,
    pub isin: Seq<char>,
    pub mint: Seq<u8>,
}

impl View for TokenShare {
    type V = ShareView;

    open spec fn view(&self) -> ShareView {
        ShareView { index: self.index, isin: self.isin@, mint: self.mint@ }
    }
}

/// One whitelist entry: the wallet may receive the tokens of the mint.
#[derive(Clone, Copy, Debug)]
pub struct Authorization {
    pub mint: Address,
    pub wallet: Address,
}

impl View for Authorization {
    /// The mint and the wallet.
    type V = (Seq<u8>, Seq<u8>);

    open spec fn view(&self) -> (Seq<u8>, Seq<u8>) {
        (self.mint@, self.wallet@)
    }
}

/// The registry of issued shares and the whitelist of wallets that may
/// receive them, owned by the creator.
#[derive(Debug)]
pub struct TokenManager {
    pub creator: Address,
    pub current_token_index: u64,
    pub tokens: Vec<TokenShare>,
    pub whitelist: Vec<Authorization>,
}

/// The mathematical model of a [`TokenManager`].
pub struct TokenManagerView {
    pub creator: Seq<u8>,
    pub current_token_index: u64,
    pub tokens: Seq<ShareView>,
    pub whitelist: Seq<(Seq<u8>, Seq<u8>)>,
}

impl View for TokenManager {
    type V = TokenManagerView;

    open spec fn view(&self) -> TokenManagerView {
        TokenManagerView {
            creator: self.creator@,
            current_token_index: self.current_token_index,
            tokens: self.tokens@.map_values(|t: TokenShare| t@),
            whitelist: self.whitelist@.map_values(|a: Authorization| a@),
        }
    }
}

/// Whether a share was issued with `mint`.
pub open spec fn has_mint(tokens: Seq<ShareView>, mint: Seq<u8>) -> bool {
    exists|i: int| 0 <= i < tokens.len() && #[trigger] tokens[i].mint == mint
}

/// A mint that was issued stays issued when another share is issued.
pub proof fn lemma_has_mint_push(tokens: Seq<ShareView>, share: ShareView, mint: Seq<u8>)
    requires
        has_mint(tokens, mint),
    ensures
        has_mint(tokens.push(share), mint),
{
    let i = choose|i: int| 0 <= i < tokens.len() && #[trigger] tokens[i].mint == mint;
    assert(tokens.push(share)[i] == tokens[i]);
}

/// The position of the first share issued under `isin`, if any.
pub open spec fn find_share(tokens: Seq<ShareView>, isin: Seq<char>) -> Option<int>
    decreases tokens.len(),
{
    if tokens.len() == 0 {
        None
    } else {
        match find_share(tokens.drop_last(), isin) {
            Some(i) => Some(i),
            None => if tokens.last().isin == isin {
                Some(tokens.len() - 1)
            } else {
                None
            },
        }
    }
}

impl TokenManagerView {
    /// The mint of the first share issued under `isin`, if any.
    pub open spec fn token_for(self, isin: Seq<char>) -> Option<Seq<u8>> {
        match find_share(self.tokens, isin) {
            Some(i) => Some(self.tokens[i].mint),
            None => None,
        }
    }

    /// The registry after the next share is issued under `isin` with `mint`.
    pub open spec fn issue(self, isin: Seq<char>, mint: Seq<u8>) -> TokenManagerView {
        TokenManagerView {
            current_token_index: (self.current_token_index + 1) as u64,
            tokens: self.tokens.push(ShareView { index: self.current_token_index, isin, mint }),
            ..self
        }
    }

    /// Whether the whitelist lets `wallet` receive the tokens of `mint`.
    pub open spec fn allows(self, mint: Seq<u8>, wallet: Seq<u8>) -> bool {
        self.whitelist.contains((mint, wallet))
    }

    /// How many whitelist entries are for `wallet` and `mint`.
    pub open spec fn entries(self, mint: Seq<u8>, wallet: Seq<u8>) -> nat {
        self.whitelist.to_multiset().count((mint, wallet))
    }

    /// The state after an entry for `wallet` and `mint` is appended to the
    /// whitelist.
    pub open spec fn authorize(self, mint: Seq<u8>, wallet: Seq<u8>) -> TokenManagerView {
        TokenManagerView { whitelist: self.whitelist.push((mint, wallet)), ..self }
    }

    /// The state after the first whitelist entry for `wallet` and `mint` is
    /// taken out.
    pub open spec fn revoke(self, mint: Seq<u8>, wallet: Seq<u8>) -> TokenManagerView {
        match self.whitelist.index_of_first((mint, wallet)) {
            Some(k) => TokenManagerView { whitelist: self.whitelist.remove(k), ..self },
            None => self,
        }
    }

    /// The state is well formed: each share carries the index it was issued
    /// under, the counter counts the shares, both lists are within their
    /// capacity, no two shares share an instrument code, and each whitelist
    /// entry names the mint of an issued share.
    pub open spec fn wf(self) -> bool {
        &&& self.current_token_index == self.tokens.len()
        &&& forall|i: int, j: int|
            0 <= i < j < self.tokens.len() ==> #[trigger] self.tokens[i].isin
                != #[trigger] self.tokens[j].isin
        &&& self.tokens.len() <= MAX_TOKENS
        &&& self.whitelist.len() <= MAX_WHITELIST
        &&& forall|i: int| 0 <= i < self.tokens.len() ==> #[trigger] self.tokens[i].index == i
        &&& forall|k: int|
            0 <= k < self.whitelist.len() ==> has_mint(self.tokens, #[trigger] self.whitelist[k].0)
    }
}

/// Why the registry refuses to record a share under `isin`, if it does.
pub open spec fn commit_error(m: TokenManagerView, isin: Seq<char>) -> Option<
    crate::error::TokenManagerError,
> {
    if m.token_for(isin) is Some {
        Some(crate::error::TokenManagerError::DuplicateIsin)
    } else if m.tokens.len() >= MAX_TOKENS {
        Some(crate::error::TokenManagerError::CapacityExceeded)
    } else if m.current_token_index == u64::MAX {
        Some(crate::error::TokenManagerError::IndexOverflow)
    } else {
        None
    }
}

impl TokenManager {
    /// An empty registry owned by `creator`.
    pub fn new(creator: Address) -> (r: TokenManager)
        ensures
            r@.creator == creator@,
            r@.current_token_index == 0,
            r@.tokens.len() == 0,
            r@.whitelist.len() == 0,
            r@.wf(),
    {
        TokenManager { creator, current_token_index: 0, tokens: Vec::new(), whitelist: Vec::new() }
    }

    /// The index under which the next share will be issued.
    pub fn reserve_next_index(&self) -> (r: u64)
        ensures
            r == self@.current_token_index,
    {
        self.current_token_index
    }

    /// The position of the first share issued under `isin`.
    pub fn find_token(&self, isin: &String) -> (r: Option<usize>)
        ensures
            match r {
                Some(i) => find_share(self@.tokens, isin@) == Some(i as int),
                None => find_share(self@.tokens, isin@) is None,
            },
    {
        let mut i: usize = 0;
        while i < self.tokens.len()
            invariant
                0 <= i <= self.tokens.len(),
                find_share(self@.tokens.subrange(0, i as int), isin@) is None,
            decreases self.tokens.len() - i,
        {
            proof {
                assert(self@.tokens.subrange(0, i + 1).drop_last() =~= self@.tokens.subrange(
                    0,
                    i as int,
                ));
            }
            if self.tokens[i].isin == *isin {
                proof {
                    lemma_find_share_prefix(self@.tokens, i as int + 1, isin@);
                }
                return Some(i);
            }
            i = i + 1;
        }
        proof {
            assert(self@.tokens.subrange(0, i as int) =~= self@.tokens);
        }
        None
    }

    /// The position of the first whitelist entry for `wallet` and `mint`.
    pub fn find_authorization(&self, mint: &Address, wallet: &Address) -> (r: Option<usize>)
        ensures
            match r {
                Some(k) => self@.whitelist.index_of_first((mint@, wallet@)) == Some(k as int),
                None => self@.whitelist.index_of_first((mint@, wallet@)) is None,
            },
            r is Some <==> self@.allows(mint@, wallet@),
    {
        let ghost wl = self@.whitelist;
        let ghost needle = (mint@, wallet@);
        let mut k: usize = 0;
        while k < self.whitelist.len()
            invariant
                0 <= k <= self.whitelist.len(),
                wl == self@.whitelist,
                wl.len() == self.whitelist.len(),
                needle == (mint@, wallet@),
                forall|j: int| 0 <= j < k ==> wl[j] != needle,
            decreases self.whitelist.len() - k,
        {
            let entry = &self.whitelist[k];
            assert(wl[k as int] == (entry.mint@, entry.wallet@));
            if entry.mint == *mint && entry.wallet == *wallet {
                assert(wl[k as int] == needle);
                proof {
                    wl.index_of_first_ensures(needle);
                }
                return Some(k);
            }
            assert(wl[k as int] != needle);
            k = k + 1;
        }
        proof {
            wl.index_of_first_ensures(needle);
        }
        None
    }

    /// Records a share issued under `isin` with `mint`, at the next index,
    /// and returns that index. A code that already names a share is refused.
    pub fn commit_instrument(&mut self, isin: String, mint: Address) -> (r: Result<
        u64,
        crate::error::TokenManagerError,
    >)
        ensures
            match commit_error(old(self)@, isin@) {
                Some(e) => r == Err::<u64, _>(e) && final(self)@ == old(self)@,
                None => r == Ok::<u64, crate::error::TokenManagerError>(
                    old(self)@.current_token_index,
                ) && final(self)@ == old(self)@.issue(isin@, mint@),
            },
            old(self)@.wf() ==> final(self)@.wf(),
    {
        proof {
            lemma_find_share(self@.tokens, isin@);
        }
        if self.find_token(&isin).is_some() {
            return Err(crate::error::TokenManagerError::DuplicateIsin);
        }
        if self.tokens.len() >= MAX_TOKENS {
            return Err(crate::error::TokenManagerError::CapacityExceeded);
        }
        let index = self.current_token_index;
        if index == u64::MAX {
            return Err(crate::error::TokenManagerError::IndexOverflow);
        }
        let ghost before = self@;
        self.tokens.push(TokenShare { index, isin, mint });
        self.current_token_index = index + 1;
        proof {
            assert(self@.tokens =~= before.tokens.push(
                ShareView { index: before.current_token_index, isin: isin@, mint: mint@ },
            ));
            assert(self@.whitelist =~= before.whitelist);
            if before.wf() {
                assert forall|i: int, j: int| 0 <= i < j < self@.tokens.len() implies #[trigger] self@.tokens[i].isin
                    != #[trigger] self@.tokens[j].isin by {
                    assert(self@.tokens[i] == before.tokens[i]);
                    if j < before.tokens.len() {
                        assert(self@.tokens[j] == before.tokens[j]);
                    }
                }
                assert forall|i: int| 0 <= i < self@.tokens.len() implies #[trigger] self@.tokens[i].index
                    == i by {
                    if i < before.tokens.len() {
                        assert(self@.tokens[i] == before.tokens[i]);
                    }
                }
                assert forall|k: int| 0 <= k < self@.whitelist.len() implies has_mint(
                    self@.tokens,
                    #[trigger] self@.whitelist[k].0,
                ) by {
                    lemma_has_mint_push(
                        before.tokens,
                        ShareView { index: before.current_token_index, isin: isin@, mint: mint@ },
                        before.whitelist[k].0,
                    );
                }
            }
        }
        Ok(index)
    }

    /// The mint of the share issued under `isin`.
    pub fn get_token(&self, isin: &String) -> (r: Result<Address, crate::error::TokenManagerError>)
        ensures
            match self@.token_for(isin@) {
                Some(m) => r is Ok && r->Ok_0@ == m,
                None => r == Err::<Address, _>(crate::error::TokenManagerError::TokenNotFound),
            },
    {
        proof {
            lemma_find_share(self@.tokens, isin@);
        }
        match self.find_token(isin) {
            Some(i) => Ok(self.tokens[i].mint),
            None => Err(crate::error::TokenManagerError::TokenNotFound),
        }
    }
}

/// What the first match of `isin` among the shares is.
pub proof fn lemma_find_share(tokens: Seq<ShareView>, isin: Seq<char>)
    ensures
        match find_share(tokens, isin) {
            Some(i) => {
                &&& 0 <= i < tokens.len()
                &&& tokens[i].isin == isin
                &&& forall|j: int| 0 <= j < i ==> tokens[j].isin != isin
            },
            None => forall|j: int| 0 <= j < tokens.len() ==> tokens[j].isin != isin,
        },
    decreases tokens.len(),
{
    if tokens.len() > 0 {
        lemma_find_share(tokens.drop_last(), isin);
        assert(forall|j: int|
            0 <= j < tokens.len() - 1 ==> #[trigger] tokens[j] == tokens.drop_last()[j]);
    }
}

/// A first match in a prefix of the shares is the first match in the
/// whole list.
pub proof fn lemma_find_share_prefix(tokens: Seq<ShareView>, n: int, isin: Seq<char>)
    requires
        0 <= n <= tokens.len(),
        find_share(tokens.subrange(0, n), isin) is Some,
    ensures
        find_share(tokens, isin) == find_share(tokens.subrange(0, n), isin),
    decreases tokens.len() - n,
{
    if n < tokens.len() {
        assert(tokens.subrange(0, n + 1).drop_last() =~= tokens.subrange(0, n));
        lemma_find_share_prefix(tokens, n + 1, isin);
    } else {
        assert(tokens.subrange(0, n) =~= tokens);
    }
}

} // verus!
