use vstd::prelude::*;

use vstd::utf8::encode_utf8;

verus! {

/// The length of a string in bytes.
pub open spec fn byte_len(s: Seq<char>) -> nat {
    encode_utf8(s).len()
}

/// The space reserved for the metadata of a mint: a header, each field with
/// its type, its length prefix and room for padding, and a buffer for
/// further fields.
pub open spec fn metadata_space(name: Seq<char>, symbol: Seq<char>, uri: Seq<char>) -> nat {
    32 + (1 + 4 + byte_len(name) + 8) + (1 + 4 + byte_len(symbol) + 8) + (1 + 4 + byte_len(uri)
        + 8) + 256
}

/// The display name of the share issued under `isin`.
pub open spec fn share_name_of(isin: Seq<char>) -> Seq<char> {
    "Security Token "@ + isin
}

/// The encoding of two strings one after the other is the encoding of the
/// first followed by that of the second.
pub proof fn lemma_encode_concat(a: Seq<char>, b: Seq<char>)
    ensures
        encode_utf8(a + b) == encode_utf8(a) + encode_utf8(b),
    decreases a.len(),
{
    if a.len() == 0 {
        assert(a + b =~= b);
        assert(encode_utf8(a) =~= Seq::<u8>::empty());
        assert(encode_utf8(a) + encode_utf8(b) =~= encode_utf8(b));
    } else {
        assert((a + b).drop_first() =~= a.drop_first() + b);
        assert((a + b)[0] == a[0]);
        lemma_encode_concat(a.drop_first(), b);
        assert(encode_utf8(a + b) =~= encode_utf8(a) + encode_utf8(b));
    }
}

/// Each character takes at most four bytes.
pub proof fn lemma_encode_len_bound(s: Seq<char>)
    ensures
        byte_len(s) <= 4 * s.len(),
    decreases s.len(),
{
    if s.len() > 0 {
        lemma_encode_len_bound(s.drop_first());
        assert(vstd::utf8::encode_scalar(s[0] as u32).len() <= 4);
    }
}

/// The space reserved for the metadata with the given name, symbol and uri.
pub fn calculate_metadata_space(name: &String, symbol: &String, uri: &String) -> (r: usize)
    requires
        byte_len(name@) + byte_len(symbol@) + byte_len(uri@) + 327 <= usize::MAX,
    ensures
        r == metadata_space(name@, symbol@, uri@),
{
    let header_size: usize = 32;
    let name_size: usize = 1 + 4 + name.as_str().len() + 8;
    let symbol_size: usize = 1 + 4 + symbol.as_str().len() + 8;
    let uri_size: usize = 1 + 4 + uri.as_str().len() + 8;
    let additional_fields_buffer: usize = 256;
    header_size + name_size + symbol_size + uri_size + additional_fields_buffer
}

/// The display name of the share issued under `isin`.
pub fn share_name(isin: &String) -> (r: String)
    ensures
        r@ == share_name_of(isin@),
{
    String::from_str("Security Token ").concat(isin.as_str())
}

} // verus!
