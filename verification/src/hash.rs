//! The hash by which the operator notices that a rendered configuration changed.
use vstd::prelude::*;
use vstd::utf8::encode_utf8;

verus! {

/// The BLAKE3 digest of `data`.
pub uninterp spec fn blake3_digest(data: Seq<u8>) -> Seq<u8>;

/// Hashes `data`.
/// Calls `blake3::hash` and takes the 32 bytes of the digest; the contract
/// names the digest and states its length, not how it is computed.
#[verifier::external_body]
fn blake3_hash(data: &[u8]) -> (res: Vec<u8>)
    ensures
        res@ == blake3_digest(data@),
        res@.len() == 32,
{
    blake3::hash(data).as_bytes().to_vec()
}

/// Appends a character to a string.
/// Calls `String::push`, which appends the character at the end.
#[verifier::external_body]
fn string_push(s: &mut String, c: char)
    ensures
        final(s)@ == old(s)@.push(c),
{
    s.push(c)
}

/// The lowercase hexadecimal digit of `n`, for `n` below 16.
pub open spec fn hex_digit(n: int) -> char {
    "0123456789abcdef"@[n]
}

/// Lowercase hexadecimal, two digits per byte, high half first.
pub open spec fn hex_lower(data: Seq<u8>) -> Seq<char>
    decreases data.len(),
{
    if data.len() == 0 {
        Seq::empty()
    } else {
        hex_lower(data.drop_last()) + seq![hex_digit(data.last() as int / 16), hex_digit(data.last() as int % 16)]
    }
}

/// The hash of a rendered configuration: the lowercase hexadecimal BLAKE3
/// digest of its UTF-8 bytes.
pub open spec fn config_hash_of(rendered: Seq<char>) -> Seq<char> {
    hex_lower(blake3_digest(encode_utf8(rendered)))
}

/// Encodes bytes in lowercase hexadecimal.
pub fn to_hex_lower(data: &Vec<u8>) -> (res: String)
    ensures
        res@ == hex_lower(data@),
        res@.len() == 2 * data@.len(),
{
    let digits = "0123456789abcdef";
    proof {
        reveal_strlit("0123456789abcdef");
    }
    let mut res = String::new();
    let n = data.len();
    for i in 0..n
        invariant
            n == data@.len(),
            digits@ == "0123456789abcdef"@,
            digits@.len() == 16,
            res@ == hex_lower(data@.take(i as int)),
            res@.len() == 2 * i,
    {
        let b = data[i];
        string_push(&mut res, digits.get_char((b / 16) as usize));
        string_push(&mut res, digits.get_char((b % 16) as usize));
        proof {
            assert(data@.take(i + 1).drop_last() =~= data@.take(i as int));
            assert(data@.take(i + 1).last() == b);
        }
    }
    proof {
        assert(data@.take(n as int) =~= data@);
    }
    res
}

/// The hash of a rendered configuration, as it stands in the annotation.
pub fn config_hash(rendered: &String) -> (res: String)
    ensures
        res@ == config_hash_of(rendered@),
        res@ == hex_lower(blake3_digest(encode_utf8(rendered@))),
        res@.len() == 64,
{
    let digest = blake3_hash(rendered.as_str().as_bytes());
    to_hex_lower(&digest)
}

} // verus!
