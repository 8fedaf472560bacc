//! Transcoding between host strings and the legacy double-byte code page,
//! and extraction of terminator-delimited text from response buffers.
//!
//! Text crosses the native boundary encoded in the GBK code page and, on the
//! way back, sits in a fixed-size buffer terminated by the first zero byte.
//! The terminator scan and every decision around it are verified here; the
//! code-page conversion itself is performed by `encoding_rs` behind two
//! trusted wrappers whose results are named by the uninterpreted functions
//! [`gbk_encode_of`] and [`gbk_decode_of`].

use vstd::prelude::*;

use crate::error::CtApiError;

verus! {

/// Upper bound on the byte or character count handed to the code-page
/// converters; keeps their internal output-size arithmetic, which works in
/// `usize`, far from overflow.
pub const MAX_CODEC_LEN: usize = 0x1000_0000;

/// The bytes that the GBK encoder produces for the given text.
pub uninterp spec fn gbk_encode_of(s: Seq<char>) -> Seq<u8>;

/// The text that the GBK decoder produces for the given bytes.
pub uninterp spec fn gbk_decode_of(b: Seq<u8>) -> Seq<char>;

/// All characters lie in the seven-bit range.
pub open spec fn ascii_chars(s: Seq<char>) -> bool {
    forall|i: int| 0 <= i < s.len() ==> (s[i] as u32) < 0x80
}

/// All bytes lie in the seven-bit range.
pub open spec fn ascii_bytes(b: Seq<u8>) -> bool {
    forall|i: int| 0 <= i < b.len() ==> b[i] < 0x80
}

/// Each byte read as the character with the same code.
pub open spec fn chars_of_bytes(b: Seq<u8>) -> Seq<char> {
    b.map_values(|x: u8| x as char)
}

/// Relies on `encoding_rs::Encoding::encode` with the GBK encoding. Its
/// result is a function of the input text alone: unmappable characters are
/// substituted with numeric character references, never rejected, and (per
/// the crate's ASCII fast path) ASCII-only text encodes to its own bytes.
#[verifier::external_body]
pub(crate) fn gbk_encode(s: &str) -> (r: Vec<u8>)
    requires
        s@.len() < MAX_CODEC_LEN,
    ensures
        r@ == gbk_encode_of(s@),
        ascii_chars(s@) ==> chars_of_bytes(r@) == s@,
{
    encoding_rs::GBK.encode(s).0.into_owned()
}

/// Relies on `encoding_rs::Encoding::decode` with the GBK encoding. Its
/// result is a function of the input bytes alone: malformed sequences are
/// substituted with the replacement character, never rejected, and (per the
/// crate's ASCII fast path) ASCII-only input decodes to its own bytes.
#[verifier::external_body]
pub(crate) fn gbk_decode(b: &[u8]) -> (r: String)
    requires
        b@.len() < MAX_CODEC_LEN,
    ensures
        r@ == gbk_decode_of(b@),
        ascii_bytes(b@) ==> r@ == chars_of_bytes(b@),
{
    encoding_rs::GBK.decode(b).0.to_string()
}

/// Some byte of the buffer is the zero terminator.
pub open spec fn has_nul(b: Seq<u8>) -> bool {
    exists|i: int| 0 <= i < b.len() && b[i] == 0
}

/// Index of the first zero byte, or the length when there is none.
pub open spec fn first_nul(b: Seq<u8>) -> int
    decreases b.len(),
{
    if b.len() == 0 {
        0
    } else if b[0] == 0 {
        0
    } else {
        1 + first_nul(b.drop_first())
    }
}

/// The bytes before the first zero terminator.
pub open spec fn nul_prefix(b: Seq<u8>) -> Seq<u8> {
    b.take(first_nul(b))
}

/// The first-terminator index is the unique position that is zero and has
/// no zero before it; when no byte is zero it equals the length.
pub proof fn lemma_first_nul(b: Seq<u8>)
    ensures
        0 <= first_nul(b) <= b.len(),
        first_nul(b) < b.len() ==> b[first_nul(b)] == 0,
        forall|j: int| 0 <= j < first_nul(b) ==> b[j] != 0,
        has_nul(b) <==> first_nul(b) < b.len(),
    decreases b.len(),
{
    if b.len() == 0 {
    } else if b[0] == 0 {
    } else {
        lemma_first_nul(b.drop_first());
        assert forall|j: int| 0 <= j < first_nul(b) implies b[j] != 0 by {
            if j > 0 {
                assert(b.drop_first()[j - 1] != 0);
            }
        }
        if has_nul(b) {
            let i = choose|i: int| 0 <= i < b.len() && b[i] == 0;
            assert(b.drop_first()[i - 1] == 0);
        }
        if first_nul(b) < b.len() {
            assert(b[first_nul(b)] == b.drop_first()[first_nul(b.drop_first())]);
        }
    }
}

/// A position that is zero with no zero before it is the first-terminator
/// index.
proof fn lemma_first_nul_at(b: Seq<u8>, i: int)
    requires
        0 <= i < b.len(),
        b[i] == 0,
        forall|j: int| 0 <= j < i ==> b[j] != 0,
    ensures
        first_nul(b) == i,
{
    lemma_first_nul(b);
    if first_nul(b) < i {
        assert(b[first_nul(b)] != 0);
    }
}

/// Index of the first zero byte of the buffer, if any.
pub fn find_nul(buffer: &[u8]) -> (r: Option<usize>)
    ensures
        match r {
            Some(i) => i == first_nul(buffer@) && i < buffer@.len(),
            None => !has_nul(buffer@) && first_nul(buffer@) == buffer@.len(),
        },
{
    let n = buffer.len();
    for i in 0..n
        invariant
            n == buffer@.len(),
            forall|j: int| 0 <= j < i ==> buffer@[j] != 0,
    {
        if buffer[i] == 0 {
            proof {
                lemma_first_nul_at(buffer@, i as int);
            }
            return Some(i);
        }
    }
    proof {
        lemma_first_nul(buffer@);
    }
    None
}

/// Text recovered from a response buffer: the bytes before the first zero
/// terminator, decoded from the legacy code page. Fails with a decoding
/// error exactly when the buffer holds no terminator.
pub fn extract_string_from_buffer(buffer: &[u8]) -> (r: Result<String, CtApiError>)
    requires
        buffer@.len() < MAX_CODEC_LEN,
    ensures
        r is Ok <==> has_nul(buffer@),
        r matches Ok(s) ==> s@ == gbk_decode_of(nul_prefix(buffer@)),
        r matches Ok(s) ==> (ascii_bytes(nul_prefix(buffer@)) ==> s@ == chars_of_bytes(
            nul_prefix(buffer@),
        )),
        r matches Err(e) ==> e matches CtApiError::Decoding,
{
    proof {
        lemma_first_nul(buffer@);
    }
    match find_nul(buffer) {
        None => Err(CtApiError::Decoding),
        Some(end) => {
            let mut prefix: Vec<u8> = Vec::new();
            let mut k: usize = 0;
            while k < end
                invariant
                    end < buffer@.len(),
                    k <= end,
                    prefix@ == buffer@.take(k as int),
                decreases end - k,
            {
                prefix.push(buffer[k]);
                k += 1;
                proof {
                    assert(prefix@ =~= buffer@.take(k as int));
                }
            }
            assert(prefix@ =~= nul_prefix(buffer@));
            Ok(gbk_decode(prefix.as_slice()))
        },
    }
}

/// Text recovered from an API response buffer, with an empty response
/// reported as an error: succeeds exactly when the buffer holds a terminator
/// and the decoded text is non-empty.
pub fn decode_response_buffer(buffer: &[u8]) -> (r: Result<String, CtApiError>)
    requires
        buffer@.len() < MAX_CODEC_LEN,
    ensures
        r is Ok <==> has_nul(buffer@) && gbk_decode_of(nul_prefix(buffer@)).len() > 0,
        r matches Ok(s) ==> s@ == gbk_decode_of(nul_prefix(buffer@)),
        r matches Ok(s) ==> (ascii_bytes(nul_prefix(buffer@)) ==> s@ == chars_of_bytes(
            nul_prefix(buffer@),
        )),
        !has_nul(buffer@) ==> (r matches Err(e) && e matches CtApiError::Decoding),
        has_nul(buffer@) && gbk_decode_of(nul_prefix(buffer@)).len() == 0 ==> (r matches Err(e)
            && e matches CtApiError::Other { code, message } && code == 0 && message@
            == "API returned empty response"@),
{
    let decoded = extract_string_from_buffer(buffer)?;
    if decoded.as_str().is_empty() {
        Err(
            CtApiError::Other {
                code: 0,
                message: "API returned empty response".to_owned(),
            },
        )
    } else {
        Ok(decoded)
    }
}

/// Text encoded for the native boundary as a zero-terminated string's
/// content: succeeds exactly when the encoded form holds no embedded zero
/// byte.
pub fn encode_to_gbk_cstring(s: &str) -> (r: Option<Vec<u8>>)
    requires
        s@.len() < MAX_CODEC_LEN,
    ensures
        r is Some <==> !has_nul(gbk_encode_of(s@)),
        r matches Some(v) ==> v@ == gbk_encode_of(s@),
{
    let encoded = gbk_encode(s);
    proof {
        lemma_first_nul(encoded@);
    }
    match find_nul(encoded.as_slice()) {
        Some(_) => None,
        None => Some(encoded),
    }
}

/// Law: encoding text into the legacy code page and decoding the bytes back
/// gives the decoder's reading of the encoder's output for every input —
/// the code page substitutes, and never rejects, text it cannot represent —
/// and returns the original text itself for ASCII text. (That the identity
/// extends to all representable text is exercised end to end by tests.) An
/// encoding too large for the transcoder's machine limit yields the empty
/// string.
pub fn gbk_round_trip(s: &str) -> (r: String)
    requires
        s@.len() < MAX_CODEC_LEN,
    ensures
        gbk_encode_of(s@).len() < MAX_CODEC_LEN ==> r@ == gbk_decode_of(gbk_encode_of(s@)),
        gbk_encode_of(s@).len() >= MAX_CODEC_LEN ==> r@ == Seq::<char>::empty(),
        ascii_chars(s@) ==> r@ == s@,
{
    let encoded = gbk_encode(s);
    if encoded.len() < MAX_CODEC_LEN {
        let decoded = gbk_decode(encoded.as_slice());
        proof {
            if ascii_chars(s@) {
                assert forall|i: int| 0 <= i < encoded@.len() implies encoded@[i] < 0x80 by {
                    assert(chars_of_bytes(encoded@)[i] == encoded@[i] as char);
                    assert((s@[i] as u32) < 0x80);
                }
            }
        }
        decoded
    } else {
        proof {
            if ascii_chars(s@) {
                assert(chars_of_bytes(encoded@).len() == s@.len());
            }
        }
        String::new()
    }
}

} // verus!
