//! Strings crossing the host boundary. The host speaks an 8-bit code page
//! (Shift-JIS); this layer encodes outgoing strings, decodes incoming
//! bytes, and reports a typed error instead of ever handing the host a
//! string its code page cannot carry.

use vstd::prelude::*;
use crate::AviUtlError;

verus! {

/// What encoding a string into the host's code page yields: the encoded
/// bytes, and whether any character was unmappable (and so replaced).
pub uninterp spec fn sjis_encoding(s: Seq<char>) -> (Seq<u8>, bool);

/// What decoding bytes from the host's code page yields: the decoded
/// characters, and whether any sequence was malformed (and so replaced).
pub uninterp spec fn sjis_decoding(b: Seq<u8>) -> (Seq<char>, bool);

/// Relies on `encoding_rs::SHIFT_JIS.encode`: the encoded bytes and the
/// unmappable-character flag are a function of the input string alone; an
/// empty string encodes to no bytes with no error. The length bound keeps
/// the input far from the encoder's internal size-calculation overflow,
/// on which it would panic.
#[verifier::external_body]
fn sjis_encode_bytes(s: &str) -> (r: (Vec<u8>, bool))
    requires
        s@.len() <= 0x100_0000,
    ensures
        r.0@ == sjis_encoding(s@).0,
        r.1 == sjis_encoding(s@).1,
        s@.len() == 0 ==> r.0@.len() == 0 && !r.1,
{
    let (cow, _, had_errors) = encoding_rs::SHIFT_JIS.encode(s);
    (cow.into_owned(), had_errors)
}

/// Relies on `encoding_rs::SHIFT_JIS.decode_without_bom_handling`: the
/// decoded string and the malformed-sequence flag are a function of the
/// input bytes alone, every byte read as the host's code page (no
/// byte-order-mark sniffing, whose lead bytes are legal code-page pairs);
/// empty input decodes to the empty string with no error. The length
/// bound keeps the input far from the decoder's internal size-calculation
/// overflow, on which it would panic.
#[verifier::external_body]
fn sjis_decode_string(b: &[u8]) -> (r: (String, bool))
    requires
        b@.len() <= 0x100_0000,
    ensures
        r.0@ == sjis_decoding(b@).0,
        r.1 == sjis_decoding(b@).1,
        b@.len() == 0 ==> r.0@.len() == 0 && !r.1,
{
    let (cow, had_errors) = encoding_rs::SHIFT_JIS.decode_without_bom_handling(b);
    (cow.into_owned(), had_errors)
}

/// Encodes a string for the host, without a terminator. Fails with an
/// encoding error exactly when some character has no place in the host's
/// code page.
pub fn to_host_str(s: &str) -> (r: Result<Vec<u8>, AviUtlError>)
    requires
        s@.len() <= 0x100_0000,
    ensures
        match r {
            Ok(v) => !sjis_encoding(s@).1 && v@ == sjis_encoding(s@).0,
            Err(e) => sjis_encoding(s@).1 && e == AviUtlError::Encoding,
        },
{
    let (bytes, had_errors) = sjis_encode_bytes(s);
    if had_errors {
        Err(AviUtlError::Encoding)
    } else {
        Ok(bytes)
    }
}

/// Encodes a string for the host as a zero-terminated byte string. Fails
/// with an encoding error exactly when a character has no place in the
/// host's code page or the encoded bytes contain an interior zero (which a
/// zero-terminated string cannot carry).
pub fn to_host_cstr(s: &str) -> (r: Result<Vec<u8>, AviUtlError>)
    requires
        s@.len() <= 0x100_0000,
    ensures
        match r {
            Ok(v) => {
                &&& !sjis_encoding(s@).1
                &&& v@ == sjis_encoding(s@).0 + seq![0u8]
                &&& forall|i: int| 0 <= i < v@.len() - 1 ==> v@[i] != 0
            },
            Err(e) => {
                &&& e == AviUtlError::Encoding
                &&& (sjis_encoding(s@).1 || exists|i: int|
                    0 <= i < sjis_encoding(s@).0.len() && sjis_encoding(s@).0[i] == 0)
            },
        },
{
    let (mut bytes, had_errors) = sjis_encode_bytes(s);
    if had_errors {
        return Err(AviUtlError::Encoding);
    }
    let n = bytes.len();
    let mut i: usize = 0;
    while i < n
        invariant
            n == bytes@.len(),
            i <= n,
            bytes@ == sjis_encoding(s@).0,
            !sjis_encoding(s@).1,
            forall|j: int| 0 <= j < i ==> bytes@[j] != 0,
        decreases n - i,
    {
        if bytes[i] == 0 {
            proof {
                assert(exists|j: int|
                    0 <= j < sjis_encoding(s@).0.len() && sjis_encoding(s@).0[j] == 0) by {
                    assert(sjis_encoding(s@).0[i as int] == 0);
                }
            }
            return Err(AviUtlError::Encoding);
        }
        i += 1;
    }
    bytes.push(0);
    Ok(bytes)
}

/// Decodes bytes the host handed over. Fails with an encoding error
/// exactly when some byte sequence is malformed in the host's code page.
pub fn from_host_str(b: &[u8]) -> (r: Result<String, AviUtlError>)
    requires
        b@.len() <= 0x100_0000,
    ensures
        match r {
            Ok(v) => !sjis_decoding(b@).1 && v@ == sjis_decoding(b@).0,
            Err(e) => sjis_decoding(b@).1 && e == AviUtlError::Encoding,
        },
{
    let (text, had_errors) = sjis_decode_string(b);
    if had_errors {
        Err(AviUtlError::Encoding)
    } else {
        Ok(text)
    }
}

/// Decodes bytes the host handed over, keeping the replacement characters
/// the decoder substituted for malformed sequences, as a display-oriented
/// caller would.
pub fn from_host_str_lossy(b: &[u8]) -> (r: String)
    requires
        b@.len() <= 0x100_0000,
    ensures
        r@ == sjis_decoding(b@).0,
{
    let (text, _) = sjis_decode_string(b);
    text
}

} // verus!
