use vstd::prelude::*;

use vstd::utf8::{decode_utf8, encode_utf8, valid_utf8};

use crate::error::H5Error;

verus! {

/// True when the byte sequence holds the C string terminator.
pub open spec fn has_nul(bytes: Seq<u8>) -> bool {
    exists|i: int| 0 <= i < bytes.len() && bytes[i] == 0u8
}

/// The payload of a C string buffer: the bytes before the first terminator,
/// or the whole sequence where no terminator occurs.
pub open spec fn c_payload(bytes: Seq<u8>) -> Seq<u8>
    decreases bytes.len(),
{
    if bytes.len() == 0 || bytes[0] == 0u8 {
        Seq::empty()
    } else {
        seq![bytes[0]] + c_payload(bytes.drop_first())
    }
}

/// Where every byte before index `i` is non-zero and index `i` is the end or
/// a terminator, the payload is exactly the prefix before `i`.
pub proof fn lemma_c_payload_take(bytes: Seq<u8>, i: int)
    requires
        0 <= i <= bytes.len(),
        forall|j: int| 0 <= j < i ==> bytes[j] != 0u8,
        i < bytes.len() ==> bytes[i] == 0u8,
    ensures
        c_payload(bytes) == bytes.take(i),
    decreases i,
{
    if i == 0 {
        assert(bytes.take(0) =~= Seq::<u8>::empty());
    } else {
        assert(bytes[0] != 0u8);
        lemma_c_payload_take(bytes.drop_first(), i - 1);
        assert(bytes.take(i) =~= seq![bytes[0]] + bytes.drop_first().take(i - 1));
    }
}

/// Appending the terminator to terminator-free text and reading the payload
/// back yields the text unchanged: the byte-level round trip of a comment
/// across the C boundary.
pub proof fn lemma_c_payload_round_trip(text: Seq<u8>)
    requires
        !has_nul(text),
    ensures
        c_payload(text.push(0u8)) == text,
{
    lemma_c_payload_take(text.push(0u8), text.len() as int);
    assert(text.push(0u8).take(text.len() as int) =~= text);
}

/// Builds the null-terminated byte string handed to the native library: the
/// text's bytes followed by one terminator.  Text holding an embedded
/// terminator cannot be represented as a C string and is rejected with an
/// encoding error rather than truncated.
pub fn to_c_bytes(text: &[u8]) -> (r: Result<Vec<u8>, H5Error>)
    ensures
        r is Ok <==> !has_nul(text@),
        r is Ok ==> r->Ok_0@ == text@.push(0u8),
        r is Err ==> r == Err::<Vec<u8>, H5Error>(H5Error::StringEncoding),
{
    let mut out: Vec<u8> = Vec::new();
    let mut i: usize = 0;
    while i < text.len()
        invariant
            i <= text@.len(),
            out@ == text@.take(i as int),
            forall|j: int| 0 <= j < i ==> text@[j] != 0u8,
        decreases text@.len() - i,
    {
        let b = text[i];
        if b == 0 {
            proof {
                assert(text@[i as int] == 0u8);
            }
            return Err(H5Error::StringEncoding);
        }
        out.push(b);
        proof {
            assert(out@ =~= text@.take(i as int + 1));
        }
        i += 1;
    }
    out.push(0);
    proof {
        assert(text@.take(text@.len() as int) =~= text@);
        assert(out@ =~= text@.push(0u8));
    }
    Ok(out)
}

/// Reads the payload of a filled C string buffer: the bytes before the first
/// terminator, or the whole buffer where the native library wrote none.
pub fn payload_bytes(buf: &[u8]) -> (r: Vec<u8>)
    ensures
        r@ == c_payload(buf@),
{
    let mut out: Vec<u8> = Vec::new();
    let mut i: usize = 0;
    while i < buf.len()
        invariant
            i <= buf@.len(),
            out@ == buf@.take(i as int),
            forall|j: int| 0 <= j < i ==> buf@[j] != 0u8,
        decreases buf@.len() - i,
    {
        let b = buf[i];
        if b == 0 {
            proof {
                lemma_c_payload_take(buf@, i as int);
            }
            return out;
        }
        out.push(b);
        proof {
            assert(out@ =~= buf@.take(i as int + 1));
        }
        i += 1;
    }
    proof {
        lemma_c_payload_take(buf@, buf@.len() as int);
        assert(buf@.take(buf@.len() as int) =~= buf@);
    }
    out
}

/// Relies on String::from_utf8: it returns a string exactly when the bytes
/// are valid UTF-8, and the string's characters are the bytes' decoding.
#[verifier::external_body]
fn string_from_utf8(bytes: Vec<u8>) -> (r: Option<String>)
    ensures
        r is Some <==> valid_utf8(bytes@),
        r is Some ==> r->Some_0@ == decode_utf8(bytes@),
{
    String::from_utf8(bytes).ok()
}

/// Converts a filled C string buffer from the native text encoding: the
/// payload before the terminator, decoded as UTF-8.  A payload that is not
/// valid UTF-8 is an encoding error.
pub fn c_buffer_text(buf: &[u8]) -> (r: Result<String, H5Error>)
    ensures
        r is Ok <==> valid_utf8(c_payload(buf@)),
        r is Ok ==> r->Ok_0@ == decode_utf8(c_payload(buf@)),
        r is Err ==> r == Err::<String, H5Error>(H5Error::StringEncoding),
{
    let payload = payload_bytes(buf);
    match string_from_utf8(payload) {
        Some(s) => Ok(s),
        None => Err(H5Error::StringEncoding),
    }
}

/// Builds the null-terminated byte string for a comment given as text, as
/// the comment-setting call hands it to the native library.
pub fn comment_c_bytes(text: &str) -> (r: Result<Vec<u8>, H5Error>)
    ensures
        r is Ok <==> !has_nul(encode_utf8(text@)),
        r is Ok ==> r->Ok_0@ == encode_utf8(text@).push(0u8),
        r is Err ==> r == Err::<Vec<u8>, H5Error>(H5Error::StringEncoding),
{
    to_c_bytes(text.as_bytes())
}

/// Computes the buffer length for the second call of the size-then-fill
/// idiom: the reported text length plus one byte for the terminator, or an
/// error where the native library reported failure as a negative length.
pub fn buffer_size(len: isize) -> (r: Result<usize, H5Error>)
    ensures
        len >= 0 ==> r == Ok::<usize, H5Error>((len + 1) as usize),
        len < 0 ==> r == Err::<usize, H5Error>(H5Error::LibraryFailure),
{
    if len < 0 {
        Err(H5Error::LibraryFailure)
    } else {
        Ok((len as usize) + 1)
    }
}

/// Law: a comment whose encoding holds no embedded terminator byte survives
/// the trip across the C boundary: encoding it, appending the terminator,
/// reading the payload back and decoding it yields the original text.
pub proof fn lemma_comment_round_trip(text: Seq<char>)
    requires
        !has_nul(encode_utf8(text)),
    ensures
        valid_utf8(c_payload(encode_utf8(text).push(0u8))),
        decode_utf8(c_payload(encode_utf8(text).push(0u8))) == text,
{
    lemma_c_payload_round_trip(encode_utf8(text));
    vstd::utf8::encode_utf8_valid_utf8(text);
    vstd::utf8::encode_utf8_decode_utf8(text);
}

} // verus!
