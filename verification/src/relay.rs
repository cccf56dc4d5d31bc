//! Opaque relay cursors (an `i64` index plus an identity such as a table name) and the
//! window a connection query fetches.
use vstd::prelude::*;

use crate::codec::{b64_std_decode, b64_std_encode, base64_std_decoding, base64_std_encoding};

verus! {

/// Why a cursor could not be read back.
#[derive(Debug)]
pub enum CursorError {
    InvalidLength,
    IdentityMismatch,
    Base64Decode(base64::DecodeError),
}

/// The message a cursor error is reported with, given the display text `inner` of the
/// decoding error it wraps, if any.
pub open spec fn cursor_error_message(e: CursorError, inner: Seq<char>) -> Seq<char> {
    match e {
        CursorError::InvalidLength => "Cursor has invalid length"@,
        CursorError::IdentityMismatch => "Decoded cursor identity mismatch"@,
        CursorError::Base64Decode(_) => "Base64 decode error: "@ + inner,
    }
}

/// Whether `inner` is the display text of the decoding error `e` wraps (empty when it
/// wraps none).
pub open spec fn cursor_error_inner(e: CursorError, inner: String) -> bool {
    match e {
        CursorError::Base64Decode(d) => vstd::string::to_string_from_display_ensures::<
            base64::DecodeError,
        >(&d, inner),
        _ => inner@ == Seq::<char>::empty(),
    }
}

impl CursorError {
    /// The message the error is reported with.
    pub fn message(&self) -> (res: String)
        ensures
            exists|inner: String| cursor_error_inner(*self, inner) && res@ == cursor_error_message(*self, inner@),
    {
        let (prefix, inner) = match self {
            CursorError::InvalidLength => ("Cursor has invalid length", String::new()),
            CursorError::IdentityMismatch => ("Decoded cursor identity mismatch", String::new()),
            CursorError::Base64Decode(e) => ("Base64 decode error: ", e.to_string()),
        };
        proof {
            reveal_strlit("Cursor has invalid length");
            reveal_strlit("Decoded cursor identity mismatch");
            assert(cursor_error_inner(*self, inner));
        }
        let res = prefix.to_owned().concat(inner.as_str());
        proof {
            assert(res@ =~= cursor_error_message(*self, inner@));
        }
        res
    }
}

/// The eight big-endian bytes of `x` in two's complement.
pub open spec fn be_bytes(x: i64) -> Seq<u8> {
    let u = x as u64;
    seq![
        (u >> 56u64) as u8,
        (u >> 48u64) as u8,
        (u >> 40u64) as u8,
        (u >> 32u64) as u8,
        (u >> 24u64) as u8,
        (u >> 16u64) as u8,
        (u >> 8u64) as u8,
        u as u8,
    ]
}

/// The `i64` whose big-endian two's complement bytes are the first eight of `b`.
pub open spec fn from_be_bytes(b: Seq<u8>) -> i64
    recommends
        b.len() >= 8,
{
    ((b[0] as u64) << 56u64 | (b[1] as u64) << 48u64 | (b[2] as u64) << 40u64 | (b[3] as u64)
        << 32u64 | (b[4] as u64) << 24u64 | (b[5] as u64) << 16u64 | (b[6] as u64) << 8u64 | (
    b[7] as u64)) as i64
}

/// Reading back the bytes of an index gives the index.
pub proof fn lemma_be_bytes_roundtrip(x: i64)
    ensures
        from_be_bytes(be_bytes(x)) == x,
{
    let u = x as u64;
    assert(((((u >> 56u64) as u8) as u64) << 56u64 | (((u >> 48u64) as u8) as u64) << 48u64 | (((u
        >> 40u64) as u8) as u64) << 40u64 | (((u >> 32u64) as u8) as u64) << 32u64 | (((u
        >> 24u64) as u8) as u64) << 24u64 | (((u >> 16u64) as u8) as u64) << 16u64 | (((u
        >> 8u64) as u8) as u64) << 8u64 | ((u as u8) as u64)) == u) by (bit_vector);
    assert(((x as u64) as i64) == x) by (bit_vector);
}

/// The bytes a cursor's text stands for: `prefix`, then the index, then the identity.
pub open spec fn cursor_bytes(prefix: Seq<u8>, index: i64, ident: Seq<u8>) -> Seq<u8> {
    prefix + be_bytes(index) + ident
}

/// Appends the big-endian bytes of `index` and then `ident` to `wtr`, and returns the
/// standard base64 text of everything `wtr` then holds.
pub fn encode_cursor(wtr: &mut Vec<u8>, index: i64, ident: &[u8]) -> (res: Result<
    String,
    CursorError,
>)
    ensures
        final(wtr)@ == cursor_bytes(old(wtr)@, index, ident@),
        res matches Ok(text) && text@ == base64_std_encoding(final(wtr)@),
        res matches Ok(text) && base64_std_decoding(vstd::utf8::encode_utf8(text@)) == Some(
            final(wtr)@,
        ),
        res matches Ok(text) && vstd::utf8::encode_utf8(text@).len() == 4 * ((final(wtr)@.len() + 2) / 3),
        old(wtr)@.len() == 0 ==> (res matches Ok(text) && cursor_reads_back(text@, index, ident@)),
{
    let u = index as u64;
    wtr.push((u >> 56u64) as u8);
    wtr.push((u >> 48u64) as u8);
    wtr.push((u >> 40u64) as u8);
    wtr.push((u >> 32u64) as u8);
    wtr.push((u >> 24u64) as u8);
    wtr.push((u >> 16u64) as u8);
    wtr.push((u >> 8u64) as u8);
    wtr.push(u as u8);
    let mut i: usize = 0;
    let ghost mid = wtr@;
    while i < ident.len()
        invariant
            i <= ident@.len(),
            wtr@ == mid + ident@.take(i as int),
        decreases ident.len() - i,
    {
        wtr.push(ident[i]);
        i = i + 1;
        proof {
            assert(wtr@ =~= mid + ident@.take(i as int));
        }
    }
    proof {
        assert(ident@.take(ident@.len() as int) =~= ident@);
        assert(mid =~= old(wtr)@ + be_bytes(index));
        assert(wtr@ =~= cursor_bytes(old(wtr)@, index, ident@));
    }
    let text = b64_std_encode(wtr.as_slice());
    proof {
        vstd::utf8::is_ascii_chars_encode_utf8(text@);
        let n = wtr@.len();
        assert((n + 2) / 3 >= 3) by (nonlinear_arith)
            requires
                n >= 8,
        ;
        if old(wtr)@.len() == 0 {
            assert(old(wtr)@ =~= Seq::<u8>::empty());
        }
    }
    Ok(text)
}

/// Whether decoding the cursor text `encoded` could stop short of the eight index bytes.
pub open spec fn cursor_too_short(encoded: Seq<u8>) -> bool {
    &&& encoded.len() > 8
    &&& base64_std_decoding(encoded) is Some
    &&& base64_std_decoding(encoded)->0.len() < 8
}

/// Whether decoding the cursor text `encoded` stops short of the eight index bytes.
pub fn is_cursor_too_short(encoded: &[u8]) -> (res: bool)
    ensures
        res == cursor_too_short(encoded@),
{
    if encoded.len() > 8 {
        match b64_std_decode(encoded) {
            Ok(d) => d.len() < 8,
            Err(_) => false,
        }
    } else {
        false
    }
}

/// Reads the index back from the cursor text `encoded`, checking that the bytes after
/// the index are `ident`.
pub fn decode_cursor(encoded: Vec<u8>, ident: &[u8]) -> (res: Result<i64, CursorError>)
    requires
        !cursor_too_short(encoded@),
    ensures
        encoded@.len() <= 8 ==> res matches Err(CursorError::InvalidLength),
        encoded@.len() > 8 && base64_std_decoding(encoded@) is None ==> res matches Err(
            CursorError::Base64Decode(_),
        ),
        encoded@.len() > 8 && base64_std_decoding(encoded@) is Some ==> ({
            let d = base64_std_decoding(encoded@)->0;
            if d.skip(8) == ident@ {
                res matches Ok(index) && index == from_be_bytes(d)
            } else {
                res matches Err(CursorError::IdentityMismatch)
            }
        }),
{
    if encoded.len() <= 8 {
        return Err(CursorError::InvalidLength);
    }
    let decoded = match b64_std_decode(encoded.as_slice()) {
        Ok(d) => d,
        Err(e) => return Err(CursorError::Base64Decode(e)),
    };
    let n = decoded.len();
    let mut same = n - 8 == ident.len();
    let mut i: usize = 0;
    while same && i < ident.len()
        invariant
            n == decoded@.len() >= 8,
            i <= ident@.len(),
            same ==> n - 8 == ident@.len(),
            same ==> forall|j: int| 0 <= j < i ==> decoded@[8 + j] == ident@[j],
            !same ==> decoded@.skip(8) != ident@,
        decreases ident.len() - i + (if same { 1int } else { 0 }),
    {
        if decoded[8 + i] != ident[i] {
            proof {
                assert(decoded@.skip(8)[i as int] == decoded@[8 + i]);
            }
            same = false;
        } else {
            i = i + 1;
        }
    }
    if !same {
        return Err(CursorError::IdentityMismatch);
    }
    proof {
        assert(decoded@.skip(8) =~= ident@);
    }
    let index = (((decoded[0] as u64) << 56u64) | ((decoded[1] as u64) << 48u64) | ((
    decoded[2] as u64) << 40u64) | ((decoded[3] as u64) << 32u64) | ((decoded[4] as u64)
        << 24u64) | ((decoded[5] as u64) << 16u64) | ((decoded[6] as u64) << 8u64) | (
    decoded[7] as u64)) as i64;
    Ok(index)
}

/// `decode_cursor` for any text: `None` when the text decodes to fewer bytes than an
/// index takes, otherwise what `decode_cursor` gives.
pub fn try_decode_cursor(encoded: Vec<u8>, ident: &[u8]) -> (res: Option<Result<i64, CursorError>>)
    ensures
        cursor_too_short(encoded@) <==> res is None,
        res matches Some(r) ==> (encoded@.len() <= 8 ==> r matches Err(
            CursorError::InvalidLength,
        )),
        res matches Some(r) ==> (encoded@.len() > 8 && base64_std_decoding(encoded@) is None
            ==> r matches Err(CursorError::Base64Decode(_))),
        res matches Some(r) ==> (encoded@.len() > 8 && base64_std_decoding(encoded@) is Some
            ==> ({
            let d = base64_std_decoding(encoded@)->0;
            if d.skip(8) == ident@ {
                r matches Ok(index) && index == from_be_bytes(d)
            } else {
                r matches Err(CursorError::IdentityMismatch)
            }
        })),
{
    if encoded.len() > 8 {
        match b64_std_decode(encoded.as_slice()) {
            Ok(d) => {
                if d.len() < 8 {
                    return None;
                }
            },
            Err(_) => {},
        }
    }
    Some(decode_cursor(encoded, ident))
}

/// The index a cursor text stands for under identity `ident`, when it reads back.
pub open spec fn cursor_index(encoded: Seq<u8>, ident: Seq<u8>) -> Option<i64> {
    if encoded.len() > 8 && base64_std_decoding(encoded) is Some && base64_std_decoding(
        encoded,
    )->0.skip(8) == ident {
        Some(from_be_bytes(base64_std_decoding(encoded)->0))
    } else {
        None
    }
}

/// Whether the cursor text `text` decodes to the cursor bytes of `index` under `ident`,
/// with more than the eight index bytes of text.
pub open spec fn cursor_reads_back(text: Seq<char>, index: i64, ident: Seq<u8>) -> bool {
    let e = vstd::utf8::encode_utf8(text);
    &&& e.len() > 8
    &&& base64_std_decoding(e) == Some(cursor_bytes(Seq::empty(), index, ident))
}

/// A cursor text made from an empty buffer reads back as its index under the same
/// identity, and as a mismatch under any other. `encode_cursor` on an empty buffer,
/// and every edge of a page, give such texts.
pub proof fn law_cursor_roundtrip(index: i64, ident: Seq<u8>, other: Seq<u8>, text: Seq<char>)
    requires
        cursor_reads_back(text, index, ident),
        other != ident,
    ensures
        !cursor_too_short(vstd::utf8::encode_utf8(text)),
        cursor_index(vstd::utf8::encode_utf8(text), ident) == Some(index),
        cursor_index(vstd::utf8::encode_utf8(text), other) is None,
{
    let b = cursor_bytes(Seq::empty(), index, ident);
    assert(b.skip(8) =~= ident);
    lemma_be_bytes_roundtrip(index);
    assert(b.take(8) =~= be_bytes(index));
    assert(from_be_bytes(b) == from_be_bytes(be_bytes(index))) by {
        assert(b[0] == be_bytes(index)[0]);
        assert(b[1] == be_bytes(index)[1]);
        assert(b[2] == be_bytes(index)[2]);
        assert(b[3] == be_bytes(index)[3]);
        assert(b[4] == be_bytes(index)[4]);
        assert(b[5] == be_bytes(index)[5]);
        assert(b[6] == be_bytes(index)[6]);
        assert(b[7] == be_bytes(index)[7]);
    }
}

} // verus!
