//! Conversion between length-known text and the null-terminated byte
//! strings that the host keeps in its own memory.
//!
//! Host memory is modelled as a sequence of bytes. A host string is the run
//! of bytes before the first zero byte; text is the UTF-8 decoding of that
//! run.

use vstd::prelude::*;
use vstd::slice::slice_subrange;
use vstd::string::StringSliceAdditionalSpecFns;
use vstd::utf8::{
    decode_utf8, decode_utf8_encode_utf8, encode_utf8, encode_utf8_decode_utf8,
    encode_utf8_valid_utf8, valid_utf8,
};

verus! {

/// Why a conversion between text and a host string failed.
#[derive(Debug, Clone, Copy, PartialEq, Eq, Structural)]
pub enum StringError {
    /// The text holds a zero byte, which a null-terminated string cannot carry.
    ContainsInteriorNul,
    /// The host memory holds no terminator, or the bytes before it are not UTF-8.
    InvalidEncoding,
}

/// True when some byte of `bytes` is zero.
pub open spec fn has_nul(bytes: Seq<u8>) -> bool {
    exists|i: int| 0 <= i < bytes.len() && bytes[i] == 0
}

/// True when `i` is the position of the first zero byte of `mem`.
pub open spec fn is_terminator(mem: Seq<u8>, i: int) -> bool {
    &&& 0 <= i < mem.len()
    &&& mem[i] == 0
    &&& forall|j: int| 0 <= j < i ==> mem[j] != 0
}

/// The position of the first zero byte of `mem`, where it has one.
pub open spec fn terminator(mem: Seq<u8>) -> int {
    choose|i: int| is_terminator(mem, i)
}

/// The bytes of the host string that starts `mem`: all that stand before
/// the first zero byte.
pub open spec fn content(mem: Seq<u8>) -> Seq<u8> {
    mem.subrange(0, terminator(mem))
}

/// True when `mem` is one whole host string and nothing more: UTF-8 bytes
/// without a zero among them, then the terminator as the last byte.
pub open spec fn is_host_string(mem: Seq<u8>) -> bool {
    &&& mem.len() > 0
    &&& is_terminator(mem, mem.len() - 1)
    &&& valid_utf8(mem.drop_last())
}

/// The host string that carries `text`: its UTF-8 bytes followed by one
/// zero byte, or nothing where those bytes hold a zero themselves.
pub open spec fn host_encoding(text: Seq<char>) -> Option<Seq<u8>> {
    if has_nul(encode_utf8(text)) {
        None
    } else {
        Some(encode_utf8(text).push(0u8))
    }
}

/// The text that the host string at the start of `mem` carries, or nothing
/// where `mem` holds no terminator or the bytes before it are not UTF-8.
pub open spec fn host_decoding(mem: Seq<u8>) -> Option<Seq<char>> {
    if has_nul(mem) && valid_utf8(content(mem)) {
        Some(decode_utf8(content(mem)))
    } else {
        None
    }
}

/// A sequence has at most one first zero byte.
pub proof fn lemma_terminator_unique(mem: Seq<u8>, i: int)
    requires
        is_terminator(mem, i),
    ensures
        has_nul(mem),
        terminator(mem) == i,
        content(mem) == mem.subrange(0, i),
{
    let t = terminator(mem);
    assert(is_terminator(mem, t));
    if t < i {
        assert(mem[t] != 0);
    }
    if i < t {
        assert(mem[i] != 0);
    }
}

/// A sequence with a zero byte at `k` has a first zero byte, at or before `k`.
proof fn lemma_first_nul(mem: Seq<u8>, k: int) -> (i: int)
    requires
        0 <= k < mem.len(),
        mem[k] == 0,
    ensures
        is_terminator(mem, i),
        i <= k,
    decreases k,
{
    if exists|j: int| 0 <= j < k && mem[j] == 0 {
        let j = choose|j: int| 0 <= j < k && mem[j] == 0;
        lemma_first_nul(mem, j)
    } else {
        k
    }
}

/// A sequence that holds a zero byte has a terminator.
pub proof fn lemma_terminator_exists(mem: Seq<u8>)
    requires
        has_nul(mem),
    ensures
        is_terminator(mem, terminator(mem)),
{
    let k = choose|k: int| 0 <= k < mem.len() && mem[k] == 0;
    lemma_first_nul(mem, k);
}

/// Text that was written to host memory reads back as itself: for every text
/// that a host string can carry, decoding its host string yields the text
/// again.
pub proof fn lemma_round_trip(text: Seq<char>)
    requires
        host_encoding(text) is Some,
    ensures
        is_host_string(host_encoding(text).unwrap()),
        host_decoding(host_encoding(text).unwrap()) == Some(text),
{
    let bytes = encode_utf8(text);
    let mem = bytes.push(0u8);
    assert(is_terminator(mem, bytes.len() as int)) by {
        assert forall|j: int| 0 <= j < bytes.len() implies mem[j] != 0 by {
            assert(mem[j] == bytes[j]);
        }
    }
    lemma_terminator_unique(mem, bytes.len() as int);
    assert(content(mem) =~= bytes);
    assert(mem.drop_last() =~= bytes);
    encode_utf8_valid_utf8(text);
    encode_utf8_decode_utf8(text);
}

/// A host string that decodes to some text is, up to and including its
/// terminator, the encoding of that text.
pub proof fn lemma_decoded_text_encodes_back(mem: Seq<u8>)
    requires
        host_decoding(mem) is Some,
    ensures
        host_encoding(host_decoding(mem).unwrap()) == Some(content(mem).push(0u8)),
{
    lemma_terminator_exists(mem);
    let bytes = content(mem);
    decode_utf8_encode_utf8(bytes);
    assert(!has_nul(bytes)) by {
        if has_nul(bytes) {
            let i = choose|i: int| 0 <= i < bytes.len() && bytes[i] == 0;
            assert(mem[i] == bytes[i]);
        }
    }
}

/// `core::str::from_utf8`, with its error dropped: the bytes are returned as
/// text exactly when they are valid UTF-8, and the text then has those very
/// bytes as its encoding.
#[verifier::external_body]
fn utf8_text<'a>(bytes: &'a [u8]) -> (text: Option<&'a str>)
    ensures
        text is Some <==> valid_utf8(bytes@),
        text matches Some(s) ==> s.spec_bytes() == bytes@,
{
    core::str::from_utf8(bytes).ok()
}

/// Finds the first zero byte of `mem`.
pub fn find_terminator(mem: &[u8]) -> (at: Option<usize>)
    ensures
        match at {
            Some(i) => is_terminator(mem@, i as int),
            None => !has_nul(mem@),
        },
{
    let mut i: usize = 0;
    while i < mem.len()
        invariant
            i <= mem.len(),
            forall|j: int| 0 <= j < i ==> mem@[j] != 0,
        decreases mem.len() - i,
    {
        if mem[i] == 0 {
            return Some(i);
        }
        i += 1;
    }
    None
}

/// Encodes `text` as a fresh null-terminated buffer for the host to own.
///
/// Fails with `ContainsInteriorNul` exactly when the UTF-8 bytes of `text`
/// hold a zero byte.
pub fn to_host_string(text: &str) -> (r: Result<Vec<u8>, StringError>)
    ensures
        match r {
            Ok(buf) => host_encoding(text@) == Some(buf@),
            Err(e) => e == StringError::ContainsInteriorNul && host_encoding(text@) is None,
        },
{
    let bytes = text.as_bytes();
    let mut buf: Vec<u8> = Vec::new();
    let mut i: usize = 0;
    while i < bytes.len()
        invariant
            i <= bytes.len(),
            bytes@ == encode_utf8(text@),
            buf@ == bytes@.subrange(0, i as int),
            forall|j: int| 0 <= j < i ==> bytes@[j] != 0,
        decreases bytes.len() - i,
    {
        let b = bytes[i];
        if b == 0 {
            return Err(StringError::ContainsInteriorNul);
        }
        buf.push(b);
        assert(buf@ =~= bytes@.subrange(0, i + 1));
        i += 1;
    }
    assert(buf@ =~= bytes@);
    buf.push(0u8);
    Ok(buf)
}

/// Reads the host string at the start of `mem` as text, without copying it.
///
/// Fails with `InvalidEncoding` exactly when `mem` holds no zero byte or the
/// bytes before the first one are not valid UTF-8.
pub fn borrow_host_str<'a>(mem: &'a [u8]) -> (r: Result<&'a str, StringError>)
    ensures
        match r {
            Ok(s) => host_decoding(mem@) == Some(s@),
            Err(e) => e == StringError::InvalidEncoding && host_decoding(mem@) is None,
        },
{
    match find_terminator(mem) {
        None => Err(StringError::InvalidEncoding),
        Some(end) => {
            proof {
                lemma_terminator_unique(mem@, end as int);
            }
            let bytes = slice_subrange(mem, 0, end);
            match utf8_text(bytes) {
                None => Err(StringError::InvalidEncoding),
                Some(s) => {
                    proof {
                        encode_utf8_decode_utf8(s@);
                    }
                    Ok(s)
                },
            }
        },
    }
}

/// Reads the host string at the start of `mem` as text of its own; the host
/// memory stays with the host.
///
/// Fails with `InvalidEncoding` exactly when `mem` holds no zero byte or the
/// bytes before the first one are not valid UTF-8.
pub fn from_host_string(mem: &[u8]) -> (r: Result<String, StringError>)
    ensures
        match r {
            Ok(s) => host_decoding(mem@) == Some(s@),
            Err(e) => e == StringError::InvalidEncoding && host_decoding(mem@) is None,
        },
{
    match borrow_host_str(mem) {
        Ok(s) => Ok(s.to_owned()),
        Err(e) => Err(e),
    }
}

} // verus!
