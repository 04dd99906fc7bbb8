use vstd::prelude::*;
use vstd::string::StringSliceAdditionalSpecFns;
use vstd::utf8::{valid_utf8, decode_utf8, encode_utf8, encode_utf8_decode_utf8, encode_utf8_valid_utf8};

verus! {

/// Why driver-written bytes could not be turned into text.
#[derive(Debug, Copy, Clone, PartialEq, Eq, Structural)]
pub enum TextError {
    /// The bytes do not end in a nul byte, or hold one before the end.
    MissingNul,
    /// The bytes before the final nul are not valid UTF-8.
    InvalidUtf8,
}

/// `b` ends in a nul byte and holds no other.
pub open spec fn is_nul_terminated(b: Seq<u8>) -> bool {
    &&& b.len() > 0
    &&& b.last() == 0
    &&& forall|i: int| 0 <= i < b.len() - 1 ==> b[i] != 0
}

/// The text that nul-terminated bytes stand for, or why there is none.
pub open spec fn text_of_spec(b: Seq<u8>) -> Result<Seq<char>, TextError> {
    if !is_nul_terminated(b) {
        Err(TextError::MissingNul)
    } else if !valid_utf8(b.drop_last()) {
        Err(TextError::InvalidUtf8)
    } else {
        Ok(decode_utf8(b.drop_last()))
    }
}

/// The index of the first nul byte of `b`, if it holds one.
pub open spec fn first_nul(b: Seq<u8>) -> Option<int> {
    if exists|i: int| 0 <= i < b.len() && b[i] == 0 {
        Some(choose|i: int| 0 <= i < b.len() && b[i] == 0 && forall|j: int| 0 <= j < i ==> b[j] != 0)
    } else {
        None
    }
}

/// The nul-terminated form of a text's bytes, or the position of the first
/// nul byte that stops it from having one.
pub open spec fn c_string_spec(b: Seq<u8>) -> Result<Seq<u8>, usize> {
    match first_nul(b) {
        Some(i) => Err(i as usize),
        None => Ok(b.push(0)),
    }
}

/// `min(written + 1, capacity)`, never below zero, never past `available`.
pub open spec fn clamp_len_spec(written: i32, capacity: usize, available: usize) -> usize {
    let want: int = if written < 0 { 0 } else { written + 1 };
    let cap: int = if capacity < available { capacity as int } else { available as int };
    if want < cap { want as usize } else { cap as usize }
}

/// Relies on `String::from_utf8`: it accepts exactly the valid UTF-8 byte
/// sequences, and the text it returns holds those bytes.
#[verifier::external_body]
fn string_from_utf8(b: Vec<u8>) -> (r: Option<String>)
    ensures
        r.is_some() == valid_utf8(b@),
        r matches Some(s) ==> s@ == decode_utf8(b@),
{
    String::from_utf8(b).ok()
}

/// Turns driver-written, nul-terminated bytes into text.
pub fn text_of(bytes: Vec<u8>) -> (r: Result<String, TextError>)
    ensures
        match (r, text_of_spec(bytes@)) {
            (Ok(s), Ok(t)) => s@ == t,
            (Err(e), Err(f)) => e == f,
            _ => false,
        },
{
    let n = bytes.len();
    if n == 0 || bytes[n - 1] != 0 {
        return Err(TextError::MissingNul);
    }
    let mut i: usize = 0;
    while i < n - 1
        invariant
            n == bytes@.len(),
            n > 0,
            i <= n - 1,
            forall|j: int| 0 <= j < i ==> bytes@[j] != 0,
        decreases n - 1 - i,
    {
        if bytes[i] == 0 {
            return Err(TextError::MissingNul);
        }
        i = i + 1;
    }
    let mut body = bytes;
    body.pop();
    assert(body@ =~= bytes@.drop_last());
    match string_from_utf8(body) {
        Some(s) => Ok(s),
        None => Err(TextError::InvalidUtf8),
    }
}

/// The bytes of `src` followed by a nul byte, or the position of the first
/// nul byte in `src`.
pub fn c_string(src: &str) -> (r: Result<Vec<u8>, usize>)
    ensures
        match (r, c_string_spec(src.spec_bytes())) {
            (Ok(v), Ok(w)) => v@ == w,
            (Err(p), Err(q)) => p == q,
            _ => false,
        },
{
    let b = src.as_bytes();
    let n = b.len();
    let mut out: Vec<u8> = Vec::new();
    let mut i: usize = 0;
    while i < n
        invariant
            n == b@.len(),
            b@ == src.spec_bytes(),
            i <= n,
            out@ == b@.subrange(0, i as int),
            forall|j: int| 0 <= j < i ==> b@[j] != 0,
        decreases n - i,
    {
        if b[i] == 0 {
            assert(first_nul(b@) == Some(i as int)) by {
                assert(exists|k: int| 0 <= k < b@.len() && b@[k] == 0);
                let c = choose|k: int| 0 <= k < b@.len() && b@[k] == 0 && forall|j: int| 0 <= j < k ==> b@[j] != 0;
                assert(0 <= i < b@.len() && b@[i as int] == 0 && forall|j: int| 0 <= j < i ==> b@[j] != 0);
                if c < i {
                } else if c > i {
                    assert(b@[i as int] != 0);
                }
            }
            return Err(i);
        }
        out.push(b[i]);
        i = i + 1;
    }
    assert(out@ =~= b@);
    out.push(0);
    Ok(out)
}

/// The first `n` bytes of `v`, or all of them if it holds fewer.
pub fn prefix(v: &Vec<u8>, n: usize) -> (r: Vec<u8>)
    ensures
        r@ == v@.subrange(0, if n < v@.len() { n as int } else { v@.len() as int }),
{
    let end = if n < v.len() { n } else { v.len() };
    let mut out: Vec<u8> = Vec::new();
    let mut i: usize = 0;
    while i < end
        invariant
            end <= v@.len(),
            i <= end,
            out@ == v@.subrange(0, i as int),
        decreases end - i,
    {
        out.push(v[i]);
        i = i + 1;
    }
    out
}

/// How many bytes of a buffer of `available` bytes, filled with a driver-written
/// string of `written` characters before its nul byte, to keep:
/// `min(written + 1, capacity)`.
pub fn clamp_len(written: i32, capacity: usize, available: usize) -> (r: usize)
    ensures
        r == clamp_len_spec(written, capacity, available),
{
    let cap = if capacity < available { capacity } else { available };
    if written < 0 {
        0
    } else if (written as usize) < cap {
        written as usize + 1
    } else {
        cap
    }
}

/// Handing the driver a text's nul-terminated bytes and reading them back
/// gives the same text, for every text free of nul bytes.
pub proof fn lemma_c_string_round_trip(s: Seq<char>)
    requires
        !encode_utf8(s).contains(0u8),
    ensures
        c_string_spec(encode_utf8(s)) matches Ok(b) && text_of_spec(b) == Ok::<Seq<char>, TextError>(s),
{
    let e = encode_utf8(s);
    assert(first_nul(e) is None) by {
        if exists|i: int| 0 <= i < e.len() && e[i] == 0 {
            let i = choose|i: int| 0 <= i < e.len() && e[i] == 0;
            assert(e.contains(0u8));
        }
    }
    let b = e.push(0);
    assert(b.drop_last() =~= e);
    assert forall|i: int| 0 <= i < b.len() - 1 implies b[i] != 0 by {
        if b[i] == 0 {
            assert(e[i] == 0);
            assert(e.contains(0u8));
        }
    }
    encode_utf8_valid_utf8(s);
    encode_utf8_decode_utf8(s);
}

} // verus!
