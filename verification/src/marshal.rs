//! Buffer marshaling: host strings become null-terminated buffers on the way
//! to a module, and byte buffers become text on the way back.

use vstd::prelude::*;
use vstd::string::StringSliceAdditionalSpecFns;
use vstd::utf8::{decode_utf8, valid_utf8};
use crate::error::{Argument, BridgeError};

verus! {

/// No byte of `bytes` is zero.
pub open spec fn nul_free(bytes: Seq<u8>) -> bool {
    forall|i: int| 0 <= i < bytes.len() ==> bytes[i] != 0u8
}

/// `position` is the index of the first zero byte of `bytes`.
pub open spec fn first_nul(bytes: Seq<u8>, position: int) -> bool {
    &&& 0 <= position < bytes.len()
    &&& bytes[position] == 0u8
    &&& nul_free(bytes.take(position))
}

/// The null-terminated buffer that stands for `bytes`.
pub open spec fn terminated(bytes: Seq<u8>) -> Seq<u8> {
    bytes.push(0u8)
}

/// Encodes a host string as a null-terminated buffer of its UTF-8 bytes.
///
/// Fails with `Encoding`, naming the argument and the first zero byte, exactly
/// when the string holds one.
pub fn encode(argument: Argument, text: &str) -> (r: Result<Vec<u8>, BridgeError>)
    ensures
        match r {
            Ok(buffer) => nul_free(text.spec_bytes()) && buffer@ == terminated(text.spec_bytes()),
            Err(e) => e matches BridgeError::Encoding { argument: a, position }
                && a == argument
                && first_nul(text.spec_bytes(), position as int),
        },
{
    let bytes = text.as_bytes();
    let n: usize = bytes.len();
    let mut buffer: Vec<u8> = Vec::new();
    let mut i: usize = 0;
    while i < n
        invariant
            n == bytes@.len(),
            bytes@ == text.spec_bytes(),
            i <= n,
            buffer@ == bytes@.take(i as int),
            nul_free(bytes@.take(i as int)),
        decreases n - i,
    {
        let b: u8 = bytes[i];
        if b == 0 {
            return Err(BridgeError::Encoding { argument, position: i });
        }
        buffer.push(b);
        assert(bytes@.take(i + 1) == bytes@.take(i as int).push(b));
        i += 1;
    }
    assert(bytes@.take(n as int) == bytes@);
    buffer.push(0);
    Ok(buffer)
}

/// The number of bytes to read from an out-buffer that a module filled in:
/// none where the module left the pointer null or gave a length of zero or
/// less, else the length it gave.
pub fn readable_length(null: bool, size: i32) -> (n: usize)
    ensures
        n == (if null || size <= 0 {
            0
        } else {
            size as int
        }),
{
    if null || size <= 0 {
        0
    } else {
        size as usize
    }
}

/// What `String::from_utf8_lossy` makes of a byte sequence.
pub uninterp spec fn utf8_lossy(bytes: Seq<u8>) -> Seq<char>;

/// Calls `String::from_utf8_lossy`. Trusted: the text is a function of the
/// bytes alone, and bytes that are valid UTF-8 decode to the string they
/// encode; every invalid sequence is replaced rather than reported.
#[verifier::external_body]
pub(crate) fn decode(bytes: &[u8]) -> (text: String)
    ensures
        text@ == utf8_lossy(bytes@),
        valid_utf8(bytes@) ==> text@ == decode_utf8(bytes@),
{
    String::from_utf8_lossy(bytes).into_owned()
}

} // verus!
