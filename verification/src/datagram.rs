//! From the bytes of a datagram to the text the command grammar reads.

use vstd::prelude::*;
use vstd::slice::slice_subrange;
use vstd::utf8::{decode_utf8, valid_utf8};

verus! {

/// The most bytes of one datagram that are read; what follows them is dropped.
pub const MAX_DATAGRAM_LEN: usize = 1024;

/// The text that lossy UTF-8 decoding makes of `bytes`: well-formed sequences
/// decode to their characters and each malformed one to U+FFFD.
pub uninterp spec fn utf8_lossy(bytes: Seq<u8>) -> Seq<char>;

/// The part of a datagram that is read.
pub open spec fn readable(datagram: Seq<u8>) -> Seq<u8> {
    if datagram.len() <= MAX_DATAGRAM_LEN {
        datagram
    } else {
        datagram.take(MAX_DATAGRAM_LEN as int)
    }
}

/// The text of a datagram: its readable part, decoded lossily.
pub open spec fn text_of(datagram: Seq<u8>) -> Seq<char> {
    utf8_lossy(readable(datagram))
}

/// `String::from_utf8_lossy` of std. The result is a function of the bytes
/// alone, here called `utf8_lossy`; on well-formed UTF-8 it is the string those
/// bytes encode. Never fails.
#[verifier::external_body]
pub(crate) fn decode_lossy(bytes: &[u8]) -> (text: String)
    ensures
        text@ == utf8_lossy(bytes@),
        valid_utf8(bytes@) ==> text@ == decode_utf8(bytes@),
{
    String::from_utf8_lossy(bytes).into_owned()
}

/// Decodes a datagram: at most `MAX_DATAGRAM_LEN` bytes of it are read, and
/// malformed UTF-8 is replaced, never refused.
pub fn datagram_text(datagram: &[u8]) -> (text: String)
    ensures
        text@ == text_of(datagram@),
        valid_utf8(readable(datagram@)) ==> text@ == decode_utf8(readable(datagram@)),
{
    if datagram.len() <= MAX_DATAGRAM_LEN {
        decode_lossy(datagram)
    } else {
        let head = slice_subrange(datagram, 0, MAX_DATAGRAM_LEN);
        decode_lossy(head)
    }
}

} // verus!
