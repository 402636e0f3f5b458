use vstd::prelude::*;
use vstd::string::StringSliceAdditionalSpecFns;
use crate::error::{Error, ErrorKind};

verus! {

/// Whether a byte string holds the native terminator (a zero byte).
pub open spec fn has_terminator(b: Seq<u8>) -> bool {
    exists|i: int| 0 <= i < b.len() && b[i] == 0
}

/// The text that a native byte string reads as, invalid sequences replaced.
pub uninterp spec fn lossy_text(b: Seq<u8>) -> Seq<char>;

/// Relies on `String::from_utf8_lossy`: a valid UTF-8 byte string is decoded
/// as it stands; other bytes are replaced, which depends on the bytes alone.
#[verifier::external_body]
fn decode_lossy(b: &[u8]) -> (r: String)
    ensures
        r@ == lossy_text(b@),
        vstd::utf8::valid_utf8(b@) ==> r@ == vstd::utf8::decode_utf8(b@),
{
    String::from_utf8_lossy(b).into_owned()
}

/// The bytes of `s` as native text, or `InvalidArgument` where `s` holds a
/// zero byte, which the native side would read as the end of the text.
pub fn to_native_text(s: &str) -> (r: Result<Vec<u8>, Error>)
    ensures
        match r {
            Ok(v) => !has_terminator(s.spec_bytes()) && v@ == s.spec_bytes(),
            Err(e) => has_terminator(s.spec_bytes()) && e.kind() == ErrorKind::InvalidArgument,
        },
{
    let b = s.as_bytes();
    let mut v: Vec<u8> = Vec::new();
    let mut i: usize = 0;
    while i < b.len()
        invariant
            b@ == s.spec_bytes(),
            i <= b.len(),
            v@ == b@.subrange(0, i as int),
            forall|j: int| 0 <= j < i ==> b@[j] != 0,
        decreases b.len() - i,
    {
        if b[i] == 0 {
            return Err(Error::new(ErrorKind::InvalidArgument, "text holds a zero byte"));
        }
        v.push(b[i]);
        i = i + 1;
    }
    assert(v@ =~= b@);
    Ok(v)
}

/// The owned text of a native byte string that a response slot pointed to.
pub fn text_from_native(b: &[u8]) -> (r: String)
    ensures
        r@ == lossy_text(b@),
        vstd::utf8::valid_utf8(b@) ==> r@ == vstd::utf8::decode_utf8(b@),
{
    decode_lossy(b)
}

} // verus!
