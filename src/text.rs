use vstd::prelude::*;
use crate::error::PressioError;

verus! {

/// The bytes of `s` as the native side receives them: its UTF-8 encoding and a
/// terminating NUL.
pub open spec fn native_text(s: Seq<char>) -> Seq<u8> {
    vstd::utf8::encode_utf8(s).push(0u8)
}

/// `s` can be handed to the native side only if its encoding holds no NUL byte.
pub open spec fn has_interior_nul(s: Seq<char>) -> bool {
    vstd::utf8::encode_utf8(s).contains(0u8)
}

/// Marshals `s` to a NUL-terminated byte string, or fails with the NUL error
/// when the text holds a NUL of its own.
pub fn to_native_text(s: &str) -> (r: Result<Vec<u8>, PressioError>)
    ensures
        match r {
            Ok(b) => !has_interior_nul(s@) && b@ == native_text(s@),
            Err(e) => has_interior_nul(s@) && e.is_nul_error(),
        },
{
    let bytes = s.as_bytes();
    let mut out: Vec<u8> = Vec::new();
    let mut i: usize = 0;
    while i < bytes.len()
        invariant
            bytes@ == vstd::utf8::encode_utf8(s@),
            i <= bytes@.len(),
            out@ == bytes@.subrange(0, i as int),
            forall|k: int| 0 <= k < i ==> bytes@[k] != 0u8,
        decreases bytes@.len() - i,
    {
        if bytes[i] == 0u8 {
            assert(bytes@[i as int] == 0u8);
            return Err(PressioError::nul_error());
        }
        out.push(bytes[i]);
        i = i + 1;
        assert(out@ == bytes@.subrange(0, i as int));
    }
    assert(bytes@.subrange(0, i as int) == bytes@);
    assert(!bytes@.contains(0u8));
    out.push(0u8);
    Ok(out)
}

} // verus!
