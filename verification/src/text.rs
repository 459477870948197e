//! Texts on their way to the native library, which reads a text up to
//! its first zero byte.

use vstd::prelude::*;
use vstd::string::StringSliceAdditionalSpecFns;
use crate::error::Error;

verus! {

/// Whether a zero byte occurs in `bytes`: such a text cannot be handed
/// to the native library.
pub open spec fn contains_nul(bytes: Seq<u8>) -> bool {
    exists|i: int| 0 <= i < bytes.len() && bytes[i] == 0u8
}

/// Whether `bytes` holds a zero byte.
pub fn has_nul_bytes(bytes: &[u8]) -> (r: bool)
    ensures
        r == contains_nul(bytes@),
{
    let mut i: usize = 0;
    while i < bytes.len()
        invariant
            0 <= i <= bytes@.len(),
            forall|k: int| 0 <= k < i ==> bytes@[k] != 0u8,
        decreases bytes@.len() - i,
    {
        if bytes[i] == 0 {
            return true;
        }
        i += 1;
    }
    false
}

/// Whether the UTF-8 form of `text` holds a zero byte.
pub fn has_nul(text: &str) -> (r: bool)
    ensures
        r == contains_nul(text.spec_bytes()),
{
    has_nul_bytes(text.as_bytes())
}

/// Accepts the bytes of a text, such as the path of a file to load, that
/// can be handed to the native library, and refuses bytes that hold a
/// zero.
pub fn checked_bytes(bytes: &[u8]) -> (r: Result<(), Error>)
    ensures
        contains_nul(bytes@) ==> r == Err::<(), Error>(Error::Nul),
        !contains_nul(bytes@) ==> r is Ok,
{
    if has_nul_bytes(bytes) {
        Err(Error::Nul)
    } else {
        Ok(())
    }
}

/// Accepts a text that can be handed to the native library, and refuses
/// one whose UTF-8 form holds a zero byte.
pub fn checked(text: &str) -> (r: Result<(), Error>)
    ensures
        contains_nul(text.spec_bytes()) ==> r == Err::<(), Error>(Error::Nul),
        !contains_nul(text.spec_bytes()) ==> r is Ok,
{
    checked_bytes(text.as_bytes())
}

} // verus!
