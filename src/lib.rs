//! Copying one string's bytes into another text buffer of the same byte
//! length, in place.
//!
//! The mutable buffer is either a `String` or a byte slice holding encoded
//! text (for instance one half of a `split_at_mut`). The copy needs equal byte
//! lengths: `copy_from_str` demands it of its caller, `try_copy_from_str`
//! checks it and reports a `LengthMismatch` otherwise.

use vstd::prelude::*;

pub mod laws;

verus! {

use vstd::string::StringSliceAdditionalSpecFns;
use vstd::utf8::encode_utf8;

/// The bytes of `dst` after each of them has been overwritten, in order, by
/// the byte of `src` at the same position.
pub open spec fn overwritten(dst: Seq<u8>, src: Seq<u8>) -> Seq<u8> {
    Seq::new(dst.len(), |i: int| src[i])
}

/// The two byte lengths of a copy that cannot be made.
#[derive(Debug, Clone, Copy, PartialEq, Eq)]
pub struct LengthMismatch {
    pub destination_len: usize,
    pub source_len: usize,
}

/// Extension method for copying a string into another string.
pub trait CopyFromStrExt {
    /// The encoded bytes that the buffer holds.
    spec fn text_bytes(&self) -> Seq<u8>;

    /// Overwrites every byte of `self` with the byte of `src` at the same
    /// position. Both must have the same byte length.
    fn copy_from_str(&mut self, src: &str)
        requires
            old(self).text_bytes().len() == src.spec_bytes().len(),
        ensures
            final(self).text_bytes() == overwritten(old(self).text_bytes(), src.spec_bytes()),
    ;

    /// Copies `src` into `self` where the byte lengths agree; otherwise
    /// leaves `self` as it was and reports both lengths.
    fn try_copy_from_str(&mut self, src: &str) -> (r: Result<(), LengthMismatch>)
        ensures
            r is Ok <==> old(self).text_bytes().len() == src.spec_bytes().len(),
            r is Ok ==> final(self).text_bytes() == overwritten(
                old(self).text_bytes(),
                src.spec_bytes(),
            ),
            r matches Err(e) ==> {
                &&& e.destination_len == old(self).text_bytes().len()
                &&& e.source_len == src.spec_bytes().len()
                &&& final(self).text_bytes() == old(self).text_bytes()
            },
    ;
}

impl CopyFromStrExt for [u8] {
    open spec fn text_bytes(&self) -> Seq<u8> {
        self@
    }

    fn copy_from_str(&mut self, src: &str) {
        let bytes: &[u8] = src.as_bytes();
        let n: usize = bytes.len();
        let mut i: usize = 0;
        while i < n
            invariant
                bytes@ == src.spec_bytes(),
                n == bytes@.len(),
                self@.len() == n,
                i <= n,
                forall|j: int| 0 <= j < i ==> self@[j] == bytes@[j],
            decreases n - i,
        {
            self[i] = bytes[i];
            i = i + 1;
        }
        assert(self@ =~= overwritten(old(self)@, src.spec_bytes()));
    }

    fn try_copy_from_str(&mut self, src: &str) -> (r: Result<(), LengthMismatch>) {
        let destination_len: usize = self.len();
        let source_len: usize = src.as_bytes().len();
        if destination_len != source_len {
            return Err(LengthMismatch { destination_len, source_len });
        }
        self.copy_from_str(src);
        Ok(())
    }
}

/// Relies on `String::replace_range` over the full range `..`: the whole
/// content is removed and `src` put in its place. A full range never panics.
#[verifier::external_body]
fn replace_whole(s: &mut String, src: &str)
    ensures
        final(s)@ == src@,
{
    s.replace_range(.., src);
}

impl CopyFromStrExt for String {
    open spec fn text_bytes(&self) -> Seq<u8> {
        encode_utf8(self@)
    }

    fn copy_from_str(&mut self, src: &str)
        ensures
            final(self)@ == src@,
    {
        replace_whole(self, src);
        assert(encode_utf8(self@) =~= overwritten(encode_utf8(old(self)@), src.spec_bytes()));
    }

    fn try_copy_from_str(&mut self, src: &str) -> (r: Result<(), LengthMismatch>)
        ensures
            r is Ok ==> final(self)@ == src@,
            r is Err ==> final(self)@ == old(self)@,
    {
        let destination_len: usize = self.as_str().as_bytes().len();
        let source_len: usize = src.as_bytes().len();
        if destination_len != source_len {
            return Err(LengthMismatch { destination_len, source_len });
        }
        self.copy_from_str(src);
        Ok(())
    }
}

} // verus!
