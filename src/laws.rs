//! Properties of a copy, stated over the byte model of the buffers.

use vstd::prelude::*;

verus! {

use vstd::string::StringSliceAdditionalSpecFns;
use vstd::utf8::{encode_utf8_valid_utf8, valid_utf8};
use crate::{overwritten, CopyFromStrExt};

/// After a copy between buffers of equal byte length, the destination holds
/// exactly the bytes of the source.
pub proof fn lemma_copy_equals_source<T: CopyFromStrExt + ?Sized>(dst: &T, src: &str)
    requires
        dst.text_bytes().len() == src.spec_bytes().len(),
    ensures
        overwritten(dst.text_bytes(), src.spec_bytes()) == src.spec_bytes(),
{
    assert(overwritten(dst.text_bytes(), src.spec_bytes()) =~= src.spec_bytes());
}

/// A destination that held valid encoded text still does after a copy from
/// a string of the same byte length.
pub proof fn lemma_copy_keeps_valid_text<T: CopyFromStrExt + ?Sized>(dst: &T, src: &str)
    requires
        valid_utf8(dst.text_bytes()),
        dst.text_bytes().len() == src.spec_bytes().len(),
    ensures
        valid_utf8(overwritten(dst.text_bytes(), src.spec_bytes())),
{
    lemma_copy_equals_source(dst, src);
    encode_utf8_valid_utf8(src@);
}

/// Copying between two empty buffers leaves the destination as it was.
pub proof fn lemma_empty_copy_changes_nothing<T: CopyFromStrExt + ?Sized>(dst: &T, src: &str)
    requires
        dst.text_bytes().len() == 0,
        src.spec_bytes().len() == 0,
    ensures
        overwritten(dst.text_bytes(), src.spec_bytes()) == dst.text_bytes(),
{
    assert(overwritten(dst.text_bytes(), src.spec_bytes()) =~= dst.text_bytes());
}

/// Copying the same source twice in a row gives the same bytes as copying it
/// once.
pub proof fn lemma_copy_twice_same_as_once<T: CopyFromStrExt + ?Sized>(dst: &T, src: &str)
    requires
        dst.text_bytes().len() == src.spec_bytes().len(),
    ensures
        overwritten(overwritten(dst.text_bytes(), src.spec_bytes()), src.spec_bytes())
            == overwritten(dst.text_bytes(), src.spec_bytes()),
{
    let once = overwritten(dst.text_bytes(), src.spec_bytes());
    assert(overwritten(once, src.spec_bytes()) =~= once);
}

} // verus!
