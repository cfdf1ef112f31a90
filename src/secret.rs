//! Handling of password material.
use vstd::prelude::*;
use zeroize::Zeroize;

verus! {

/// Relies on `zeroize::Zeroize` for `String`: it overwrites the bytes with
/// zeros and then clears the string.
#[verifier::external_body]
fn zeroize_string(s: &mut String)
    ensures
        final(s)@ == Seq::<char>::empty(),
{
    s.zeroize();
}

/// Overwrites a password that is no longer needed, leaving the string empty.
pub fn scrub(secret: &mut String)
    ensures
        final(secret)@ == Seq::<char>::empty(),
{
    zeroize_string(secret);
}

} // verus!
