//! Interned identifier strings.
//!
//! Identifier values rely on a process-wide deduplicating intern cache:
//! building the same string twice yields the same handle, so equality is a
//! pointer comparison and a hash computed at intern time can be reused. The
//! cache is append-only and entries live for the process lifetime. This
//! module holds the trusted boundary around that cache; everything else in
//! the crate speaks of an interned handle only through [`interned_chars`],
//! the sequence of characters it stands for.

use vstd::prelude::*;

verus! {

#[verifier::external_type_specification]
#[verifier::external_body]
pub struct ExUstr(ustr::Ustr);

/// The characters an interned handle stands for. A cache entry is immutable
/// and never destroyed, so the content is a function of the handle.
pub uninterp spec fn interned_chars(u: ustr::Ustr) -> Seq<char>;

/// Relies on `ustr::Ustr::from`: it copies the given string into the intern
/// cache (or finds the copy already there) and returns a handle to exactly
/// that string.
#[verifier::external_body]
pub(crate) fn intern(s: &str) -> (u: ustr::Ustr)
    ensures
        interned_chars(u) == s@,
{
    ustr::Ustr::from(s)
}

/// Relies on `ustr::Ustr::to_owned`, which copies the cached string (via
/// `Ustr::as_str`) into an owned `String`.
#[verifier::external_body]
pub(crate) fn interned_string(u: &ustr::Ustr) -> (r: String)
    ensures
        r@ == interned_chars(*u),
{
    u.to_owned()
}

/// Relies on `ustr::Ustr`'s `PartialEq`, a pointer comparison: the intern
/// cache deduplicates and never frees, so two handles are pointer-equal
/// exactly when they stand for the same string.
#[verifier::external_body]
pub(crate) fn interned_eq(a: &ustr::Ustr, b: &ustr::Ustr) -> (r: bool)
    ensures
        r == (interned_chars(*a) == interned_chars(*b)),
{
    a == b
}

/// Relies on `ustr::Ustr::precomputed_hash`: the hash stored beside the
/// cache entry when the string was interned. The hasher draws its keys per
/// process, so nothing is stated of the value; within one process equal
/// strings share one cache entry and hence one hash.
#[verifier::external_body]
pub(crate) fn interned_hash(u: &ustr::Ustr) -> u64 {
    u.precomputed_hash()
}

} // verus!
