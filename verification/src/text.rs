//! Fixed-capacity strings that carry network names and passphrases, and the
//! UTF-8 check that guards their construction.

use vstd::prelude::*;
use vstd::string::StringSliceAdditionalSpecFns;
use vstd::utf8::valid_utf8;

verus! {

/// `heapless::String`: a string of at most `N` bytes, kept in place.
#[verifier::external_type_specification]
#[verifier::external_body]
pub struct ExHeaplessString<const N: usize>(heapless::String<N>);

/// `core::str::Utf8Error`: why a slice is not UTF-8.
#[verifier::external_type_specification]
#[verifier::external_body]
pub struct ExUtf8Error(core::str::Utf8Error);

/// The bytes held by a network name.
pub uninterp spec fn ssid_bytes(s: heapless::String<32>) -> Seq<u8>;

/// The bytes held by a passphrase.
pub uninterp spec fn password_bytes(s: heapless::String<64>) -> Seq<u8>;

/// `core::str::from_utf8` accepts exactly the slices that are valid UTF-8, and
/// the string slice it hands back covers the same bytes.
pub assume_specification[ core::str::from_utf8 ](v: &[u8]) -> (r: Result<
    &str,
    core::str::Utf8Error,
>)
    ensures
        r is Ok <==> valid_utf8(v@),
        r matches Ok(s) ==> s.spec_bytes() == v@,
;

/// `heapless::String::as_str` on a passphrase: the slice covers the bytes
/// that the string holds, of which there are never more than its capacity.
#[verifier::external_body]
pub(crate) fn password_as_str(s: &heapless::String<64>) -> (r: &str)
    ensures
        r.spec_bytes() == password_bytes(*s),
        r.spec_bytes().len() <= 64,
{
    s.as_str()
}

/// `heapless::String::from` builds a network name that holds the bytes of a
/// string slice. It panics on a slice longer than the capacity, which the
/// precondition rules out.
#[verifier::external_body]
pub(crate) fn ssid_from_str(s: &str) -> (r: heapless::String<32>)
    requires
        s.spec_bytes().len() <= 32,
    ensures
        ssid_bytes(r) == s.spec_bytes(),
{
    heapless::String::from(s)
}

/// `heapless::String::from` builds a passphrase that holds the bytes of a
/// string slice. It panics on a slice longer than the capacity, which the
/// precondition rules out.
#[verifier::external_body]
pub(crate) fn password_from_str(s: &str) -> (r: heapless::String<64>)
    requires
        s.spec_bytes().len() <= 64,
    ensures
        password_bytes(r) == s.spec_bytes(),
{
    heapless::String::from(s)
}

/// `heapless::String`'s `==` compares the bytes of the two strings.
#[verifier::external_body]
pub(crate) fn ssid_eq(a: &heapless::String<32>, b: &heapless::String<32>) -> (r: bool)
    ensures
        r == (ssid_bytes(*a) == ssid_bytes(*b)),
{
    a == b
}

} // verus!
