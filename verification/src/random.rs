//! The random suffix that keeps two export files apart.
use vstd::prelude::*;
use rand::distributions::{Alphanumeric, DistString};
use rand::rngs::ThreadRng;

verus! {

/// The generator that `rand::thread_rng` hands out. Nothing of its state is
/// visible here.
#[verifier::external_type_specification]
#[verifier::external_body]
pub struct ExThreadRng(ThreadRng);

/// Whether `c` is an ASCII letter or an ASCII digit.
pub open spec fn is_alphanumeric(c: char) -> bool {
    ||| 'A' <= c <= 'Z'
    ||| 'a' <= c <= 'z'
    ||| '0' <= c <= '9'
}

/// Whether `s` is made of `len` ASCII letters and digits.
pub open spec fn is_suffix(s: Seq<char>, len: nat) -> bool {
    &&& s.len() == len
    &&& forall|i: int| 0 <= i < s.len() ==> is_alphanumeric(#[trigger] s[i])
}

/// Calls `rand::thread_rng`, which returns the generator of the current
/// thread. Nothing is claimed of it. The generator is seeded from the operating
/// system, and the call panics where the system gives no entropy.
#[verifier::external_body]
pub(crate) fn thread_rng() -> ThreadRng {
    rand::thread_rng()
}

/// Calls `DistString::sample_string` on `Alphanumeric`, which appends `len`
/// samples to an empty string, each of them one of the 62 ASCII letters and
/// digits. Which ones is left open: two calls may differ. The generator may
/// reseed itself from the operating system on the way, and panics where the
/// system gives no entropy.
#[verifier::external_body]
pub(crate) fn sample_alphanumeric(rng: &mut ThreadRng, len: usize) -> (s: String)
    ensures
        is_suffix(s@, len as nat),
{
    Alphanumeric.sample_string(rng, len)
}

} // verus!
