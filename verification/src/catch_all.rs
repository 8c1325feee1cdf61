//! The synthetic address for catch-all detection.
//!
//! A domain that accepts a random 15-character local part accepts mail
//! for any address, which makes the real-address probe uninformative.
//! The random bytes come from a fast seedable generator; no security
//! property is needed, only freshness.

use vstd::prelude::*;

use rand::Rng;
use rand::SeedableRng;

verus! {

/// One of the 62 ASCII alphanumeric bytes.
pub open spec fn is_alnum_byte(b: u8) -> bool {
    (48 <= b && b <= 57) || (65 <= b && b <= 90) || (97 <= b && b <= 122)
}

/// The small fast generator of the rand crate, declared so that its
/// values can be threaded through the sampling loop; opaque here.
#[verifier::external_type_specification]
#[verifier::external_body]
pub struct ExSmallRng(rand::rngs::SmallRng);

/// Relies on rand's `SeedableRng::from_entropy` for `SmallRng`: a fresh
/// generator seeded from the system entropy source.
#[verifier::external_body]
fn fresh_generator() -> rand::rngs::SmallRng {
    rand::rngs::SmallRng::from_entropy()
}

/// Relies on rand's `Alphanumeric` distribution: every sample is one
/// byte of the fixed charset `A-Z a-z 0-9`, whatever the generator
/// state.
#[verifier::external_body]
fn sample_alphanumeric(rng: &mut rand::rngs::SmallRng) -> (b: u8)
    ensures
        is_alnum_byte(b),
{
    rng.sample(rand::distributions::Alphanumeric)
}

/// A fresh random alphanumeric local part of 15 bytes.
pub fn random_local_part() -> (r: Vec<u8>)
    ensures
        r@.len() == 15,
        forall|i: int| 0 <= i < 15 ==> is_alnum_byte(r@[i]),
{
    let mut rng = fresh_generator();
    let mut r: Vec<u8> = Vec::new();
    let mut i: usize = 0;
    while i < 15
        invariant
            i <= 15,
            r@.len() == i,
            forall|k: int| 0 <= k < i ==> is_alnum_byte(r@[k]),
        decreases 15 - i,
    {
        let b = sample_alphanumeric(&mut rng);
        r.push(b);
        i += 1;
    }
    r
}

/// Form `<random local part>@<domain>`, the address whose acceptance
/// reveals a catch-all domain (the byte at position 15 is `@`).
pub fn synthetic_probe_address(domain: &[u8]) -> (r: Vec<u8>)
    ensures
        r@.len() == 16 + domain@.len(),
        forall|i: int| 0 <= i < 15 ==> is_alnum_byte(r@[i]),
        r@[15] == 64u8,
        r@.subrange(16, r@.len() as int) == domain@,
{
    let mut r = random_local_part();
    r.push(64);
    let mut i: usize = 0;
    while i < domain.len()
        invariant
            i <= domain@.len(),
            r@.len() == 16 + i,
            forall|k: int| 0 <= k < 15 ==> is_alnum_byte(r@[k]),
            r@[15] == 64u8,
            forall|k: int| 0 <= k < i ==> r@[16 + k] == domain@[k],
        decreases domain@.len() - i,
    {
        let b = domain[i];
        r.push(b);
        i += 1;
    }
    assert(r@.subrange(16, r@.len() as int) =~= domain@);
    r
}

} // verus!
