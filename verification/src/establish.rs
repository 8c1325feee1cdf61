//! Decisions taken while establishing a session.
//!
//! Opening the transport, the TLS upgrade and the protocol handshake are
//! network work and happen in the driver; the choices they depend on are
//! made here: hostname normalization, the SOCKS5 authentication mode,
//! the envelope-sender fallback, and the switch to the alternate
//! provider-specific path.

use vstd::prelude::*;
use vstd::slice::slice_subrange;
use vstd::slice::slice_to_vec;
use vstd::string::StringSliceAdditionalSpecFns;
use vstd::string::StringExecFns;

use crate::text::contains_bytes;
use crate::text::contains_seq;
use crate::text::lower_bytes;
use crate::text::to_lower;

verus! {

/// The hostname with every trailing domain-terminator dot removed.
pub open spec fn strip_trailing_dots(s: Seq<u8>) -> Seq<u8>
    decreases s.len(),
{
    if s.len() > 0 && s[s.len() - 1] == 46u8 {
        strip_trailing_dots(s.drop_last())
    } else {
        s
    }
}

/// Strip the trailing domain-terminator dots from a resolved hostname:
/// TLS hostname verification rejects the terminator form.
pub fn normalize_host(host: &[u8]) -> (r: Vec<u8>)
    ensures
        r@ == strip_trailing_dots(host@),
{
    let mut end: usize = host.len();
    assert(host@.subrange(0, end as int) =~= host@);
    while end > 0 && host[end - 1] == 46
        invariant
            end <= host@.len(),
            strip_trailing_dots(host@) == strip_trailing_dots(host@.subrange(0, end as int)),
        decreases end,
    {
        proof {
            assert(host@.subrange(0, end as int).drop_last() =~= host@.subrange(0, end - 1));
        }
        end -= 1;
    }
    let kept = slice_subrange(host, 0, end);
    slice_to_vec(kept)
}

/// How the SOCKS5 tunnel authenticates.
pub enum ProxyAuth {
    /// Username and password were both supplied.
    Password { username: Vec<u8>, password: Vec<u8> },
    /// Anything less: connect anonymously.
    Anonymous,
}

/// The tunnel authenticates only when both credentials are present; a
/// lone username or a lone password is ignored.
pub fn choose_proxy_auth(username: Option<Vec<u8>>, password: Option<Vec<u8>>) -> (r: ProxyAuth)
    ensures
        username matches Some(u) ==> (password matches Some(p) ==> r == (ProxyAuth::Password {
            username: u,
            password: p,
        })),
        username is None || password is None ==> r is Anonymous,
{
    match (username, password) {
        (Some(u), Some(p)) => ProxyAuth::Password { username: u, password: p },
        _ => ProxyAuth::Anonymous,
    }
}

/// Whether the mail-transfer client library accepts this string as an
/// email address; a fixed function of the characters alone.
pub uninterp spec fn email_valid(s: Seq<char>) -> bool;

/// Relies on async-smtp's `EmailAddress::from_str` (through
/// `EmailAddress::new`): acceptance depends on the address string alone.
#[verifier::external_body]
fn email_address_is_valid(s: &str) -> (r: bool)
    ensures
        r == email_valid(s@),
{
    <async_smtp::EmailAddress as core::str::FromStr>::from_str(s).is_ok()
}

/// The envelope sender to hand to the sender-identification step.  The
/// configured address is diagnostic metadata, not the subject under
/// test, so an invalid one is replaced by a fixed fallback sender
/// rather than failing the whole probe.
pub fn effective_sender(from: &str) -> (r: String)
    ensures
        email_valid(from@) ==> r@ == from@,
        !email_valid(from@) ==> r@ == "user@example.org"@,
{
    if email_address_is_valid(from) {
        from.to_owned()
    } else {
        String::from_str("user@example.org")
    }
}

/// The provider-specific web path replaces the wire probe exactly when
/// the caller enabled it and the owning domain names that provider.
pub fn use_alternate_provider(domain: &[u8], alternate_enabled: bool) -> (r: bool)
    ensures
        r == (alternate_enabled && contains_seq(lower_bytes(domain@), "yahoo".spec_bytes())),
{
    if !alternate_enabled {
        return false;
    }
    let lower = to_lower(domain);
    contains_bytes(lower.as_slice(), "yahoo".as_bytes())
}

} // verus!
