//! The probe's closed error taxonomy.
//!
//! Each failure carries the raw message bytes plus a classification tag,
//! so that the retry controller can tell "worth another attempt" from
//! "final" without inspecting any transport library's own error type.

use vstd::prelude::*;
use vstd::string::StringSliceAdditionalSpecFns;

verus! {

/// How the protocol layer classified a failed command.
#[derive(Clone, Copy, Debug, PartialEq, Eq, Structural)]
pub enum SmtpErrorKind {
    /// Permanent rejection (a 5xx reply): final.
    Permanent,
    /// Transient rejection (a 4xx reply): a retry may succeed.
    Transient,
    /// A single command exceeded its own time ceiling: a retry may succeed.
    Timeout,
    /// The transport failed mid-dialog (read or write error).
    Io,
    /// Anything else the protocol layer reports (parsing, TLS, client state).
    Other,
}

/// Error raised while probing one mailbox over the wire.
#[derive(Debug)]
pub enum SmtpError {
    /// The SOCKS5 tunnel to the server could not be set up.
    SocksError(Vec<u8>),
    /// The mail server dialog failed; tagged with the protocol layer's
    /// classification and carrying the server's raw message bytes.
    SmtpError(SmtpErrorKind, Vec<u8>),
    /// The configured overall deadline for the whole probe elapsed.
    TimeoutError,
    /// The alternate provider-specific verification path failed.
    YahooError(Vec<u8>),
}

impl SmtpError {
    /// Failures that a fresh attempt may cure: transient protocol
    /// rejections (greylisting), per-command timeouts, and the overall
    /// deadline elapsing.  Proxy, permanent, unclassified and
    /// provider-path failures are final.
    pub open spec fn retryable(self) -> bool {
        match self {
            SmtpError::SmtpError(kind, _) => kind == SmtpErrorKind::Transient || kind
                == SmtpErrorKind::Timeout,
            SmtpError::TimeoutError => true,
            _ => false,
        }
    }

    /// Decide at run time whether this failure is worth a fresh attempt.
    pub fn is_retryable(&self) -> (r: bool)
        ensures
            r == self.retryable(),
    {
        match self {
            SmtpError::SmtpError(kind, _) => match kind {
                SmtpErrorKind::Transient => true,
                SmtpErrorKind::Timeout => true,
                _ => false,
            },
            SmtpError::TimeoutError => true,
            _ => false,
        }
    }

    /// The known server misbehavior of dropping the connection right
    /// after an error: the transport reports an I/O failure whose whole
    /// message is exactly `incomplete`.
    pub open spec fn is_io_incomplete(self) -> bool {
        match self {
            SmtpError::SmtpError(kind, msg) => kind == SmtpErrorKind::Io && msg@
                == "incomplete".spec_bytes(),
            _ => false,
        }
    }

    /// Detect the dropped-connection misbehavior at run time.
    pub fn check_io_incomplete(&self) -> (r: bool)
        ensures
            r == self.is_io_incomplete(),
    {
        match self {
            SmtpError::SmtpError(kind, msg) => {
                let kind_is_io = match kind {
                    SmtpErrorKind::Io => true,
                    _ => false,
                };
                kind_is_io && bytes_equal(msg.as_slice(), "incomplete".as_bytes())
            },
            _ => false,
        }
    }
}

/// Are two byte strings identical?
fn bytes_equal(a: &[u8], b: &[u8]) -> (r: bool)
    ensures
        r == (a@ == b@),
{
    if a.len() != b.len() {
        return false;
    }
    let mut i: usize = 0;
    while i < a.len()
        invariant
            a@.len() == b@.len(),
            i <= a@.len(),
            forall|k: int| 0 <= k < i ==> a@[k] == b@[k],
        decreases a@.len() - i,
    {
        if a[i] != b[i] {
            return false;
        }
        i += 1;
    }
    assert(a@ =~= b@);
    true
}

} // verus!
