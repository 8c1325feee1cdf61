//! Deliverability probing for a single mailbox over the mail-transfer
//! protocol: rejection-text classification, catch-all detection, session
//! orchestration, and bounded retry, with the network work kept at the edge.

pub mod catch_all;
pub mod classify;
pub mod error;
pub mod establish;
pub mod retry;
pub mod session;
pub mod text;

use vstd::prelude::*;

verus! {

/// What one probe attempt learned about a single mailbox, before the
/// catch-all and connectivity flags are folded in.
#[derive(Clone, Copy, Debug, PartialEq, Eq, Structural)]
pub struct Deliverability {
    /// Is this account's inbox full?
    pub has_full_inbox: bool,
    /// Can mail be delivered to this address?
    pub is_deliverable: bool,
    /// Has the provider disabled or blocked the account?
    pub is_disabled: bool,
}

/// Builds a `Deliverability` value; contracts name flag combinations
/// through this function.
pub open spec fn deliverability_flags(full: bool, deliverable: bool, disabled: bool) -> Deliverability {
    Deliverability { has_full_inbox: full, is_deliverable: deliverable, is_disabled: disabled }
}

/// Details gathered from speaking to the mail server about one address.
#[derive(Clone, Copy, Debug, PartialEq, Eq, Structural)]
pub struct SmtpDetails {
    /// Could a session with the mail server be established at all?
    pub can_connect_smtp: bool,
    /// Is this account's inbox full?
    pub has_full_inbox: bool,
    /// Does the domain accept mail for any local part?
    pub is_catch_all: bool,
    /// Can mail be delivered to this address?
    pub is_deliverable: bool,
    /// Has the provider disabled or blocked the account?
    pub is_disabled: bool,
}

impl SmtpDetails {
    /// A details value never claims anything about a server it could not
    /// reach, and a catch-all verdict always reads as deliverable.
    pub open spec fn wf(self) -> bool {
        &&& !self.can_connect_smtp ==> {
            &&& !self.has_full_inbox
            &&& !self.is_catch_all
            &&& !self.is_deliverable
            &&& !self.is_disabled
        }
        &&& self.is_catch_all ==> {
            &&& self.is_deliverable
            &&& !self.has_full_inbox
            &&& !self.is_disabled
        }
    }
}

/// A details value about a server that could not even be reached
/// carries no other information: every remaining flag is down.
pub proof fn lemma_no_connection_no_information(d: SmtpDetails)
    requires
        d.wf(),
        !d.can_connect_smtp,
    ensures
        !d.has_full_inbox,
        !d.is_catch_all,
        !d.is_deliverable,
        !d.is_disabled,
{
}

impl Default for SmtpDetails {
    /// A details value that claims nothing: every flag is clear.
    fn default() -> (r: Self)
        ensures
            !r.can_connect_smtp,
            !r.has_full_inbox,
            !r.is_catch_all,
            !r.is_deliverable,
            !r.is_disabled,
            r.wf(),
    {
        SmtpDetails {
            can_connect_smtp: false,
            has_full_inbox: false,
            is_catch_all: false,
            is_deliverable: false,
            is_disabled: false,
        }
    }
}

} // verus!
