//! Heuristic classification of a server's rejection text.
//!
//! Mail servers phrase the same verdict in many ways, and their status
//! codes are not standardized finely enough to tell the cases apart, so
//! the rejection line is folded to ASCII lower case and matched against
//! fixed phrase groups, in a strict priority order: account disabled, inbox
//! full, rate-limited but alive, mailbox non-existent.  Text matching no
//! group stays unclassified and is surfaced as an error by the caller.

use vstd::prelude::*;
use vstd::string::StringSliceAdditionalSpecFns;

use crate::Deliverability;
use crate::deliverability_flags;
use crate::text::contains_bytes;
use crate::text::contains_seq;
use crate::text::lower_bytes;
use crate::text::to_lower;

verus! {

/// The account is disabled or discontinued by the provider.
pub open spec fn matches_disabled(t: Seq<u8>) -> bool {
    ||| contains_seq(t, "disabled".spec_bytes())
    ||| contains_seq(t, "discontinued".spec_bytes())
}

/// The mailbox exists but cannot take more mail.
pub open spec fn matches_full_inbox(t: Seq<u8>) -> bool {
    ||| contains_seq(t, "insufficient".spec_bytes())
    ||| contains_seq(t, "over quota".spec_bytes())
    ||| contains_seq(t, "too many messages".spec_bytes())
}

/// The mailbox exists; the server is only rate-limiting the dialog.
pub open spec fn matches_rate_limited(t: Seq<u8>) -> bool {
    contains_seq(t, "the user you are trying to contact is receiving mail at a rate that".spec_bytes())
}

/// The server states that the mailbox does not exist.
pub open spec fn matches_nonexistent(t: Seq<u8>) -> bool {
    ||| contains_seq(t, "address rejected".spec_bytes())
    ||| contains_seq(t, "unrouteable".spec_bytes())
    ||| contains_seq(t, "does not exist".spec_bytes())
    ||| contains_seq(t, "invalid address".spec_bytes())
    ||| contains_seq(t, "invalid email address".spec_bytes())
    ||| contains_seq(t, "invalid recipient".spec_bytes())
    ||| contains_seq(t, "may not exist".spec_bytes())
    ||| contains_seq(t, "recipient invalid".spec_bytes())
    ||| contains_seq(t, "recipient rejected".spec_bytes())
    ||| contains_seq(t, "undeliverable".spec_bytes())
    ||| contains_seq(t, "user unknown".spec_bytes())
    ||| contains_seq(t, "unknown user".spec_bytes())
    ||| contains_seq(t, "recipient unknown".spec_bytes())
    ||| contains_seq(t, "no such user".spec_bytes())
    ||| contains_seq(t, "not found".spec_bytes())
    ||| contains_seq(t, "invalid mailbox".spec_bytes())
    ||| contains_seq(t, "no mailbox".spec_bytes())
    ||| contains_seq(t, "no such mailbox".spec_bytes())
    ||| contains_seq(t, "mailbox unavailable".spec_bytes())
    ||| contains_seq(t, "not a valid mailbox".spec_bytes())
    ||| contains_seq(t, "no such recipient".spec_bytes())
    ||| contains_seq(t, "have an account".spec_bytes())
    ||| contains_seq(t, "no longer available".spec_bytes())
}

/// The verdict the classifier reaches on a rejection text, `None` when no
/// phrase group matches and the rejection must be surfaced as an error.
pub open spec fn classify_spec(text: Seq<u8>) -> Option<Deliverability> {
    let t = lower_bytes(text);
    if matches_disabled(t) {
        Some(deliverability_flags(false, false, true))
    } else if matches_full_inbox(t) {
        Some(deliverability_flags(true, false, false))
    } else if matches_rate_limited(t) {
        Some(deliverability_flags(false, true, false))
    } else if matches_nonexistent(t) {
        Some(deliverability_flags(false, false, false))
    } else {
        None
    }
}

/// Classification reads nothing but the lower-cased text: two rejection
/// lines that fold to the same bytes always get the same verdict.
pub proof fn lemma_classifier_deterministic(a: Seq<u8>, b: Seq<u8>)
    requires
        lower_bytes(a) == lower_bytes(b),
    ensures
        classify_spec(a) == classify_spec(b),
{
}

/// The phrase groups apply in a fixed priority order: disabled wins over
/// full-inbox, which wins over rate-limited, which wins over non-existent.
pub proof fn lemma_classifier_priority(text: Seq<u8>)
    ensures
        matches_disabled(lower_bytes(text)) ==> classify_spec(text) == Some(
            deliverability_flags(false, false, true),
        ),
        classify_spec(text) == Some(deliverability_flags(true, false, false)) ==> !matches_disabled(
            lower_bytes(text),
        ) && matches_full_inbox(lower_bytes(text)),
        classify_spec(text) == Some(deliverability_flags(false, true, false))
            ==> matches_rate_limited(lower_bytes(text)),
        classify_spec(text) is None ==> !matches_disabled(lower_bytes(text)) && !matches_full_inbox(
            lower_bytes(text),
        ) && !matches_rate_limited(lower_bytes(text)) && !matches_nonexistent(lower_bytes(text)),
{
}

/// Classify a raw rejection line: fold to lower case, then match the
/// phrase groups in priority order.
pub fn classify_rejection(text: &[u8]) -> (r: Option<Deliverability>)
    ensures
        r == classify_spec(text@),
{
    let lower = to_lower(text);
    let t: &[u8] = lower.as_slice();
    if contains_bytes(t, "disabled".as_bytes()) || contains_bytes(t, "discontinued".as_bytes()) {
        Some(Deliverability { has_full_inbox: false, is_deliverable: false, is_disabled: true })
    } else if contains_bytes(t, "insufficient".as_bytes()) || contains_bytes(
        t,
        "over quota".as_bytes(),
    ) || contains_bytes(t, "too many messages".as_bytes()) {
        Some(Deliverability { has_full_inbox: true, is_deliverable: false, is_disabled: false })
    } else if contains_bytes(
        t,
        "the user you are trying to contact is receiving mail at a rate that".as_bytes(),
    ) {
        Some(Deliverability { has_full_inbox: false, is_deliverable: true, is_disabled: false })
    } else if contains_bytes(t, "address rejected".as_bytes()) || contains_bytes(
        t,
        "unrouteable".as_bytes(),
    ) || contains_bytes(t, "does not exist".as_bytes()) || contains_bytes(
        t,
        "invalid address".as_bytes(),
    ) || contains_bytes(t, "invalid email address".as_bytes()) || contains_bytes(
        t,
        "invalid recipient".as_bytes(),
    ) || contains_bytes(t, "may not exist".as_bytes()) || contains_bytes(
        t,
        "recipient invalid".as_bytes(),
    ) || contains_bytes(t, "recipient rejected".as_bytes()) || contains_bytes(
        t,
        "undeliverable".as_bytes(),
    ) || contains_bytes(t, "user unknown".as_bytes()) || contains_bytes(
        t,
        "unknown user".as_bytes(),
    ) || contains_bytes(t, "recipient unknown".as_bytes()) || contains_bytes(
        t,
        "no such user".as_bytes(),
    ) || contains_bytes(t, "not found".as_bytes()) || contains_bytes(
        t,
        "invalid mailbox".as_bytes(),
    ) || contains_bytes(t, "no mailbox".as_bytes()) || contains_bytes(
        t,
        "no such mailbox".as_bytes(),
    ) || contains_bytes(t, "mailbox unavailable".as_bytes()) || contains_bytes(
        t,
        "not a valid mailbox".as_bytes(),
    ) || contains_bytes(t, "no such recipient".as_bytes()) || contains_bytes(
        t,
        "have an account".as_bytes(),
    ) || contains_bytes(t, "no longer available".as_bytes()) {
        Some(Deliverability { has_full_inbox: false, is_deliverable: false, is_disabled: false })
    } else {
        None
    }
}

} // verus!
