use smtp_probe::Deliverability;
use smtp_probe::classify::classify_rejection;
use smtp_probe::error::{SmtpError, SmtpErrorKind};
use smtp_probe::session::{ProbeOutcome, interpret_probe_outcome};
use smtp_probe::text::{contains_bytes, to_lower};

fn triple(full: bool, deliverable: bool, disabled: bool) -> Deliverability {
    Deliverability { has_full_inbox: full, is_deliverable: deliverable, is_disabled: disabled }
}

#[test]
fn user_unknown_means_nonexistent() {
    let r = classify_rejection(b"550 5.1.1 User unknown");
    assert_eq!(r, Some(triple(false, false, false)));
}

#[test]
fn over_quota_means_full_inbox() {
    let r = classify_rejection(b"452 4.2.2 mailbox full, over quota");
    assert_eq!(r, Some(triple(true, false, false)));
}

#[test]
fn disabled_account_is_reported_disabled() {
    let r = classify_rejection(b"554 The email account that you tried to reach is disabled");
    assert_eq!(r, Some(triple(false, false, true)));
}

#[test]
fn rate_limited_user_is_still_deliverable() {
    let r = classify_rejection(
        b"4.2.1 The user you are trying to contact is receiving mail at a rate that prevents delivery",
    );
    assert_eq!(r, Some(triple(false, true, false)));
}

#[test]
fn matching_is_case_insensitive() {
    let r = classify_rejection(b"550 USER UNKNOWN");
    assert_eq!(r, Some(triple(false, false, false)));
    let r = classify_rejection(b"554 ACCOUNT DISABLED");
    assert_eq!(r, Some(triple(false, false, true)));
}

#[test]
fn disabled_takes_priority_over_full_inbox() {
    let r = classify_rejection(b"554 account disabled and over quota");
    assert_eq!(r, Some(triple(false, false, true)));
}

#[test]
fn full_inbox_takes_priority_over_nonexistent() {
    let r = classify_rejection(b"552 over quota; user unknown");
    assert_eq!(r, Some(triple(true, false, false)));
}

#[test]
fn unmatched_text_is_not_classified() {
    assert_eq!(classify_rejection(b"451 try again later"), None);
    assert_eq!(classify_rejection(b""), None);
}

#[test]
fn accepted_recipient_is_deliverable() {
    let r = interpret_probe_outcome(ProbeOutcome::Accepted);
    assert_eq!(r.unwrap(), triple(false, true, false));
}

#[test]
fn classified_rejection_becomes_a_verdict() {
    let r = interpret_probe_outcome(ProbeOutcome::Rejected(
        SmtpErrorKind::Permanent,
        b"550 no such user here".to_vec(),
    ));
    assert_eq!(r.unwrap(), triple(false, false, false));
}

#[test]
fn unclassified_rejection_surfaces_as_error() {
    let text = b"421 service not available".to_vec();
    let r = interpret_probe_outcome(ProbeOutcome::Rejected(SmtpErrorKind::Transient, text.clone()));
    match r {
        Err(SmtpError::SmtpError(kind, msg)) => {
            assert_eq!(kind, SmtpErrorKind::Transient);
            assert_eq!(msg, text);
        }
        other => panic!("expected the rejection back as an error, got {:?}", other),
    }
}

#[test]
fn lowercase_folds_ascii_only() {
    assert_eq!(to_lower(b"AbC-09 Z").as_slice(), b"abc-09 z");
    assert_eq!(to_lower(b"").as_slice(), b"");
}

#[test]
fn substring_search_finds_patterns() {
    assert!(contains_bytes(b"user unknown here", b"unknown"));
    assert!(contains_bytes(b"abc", b""));
    assert!(!contains_bytes(b"ab", b"abc"));
    assert!(!contains_bytes(b"user unknown", b"quota"));
    assert!(contains_bytes(b"xxabc", b"abc"));
    assert!(contains_bytes(b"abcxx", b"abc"));
}
