use smtp_probe::SmtpDetails;
use smtp_probe::catch_all::synthetic_probe_address;
use smtp_probe::error::{SmtpError, SmtpErrorKind};
use smtp_probe::establish::{
    ProxyAuth, choose_proxy_auth, effective_sender, normalize_host, use_alternate_provider,
};
use smtp_probe::retry::{RetryDecision, next_attempt_decision, run_retry_schedule};

fn transient() -> Result<SmtpDetails, SmtpError> {
    Err(SmtpError::SmtpError(SmtpErrorKind::Transient, b"451 greylisted".to_vec()))
}

fn permanent() -> Result<SmtpDetails, SmtpError> {
    Err(SmtpError::SmtpError(SmtpErrorKind::Permanent, b"550 rejected".to_vec()))
}

fn success() -> Result<SmtpDetails, SmtpError> {
    Ok(SmtpDetails {
        can_connect_smtp: true,
        has_full_inbox: false,
        is_catch_all: false,
        is_deliverable: true,
        is_disabled: false,
    })
}

#[test]
fn transient_failures_use_every_attempt() {
    let r = run_retry_schedule(vec![transient(), transient(), transient()], 3);
    // All three attempts are made; the last failure comes back unchanged.
    assert!(matches!(r, Err(SmtpError::SmtpError(SmtpErrorKind::Transient, _))));
    let r = run_retry_schedule(vec![transient(), success(), success()], 3);
    assert!(r.is_ok());
}

#[test]
fn overall_timeout_is_retried_then_returned() {
    let r = run_retry_schedule(vec![Err(SmtpError::TimeoutError), Err(SmtpError::TimeoutError)], 2);
    assert!(matches!(r, Err(SmtpError::TimeoutError)));
}

#[test]
fn permanent_failures_are_never_retried() {
    let r = run_retry_schedule(vec![permanent(), success()], 2);
    assert!(matches!(r, Err(SmtpError::SmtpError(SmtpErrorKind::Permanent, _))));
}

#[test]
fn last_allowed_attempt_is_final() {
    let r = run_retry_schedule(vec![transient(), success()], 1);
    assert!(matches!(r, Err(SmtpError::SmtpError(SmtpErrorKind::Transient, _))));
}

#[test]
fn retry_decisions_follow_the_taxonomy() {
    assert_eq!(next_attempt_decision(&transient(), 2), RetryDecision::TryAgain);
    assert_eq!(next_attempt_decision(&transient(), 1), RetryDecision::Finish);
    assert_eq!(next_attempt_decision(&permanent(), 5), RetryDecision::Finish);
    assert_eq!(next_attempt_decision(&Err(SmtpError::TimeoutError), 2), RetryDecision::TryAgain);
    assert_eq!(
        next_attempt_decision(&Err(SmtpError::SocksError(b"refused".to_vec())), 5),
        RetryDecision::Finish,
    );
    assert_eq!(
        next_attempt_decision(&Err(SmtpError::YahooError(b"api error".to_vec())), 5),
        RetryDecision::Finish,
    );
    assert_eq!(next_attempt_decision(&success(), 5), RetryDecision::Finish);
}

#[test]
fn io_incomplete_is_detected_exactly() {
    let e = SmtpError::SmtpError(SmtpErrorKind::Io, b"incomplete".to_vec());
    assert!(e.check_io_incomplete());
    let e = SmtpError::SmtpError(SmtpErrorKind::Io, b"incomplete frame".to_vec());
    assert!(!e.check_io_incomplete());
    let e = SmtpError::SmtpError(SmtpErrorKind::Other, b"incomplete".to_vec());
    assert!(!e.check_io_incomplete());
    let e = SmtpError::TimeoutError;
    assert!(!e.check_io_incomplete());
}

#[test]
fn trailing_dots_are_stripped_from_hostnames() {
    assert_eq!(normalize_host(b"gmail.com.").as_slice(), b"gmail.com");
    assert_eq!(normalize_host(b"gmail.com...").as_slice(), b"gmail.com");
    assert_eq!(normalize_host(b"gmail.com").as_slice(), b"gmail.com");
    assert_eq!(normalize_host(b".").as_slice(), b"");
    assert_eq!(normalize_host(b"").as_slice(), b"");
}

#[test]
fn proxy_authenticates_only_with_both_credentials() {
    let r = choose_proxy_auth(Some(b"user".to_vec()), Some(b"pass".to_vec()));
    match r {
        ProxyAuth::Password { username, password } => {
            assert_eq!(username, b"user".to_vec());
            assert_eq!(password, b"pass".to_vec());
        }
        ProxyAuth::Anonymous => panic!("expected authenticated proxy"),
    }
    assert!(matches!(choose_proxy_auth(Some(b"user".to_vec()), None), ProxyAuth::Anonymous));
    assert!(matches!(choose_proxy_auth(None, Some(b"pass".to_vec())), ProxyAuth::Anonymous));
    assert!(matches!(choose_proxy_auth(None, None), ProxyAuth::Anonymous));
}

#[test]
fn invalid_sender_falls_back_to_the_fixed_address() {
    assert_eq!(effective_sender("probe@example.com"), "probe@example.com");
    assert_eq!(effective_sender("not an email"), "user@example.org");
    assert_eq!(effective_sender(""), "user@example.org");
}

#[test]
fn alternate_provider_path_needs_flag_and_domain() {
    assert!(use_alternate_provider(b"yahoo.com", true));
    assert!(use_alternate_provider(b"YAHOO.co.uk", true));
    assert!(!use_alternate_provider(b"yahoo.com", false));
    assert!(!use_alternate_provider(b"gmail.com", true));
}

#[test]
fn synthetic_address_has_random_local_part_at_domain() {
    let domain = b"gmail.com";
    let a = synthetic_probe_address(domain);
    assert_eq!(a.len(), 16 + domain.len());
    assert_eq!(a[15], b'@');
    assert_eq!(&a[16..], domain);
    for i in 0..15 {
        assert!(a[i].is_ascii_alphanumeric(), "byte {} not alphanumeric", a[i]);
    }
}

#[test]
fn synthetic_local_parts_are_fresh() {
    // Two draws agreeing on all 15 random bytes is overwhelmingly
    // unlikely; a generator that ignored its state would fail this.
    let a = synthetic_probe_address(b"example.com");
    let b = synthetic_probe_address(b"example.com");
    assert_ne!(a[..15], b[..15]);
}
