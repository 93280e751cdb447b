use manta_signer::coordinator::{
    finish_request, Coordinator, PasswordPoll, RequestStart, SendOutcome, SubmitAttempt,
};
use manta_signer::secret::{Password, SecretBytes};
use manta_signer::CoreError;

fn known_password(bytes: &[u8]) -> Password {
    Password::from_known(SecretBytes::new(bytes.to_vec()))
}

fn armed_coordinator() -> Coordinator {
    let mut coordinator = Coordinator::new();
    coordinator.attach();
    coordinator
}

#[test]
fn round_trip_verdict_false_on_close() {
    let mut coordinator = armed_coordinator();

    // The producer submits the first password and parks for its verdict.
    assert!(matches!(coordinator.submit(known_password(b"first")), SubmitAttempt::Sent));

    // The consumer requests and receives exactly that password.
    assert_eq!(coordinator.request_password(), RequestStart::Started);
    let delivered = match coordinator.poll_password() {
        PasswordPoll::Ready(password) => password,
        _ => panic!("the submitted password must be served"),
    };
    let secret = delivered.known().expect("the delivered password is known");
    assert_eq!(secret.expose_secret(), &b"first".to_vec());

    // A second submission cannot proceed while the first awaits its verdict.
    let second = known_password(b"second");
    let second = match coordinator.submit(second) {
        SubmitAttempt::Blocked(returned) => returned,
        _ => panic!("a submission before the verdict must block"),
    };

    // Closing the round releases the parked first submission with `false`.
    assert_eq!(coordinator.close_round(), SendOutcome::Sent);
    assert_eq!(coordinator.poll_verdict(), Some(false));

    // Now the second submission goes through.
    assert!(matches!(coordinator.submit(second), SubmitAttempt::Sent));
}

#[test]
fn retry_sends_true_to_parked_producer() {
    let mut coordinator = armed_coordinator();

    assert!(matches!(coordinator.submit(known_password(b"guess")), SubmitAttempt::Sent));
    assert_eq!(coordinator.request_password(), RequestStart::Started);
    assert!(matches!(coordinator.poll_password(), PasswordPoll::Ready(_)));

    // A second request without an intervening close signals a retry: the
    // producer parked on the first submission observes the verdict `true`
    // before any new password can be served.
    assert_eq!(coordinator.request_password(), RequestStart::Started);
    assert_eq!(coordinator.poll_verdict(), Some(true));
    assert!(matches!(coordinator.poll_password(), PasswordPoll::Pending));
}

#[test]
fn detached_submit_returns_at_once() {
    let mut coordinator = Coordinator::new();
    assert!(matches!(coordinator.submit(known_password(b"nobody")), SubmitAttempt::Detached));
}

#[test]
fn submit_after_detach_returns_at_once() {
    let mut coordinator = armed_coordinator();
    coordinator.detach();
    assert!(matches!(coordinator.submit(known_password(b"late")), SubmitAttempt::Detached));
}

#[test]
fn detach_fails_parked_request_with_closure() {
    let mut coordinator = armed_coordinator();
    assert_eq!(coordinator.request_password(), RequestStart::Started);
    coordinator.detach();
    let poll = coordinator.poll_password();
    assert!(matches!(poll, PasswordPoll::Closed));
    assert!(matches!(finish_request(poll), Err(CoreError::CommunicationClosed)));
}

#[test]
fn detach_releases_parked_submission_with_false() {
    let mut coordinator = armed_coordinator();
    assert!(matches!(coordinator.submit(known_password(b"lost")), SubmitAttempt::Sent));
    coordinator.detach();
    assert_eq!(coordinator.poll_verdict(), Some(false));
}

#[test]
fn cancel_delivers_unknown_password() {
    let mut coordinator = armed_coordinator();
    assert_eq!(coordinator.cancel(), SendOutcome::Sent);
    assert_eq!(coordinator.request_password(), RequestStart::Started);
    match coordinator.poll_password() {
        PasswordPoll::Ready(password) => assert!(!password.is_known()),
        _ => panic!("the cancellation sentinel must be served"),
    }
}

#[test]
fn cancel_on_detached_coordinator_is_no_op() {
    let mut coordinator = Coordinator::new();
    assert_eq!(coordinator.cancel(), SendOutcome::Detached);
}

#[test]
fn load_exact_parks_no_producer() {
    let mut coordinator = armed_coordinator();
    assert!(matches!(coordinator.load_exact(known_password(b"fresh")), SubmitAttempt::Sent));

    // The slot is single: a second delivery blocks until it is consumed.
    let blocked = coordinator.load_exact(known_password(b"extra"));
    assert!(matches!(blocked, SubmitAttempt::Blocked(_)));

    assert_eq!(coordinator.request_password(), RequestStart::Started);
    match coordinator.poll_password() {
        PasswordPoll::Ready(password) => assert!(password.is_known()),
        _ => panic!("the delivered password must be served"),
    }
}

#[test]
fn request_blocks_while_stale_verdict_waits() {
    let mut coordinator = armed_coordinator();

    // Two known passwords are delivered without a parked producer, so the
    // retry verdict sent between them is never collected.
    assert!(matches!(coordinator.load_exact(known_password(b"one")), SubmitAttempt::Sent));
    assert_eq!(coordinator.request_password(), RequestStart::Started);
    assert!(matches!(coordinator.poll_password(), PasswordPoll::Ready(_)));
    assert!(matches!(coordinator.load_exact(known_password(b"two")), SubmitAttempt::Sent));
    assert_eq!(coordinator.request_password(), RequestStart::Started);
    assert!(matches!(coordinator.poll_password(), PasswordPoll::Ready(_)));

    // A further request owes a retry signal, but the verdict slot is still
    // occupied: the real call would block here.
    assert_eq!(coordinator.request_password(), RequestStart::Blocked);
}
