use botman::github::webhook::guard::{
    event_kind, from_data, unprocessable, GitHubSignature, GitHubWebhookKind, GuardError,
    HexError, PayloadRead, SignatureError,
};
use botman::status::Status;

const SECRET: &str = "It's a Secret to Everybody";
const BODY: &str = "Hello, World!";
const SIGNATURE: &str = "sha256=757107ea0eb2509fc211221cce984b8a37570b6d7586c22c46f4379c8b043e17";

fn complete(body: &str) -> PayloadRead {
    PayloadRead::Complete(body.to_owned())
}

#[test]
fn signature_header_is_split_and_decoded() {
    let signature = GitHubSignature::from_str("sha256=00ff10Ab").unwrap();
    assert_eq!(signature.prefix, "sha256");
    assert_eq!(signature.payload, vec![0x00, 0xff, 0x10, 0xab]);
    let signature = GitHubSignature::from_str("=").unwrap();
    assert_eq!(signature.prefix, "");
    assert!(signature.payload.is_empty());
}

#[test]
fn signature_header_without_equals_sign_is_bad() {
    assert_eq!(GitHubSignature::from_str("sha256").unwrap_err(), SignatureError::BadFormat);
    assert_eq!(GitHubSignature::from_str("").unwrap_err(), SignatureError::BadFormat);
}

#[test]
fn signature_header_with_bad_digits_is_bad() {
    assert_eq!(
        GitHubSignature::from_str("sha256=abc").unwrap_err(),
        SignatureError::Hex(HexError::OddLength)
    );
    assert_eq!(
        GitHubSignature::from_str("sha256=abcg").unwrap_err(),
        SignatureError::Hex(HexError::InvalidHexCharacter { c: 'g', index: 3 })
    );
    assert_eq!(
        GitHubSignature::from_str("sha256=a=cd").unwrap_err(),
        SignatureError::Hex(HexError::InvalidHexCharacter { c: '=', index: 1 })
    );
    // An odd number of bytes is refused before any digit is looked at.
    assert_eq!(
        GitHubSignature::from_str("sha256=zzz").unwrap_err(),
        SignatureError::Hex(HexError::OddLength)
    );
}

#[test]
fn signed_delivery_is_let_in() {
    let (kind, body) =
        from_data(SECRET, complete(BODY), Some(SIGNATURE), Some("issue_comment")).unwrap();
    assert_eq!(kind, GitHubWebhookKind::IssueComment);
    assert_eq!(body, BODY);
}

#[test]
fn delivery_with_a_mismatching_signature_is_forbidden() {
    let (status, error) =
        from_data(SECRET, complete("Hello, World?"), Some(SIGNATURE), Some("issue_comment"))
            .unwrap_err();
    assert_eq!(status, Status::Forbidden);
    assert!(status.is_unauthorized_class());
    assert!(matches!(error, GuardError::MismatchingSignature));
    assert_eq!(error.message(), "Mismatching signature.");

    let (status, _) =
        from_data("another secret", complete(BODY), Some(SIGNATURE), Some("issue_comment"))
            .unwrap_err();
    assert_eq!(status, Status::Forbidden);

    let (status, _) =
        from_data(SECRET, complete(BODY), Some("sha256=7571"), Some("issue_comment")).unwrap_err();
    assert_eq!(status, Status::Forbidden);
}

#[test]
fn delivery_without_a_signature_is_unauthorized() {
    let (status, error) = from_data(SECRET, complete(BODY), None, Some("issues")).unwrap_err();
    assert_eq!(status, Status::Unauthorized);
    assert!(status.is_unauthorized_class());
    assert_eq!(status.code(), 401);
    assert!(matches!(error, GuardError::BadSignature));
    assert_eq!(error.message(), "Bad or missing signature.");
    for header in ["sha256", "sha256=xyz", "sha256=abc"] {
        let (status, error) =
            from_data(SECRET, complete(BODY), Some(header), Some("issues")).unwrap_err();
        assert_eq!(status, Status::Unauthorized);
        assert!(matches!(error, GuardError::BadSignature));
    }
}

#[test]
fn signature_is_checked_before_the_event_is_looked_at() {
    let (status, _) = from_data(SECRET, complete(BODY), None, None).unwrap_err();
    assert_eq!(status, Status::Unauthorized);
    let (status, _) =
        from_data(SECRET, complete("tampered"), Some(SIGNATURE), Some("unknown")).unwrap_err();
    assert_eq!(status, Status::Forbidden);
}

#[test]
fn signed_delivery_needs_a_known_event() {
    let (status, error) = from_data(SECRET, complete(BODY), Some(SIGNATURE), None).unwrap_err();
    assert_eq!(status, Status::BadRequest);
    assert_eq!(error.message(), "Missing X-GitHub-Event header.");
    let (status, error) =
        from_data(SECRET, complete(BODY), Some(SIGNATURE), Some("push")).unwrap_err();
    assert_eq!(status, Status::NotImplemented);
    assert_eq!(status.code(), 501);
    assert_eq!(error.message(), "Event push is not supported.");
}

#[test]
fn payload_that_was_not_read_whole_is_turned_away_first() {
    let (status, error) =
        from_data(SECRET, PayloadRead::Truncated("1MiB".to_owned()), Some(SIGNATURE), Some("issues"))
            .unwrap_err();
    assert_eq!(status, Status::PayloadTooLarge);
    assert_eq!(status.code(), 413);
    assert_eq!(error.message(), "Payload exceeds limit 1MiB");
    let (status, error) =
        from_data(SECRET, PayloadRead::Failed("connection reset".to_owned()), None, None)
            .unwrap_err();
    assert_eq!(status, Status::BadRequest);
    assert!(status.is_client_error());
    assert_eq!(error.message(), "connection reset");
}

#[test]
fn any_prefix_goes_with_the_right_tag() {
    let header = "md5=757107ea0eb2509fc211221cce984b8a37570b6d7586c22c46f4379c8b043e17";
    assert!(from_data(SECRET, complete(BODY), Some(header), Some("check_run")).is_ok());
}

#[test]
fn event_header_names_the_kind() {
    assert_eq!(event_kind(Some("issue_comment")).unwrap(), GitHubWebhookKind::IssueComment);
    assert_eq!(event_kind(Some("issues")).unwrap(), GitHubWebhookKind::Issues);
    assert_eq!(event_kind(Some("pull_request")).unwrap(), GitHubWebhookKind::PullRequest);
    assert_eq!(event_kind(Some("check_run")).unwrap(), GitHubWebhookKind::CheckRun);
    let (status, error) = event_kind(Some("Issues")).unwrap_err();
    assert_eq!(status, Status::NotImplemented);
    assert!(matches!(error, GuardError::UnsupportedEvent(ref name) if name == "Issues"));
    let (status, error) = event_kind(None).unwrap_err();
    assert_eq!(status, Status::BadRequest);
    assert!(matches!(error, GuardError::MissingEvent));
}

#[test]
fn payload_of_the_wrong_shape_is_unprocessable() {
    let (status, error) = unprocessable("missing field `action`".to_owned());
    assert_eq!(status, Status::UnprocessableEntity);
    assert_eq!(status.code(), 422);
    assert_eq!(error.message(), "missing field `action`");
}
