//! The door through which a webhook delivery comes in: its signature is
//! checked against the shared secret before anything else is made of it, and
//! the kind of event it reports decides what its payload is read as.

use crate::status::Status;
use crate::text::{chars_of, find_char, split_once, str_eq, string_of};
use hmac::{Hmac, Mac};
use sha2::Sha256;
use vstd::prelude::*;
use vstd::string::*;

verus! {

/// Why a text is no sequence of hexadecimal digit pairs.
#[derive(Clone, Copy, Debug, PartialEq, Eq, Structural)]
pub enum HexError {
    /// The byte at `index` is no hexadecimal digit; `c` is the character
    /// with the byte's value.
    InvalidHexCharacter { c: char, index: usize },
    /// The number of digits is odd.
    OddLength,
    /// The digits do not fill a container of fixed size.
    InvalidStringLength,
}

/// The value of a hexadecimal digit, in either case.
pub open spec fn hex_value(b: u8) -> Option<u8> {
    if 0x30 <= b <= 0x39 {
        Some((b - 0x30) as u8)
    } else if 0x61 <= b <= 0x66 {
        Some((b - 0x61 + 10) as u8)
    } else if 0x41 <= b <= 0x46 {
        Some((b - 0x41 + 10) as u8)
    } else {
        None
    }
}

/// Index of the first byte that is no hexadecimal digit, or the length.
pub open spec fn first_bad_digit(bytes: Seq<u8>) -> int
    decreases bytes.len(),
{
    if bytes.len() == 0 {
        0
    } else if hex_value(bytes[0]) is None {
        0
    } else {
        1 + first_bad_digit(bytes.drop_first())
    }
}

/// The bytes that a text of hexadecimal digits stands for, two digits to a
/// byte, the high one first.
pub open spec fn hex_decoded(bytes: Seq<u8>) -> Result<Seq<u8>, HexError> {
    if bytes.len() % 2 != 0 {
        Err(HexError::OddLength)
    } else if first_bad_digit(bytes) < bytes.len() {
        Err(
            HexError::InvalidHexCharacter {
                c: bytes[first_bad_digit(bytes)] as char,
                index: first_bad_digit(bytes) as usize,
            },
        )
    } else {
        Ok(
            Seq::new(
                bytes.len() / 2,
                |i: int|
                    (hex_value(bytes[2 * i]).unwrap() * 16 + hex_value(
                        bytes[2 * i + 1],
                    ).unwrap()) as u8,
            ),
        )
    }
}

/// `hex::decode`: an odd number of digits is refused first; then the first
/// byte that is no digit is reported with its place; else each pair of
/// digits gives one byte.
#[verifier::external_body]
fn hex_decode(data: &[u8]) -> (r: Result<Vec<u8>, HexError>)
    ensures
        match hex_decoded(data@) {
            Ok(bytes) => r matches Ok(decoded) && decoded@ == bytes,
            Err(e) => r == Err::<Vec<u8>, _>(e),
        },
{
    match hex::decode(data) {
        Ok(bytes) => Ok(bytes),
        Err(hex::FromHexError::InvalidHexCharacter { c, index }) => Err(
            HexError::InvalidHexCharacter { c, index },
        ),
        Err(hex::FromHexError::OddLength) => Err(HexError::OddLength),
        Err(hex::FromHexError::InvalidStringLength) => Err(HexError::InvalidStringLength),
    }
}

/// The HMAC-SHA256 tag of `message` under `key`.
pub uninterp spec fn hmac_sha256(key: Seq<u8>, message: Seq<u8>) -> Seq<u8>;

/// `Hmac::<Sha256>` with `new_from_slice`, `update` and `verify_slice`:
/// whether `tag` is the HMAC-SHA256 tag of `message` under `key`.
#[verifier::external_body]
fn hmac_sha256_matches(key: &[u8], message: &[u8], tag: &[u8]) -> (ok: bool)
    ensures
        ok == (tag@ == hmac_sha256(key@, message@)),
{
    match Hmac::<Sha256>::new_from_slice(key) {
        Ok(mut mac) => {
            mac.update(message);
            mac.verify_slice(tag).is_ok()
        },
        Err(_) => false,
    }
}

/// The signature that comes with a delivery, `<prefix>=<hexadecimal tag>`.
#[derive(Debug)]
pub struct GitHubSignature {
    pub prefix: String,
    pub payload: Vec<u8>,
}

/// Why a header holds no signature.
#[derive(Clone, Copy, Debug, PartialEq, Eq, Structural)]
pub enum SignatureError {
    /// The header holds no `=`.
    BadFormat,
    /// What follows the `=` is no hexadecimal text.
    Hex(HexError),
}

/// The prefix and the tag that a header holds.
pub open spec fn parse_signature(s: Seq<char>) -> Result<(Seq<char>, Seq<u8>), SignatureError> {
    match split_once(s, '=') {
        None => Err(SignatureError::BadFormat),
        Some((prefix, payload)) => match hex_decoded(vstd::utf8::encode_utf8(payload)) {
            Ok(bytes) => Ok((prefix, bytes)),
            Err(e) => Err(SignatureError::Hex(e)),
        },
    }
}

impl GitHubSignature {
    /// Reads a signature header: the text before the first `=` is the
    /// prefix, the hexadecimal text after it the tag.
    pub fn from_str(s: &str) -> (r: Result<GitHubSignature, SignatureError>)
        ensures
            match parse_signature(s@) {
                Ok((prefix, payload)) => r matches Ok(signature) && signature.prefix@ == prefix
                    && signature.payload@ == payload,
                Err(e) => r == Err::<GitHubSignature, _>(e),
            },
    {
        let chars = chars_of(s);
        let at = find_char(&chars, 0, '=');
        assert(chars@.skip(0) == chars@);
        if at >= chars.len() {
            return Err(SignatureError::BadFormat);
        }
        let prefix = string_of(&chars, 0, at);
        let digits = string_of(&chars, at + 1, chars.len());
        proof {
            assert(chars@.subrange(0, at as int) == chars@.take(at as int));
            assert(chars@.subrange(at + 1, chars.len() as int) == chars@.skip(at + 1));
        }
        match hex_decode(digits.as_str().as_bytes()) {
            Ok(payload) => Ok(GitHubSignature { prefix, payload }),
            Err(e) => Err(SignatureError::Hex(e)),
        }
    }
}

/// The kinds of event that the bot takes.
#[derive(Clone, Copy, Debug, PartialEq, Eq, Structural)]
pub enum GitHubWebhookKind {
    IssueComment,
    Issues,
    PullRequest,
    CheckRun,
}

/// Why a delivery is turned away.
#[derive(Debug)]
pub enum GuardError {
    /// The payload is longer than the limit, whose text this is.
    PayloadTooLarge(String),
    /// The payload could not be read.
    Unreadable(String),
    /// The signature is missing or is none.
    BadSignature,
    /// The signature is not that of the payload.
    MismatchingSignature,
    /// The delivery does not say which event it reports.
    MissingEvent,
    /// The delivery reports an event that the bot does not take.
    UnsupportedEvent(String),
    /// The payload is not what the event's kind asks for.
    Unprocessable(String),
}

impl GuardError {
    pub open spec fn text(&self) -> Seq<char> {
        match self {
            GuardError::PayloadTooLarge(limit) => "Payload exceeds limit "@ + limit@,
            GuardError::Unreadable(detail) => detail@,
            GuardError::BadSignature => "Bad or missing signature."@,
            GuardError::MismatchingSignature => "Mismatching signature."@,
            GuardError::MissingEvent => "Missing X-GitHub-Event header."@,
            GuardError::UnsupportedEvent(event) => "Event "@ + event@ + " is not supported."@,
            GuardError::Unprocessable(detail) => detail@,
        }
    }

    pub fn message(&self) -> (m: String)
        ensures
            m@ == self.text(),
    {
        match self {
            GuardError::PayloadTooLarge(limit) => {
                let mut m = "Payload exceeds limit ".to_owned();
                m.append(limit.as_str());
                m
            },
            GuardError::Unreadable(detail) => detail.clone(),
            GuardError::BadSignature => "Bad or missing signature.".to_owned(),
            GuardError::MismatchingSignature => "Mismatching signature.".to_owned(),
            GuardError::MissingEvent => "Missing X-GitHub-Event header.".to_owned(),
            GuardError::UnsupportedEvent(event) => {
                let mut m = "Event ".to_owned();
                m.append(event.as_str());
                m.append(" is not supported.");
                m
            },
            GuardError::Unprocessable(detail) => detail.clone(),
        }
    }
}

/// The kind of event that the event header names.
pub open spec fn kind_of_event(event: Seq<char>) -> Option<GitHubWebhookKind> {
    if event == "issue_comment"@ {
        Some(GitHubWebhookKind::IssueComment)
    } else if event == "issues"@ {
        Some(GitHubWebhookKind::Issues)
    } else if event == "pull_request"@ {
        Some(GitHubWebhookKind::PullRequest)
    } else if event == "check_run"@ {
        Some(GitHubWebhookKind::CheckRun)
    } else {
        None
    }
}

/// Says as what the payload of a delivery is to be read, from the header
/// that names its event. A delivery without that header is a bad request;
/// an event that the bot does not take is not implemented.
pub fn event_kind(event: Option<&str>) -> (r: Result<GitHubWebhookKind, (Status, GuardError)>)
    ensures
        match event {
            None => r matches Err((status, error)) && status == Status::BadRequest
                && error is MissingEvent,
            Some(name) => match kind_of_event(name@) {
                Some(kind) => r == Ok::<_, (Status, GuardError)>(kind),
                None => r matches Err((status, GuardError::UnsupportedEvent(given))) && status
                    == Status::NotImplemented && given@ == name@,
            },
        },
{
    match event {
        None => Err((Status::BadRequest, GuardError::MissingEvent)),
        Some(name) => {
            if str_eq(name, "issue_comment") {
                Ok(GitHubWebhookKind::IssueComment)
            } else if str_eq(name, "issues") {
                Ok(GitHubWebhookKind::Issues)
            } else if str_eq(name, "pull_request") {
                Ok(GitHubWebhookKind::PullRequest)
            } else if str_eq(name, "check_run") {
                Ok(GitHubWebhookKind::CheckRun)
            } else {
                Err((Status::NotImplemented, GuardError::UnsupportedEvent(name.to_owned())))
            }
        },
    }
}

/// A payload that is not what its event's kind asks for cannot be
/// processed.
pub fn unprocessable(detail: String) -> (r: (Status, GuardError))
    ensures
        r.0 == Status::UnprocessableEntity,
        r.1 == GuardError::Unprocessable(detail),
{
    (Status::UnprocessableEntity, GuardError::Unprocessable(detail))
}

/// How the reading of a payload went.
#[derive(Debug)]
pub enum PayloadRead {
    /// The whole payload was read.
    Complete(String),
    /// The payload is longer than the limit, whose text this is.
    Truncated(String),
    /// Reading failed.
    Failed(String),
}

/// Whether `header` holds the signature of `payload` under `secret`.
pub open spec fn is_signed(secret: Seq<char>, payload: Seq<char>, header: Seq<char>) -> bool {
    parse_signature(header) matches Ok((_, tag)) && tag == hmac_sha256(
        vstd::utf8::encode_utf8(secret),
        vstd::utf8::encode_utf8(payload),
    )
}

/// Whether a delivery comes with the signature of `payload` under `secret`.
pub open spec fn has_signature(secret: Seq<char>, payload: Seq<char>, signature: Option<&str>)
    -> bool {
    match signature {
        Some(header) => is_signed(secret, payload, header@),
        None => false,
    }
}

/// What was found of the signature of a delivery.
#[derive(Clone, Copy, Debug, PartialEq, Eq, Structural)]
pub enum SignatureCheck {
    /// The delivery has no signature header, or one that holds no signature.
    Missing,
    /// The signature is not that of the payload.
    Mismatch,
    /// The signature is that of the payload.
    Valid,
}

/// What is found of the signature header of a delivery with this payload.
pub open spec fn signature_check(secret: Seq<char>, payload: Seq<char>, signature: Option<&str>)
    -> SignatureCheck {
    match signature {
        None => SignatureCheck::Missing,
        Some(header) => if parse_signature(header@) is Err {
            SignatureCheck::Missing
        } else if is_signed(secret, payload, header@) {
            SignatureCheck::Valid
        } else {
            SignatureCheck::Mismatch
        },
    }
}

/// What becomes of a delivery, given how its payload was read and what was
/// found of its signature.
pub open spec fn is_admission(
    payload: PayloadRead,
    check: SignatureCheck,
    event: Option<&str>,
    r: Result<(GitHubWebhookKind, String), (Status, GuardError)>,
) -> bool {
    match payload {
        PayloadRead::Truncated(limit) => r == Err::<(GitHubWebhookKind, String), _>(
            (Status::PayloadTooLarge, GuardError::PayloadTooLarge(limit)),
        ),
        PayloadRead::Failed(detail) => r == Err::<(GitHubWebhookKind, String), _>(
            (Status::BadRequest, GuardError::Unreadable(detail)),
        ),
        PayloadRead::Complete(body) => match check {
            SignatureCheck::Missing => r matches Err((status, error)) && status
                == Status::Unauthorized && error is BadSignature,
            SignatureCheck::Mismatch => r matches Err((status, error)) && status
                == Status::Forbidden && error is MismatchingSignature,
            SignatureCheck::Valid => match event {
                None => r matches Err((status, error)) && status == Status::BadRequest
                    && error is MissingEvent,
                Some(name) => match kind_of_event(name@) {
                    Some(kind) => r == Ok::<_, (Status, GuardError)>((kind, body)),
                    None => r matches Err((status, GuardError::UnsupportedEvent(given)))
                        && status == Status::NotImplemented && given@ == name@,
                },
            },
        },
    }
}

/// Decides on a delivery whose signature has been looked at.
///
/// A payload that could not be read whole is turned away first. A
/// delivery without a signature is unauthorized; one whose signature is
/// not that of its payload is forbidden. Only a signed delivery has its
/// event header looked at, which decides as what the payload is to be
/// read; the payload is handed back for that.
pub fn decide(payload: PayloadRead, check: SignatureCheck, event: Option<&str>) -> (r: Result<
    (GitHubWebhookKind, String),
    (Status, GuardError),
>)
    ensures
        is_admission(payload, check, event, r),
        // A payload that is not signed is turned away as unauthorized,
        // whatever event it claims to report.
        payload is Complete && check != SignatureCheck::Valid ==> (r matches Err((status, _))
            && status.spec_is_unauthorized_class()),
{
    let body = match payload {
        PayloadRead::Complete(body) => body,
        PayloadRead::Truncated(limit) => {
            return Err((Status::PayloadTooLarge, GuardError::PayloadTooLarge(limit)));
        },
        PayloadRead::Failed(detail) => {
            return Err((Status::BadRequest, GuardError::Unreadable(detail)));
        },
    };
    match check {
        SignatureCheck::Missing => Err((Status::Unauthorized, GuardError::BadSignature)),
        SignatureCheck::Mismatch => Err((Status::Forbidden, GuardError::MismatchingSignature)),
        SignatureCheck::Valid => match event_kind(event) {
            Ok(kind) => Ok((kind, body)),
            Err(e) => Err(e),
        },
    }
}

/// Looks at the signature header of a delivery with this payload.
pub fn check_signature(secret: &str, payload: &str, signature: Option<&str>) -> (check:
    SignatureCheck)
    ensures
        check == signature_check(secret@, payload@, signature),
{
    match signature {
        None => SignatureCheck::Missing,
        Some(header) => match GitHubSignature::from_str(header) {
            Err(_) => SignatureCheck::Missing,
            Ok(parsed) => {
                if hmac_sha256_matches(
                    secret.as_bytes(),
                    payload.as_bytes(),
                    parsed.payload.as_slice(),
                ) {
                    SignatureCheck::Valid
                } else {
                    SignatureCheck::Mismatch
                }
            },
        },
    }
}

/// Checks a delivery before anything is made of its payload.
///
/// A payload that could not be read whole is turned away first. Then the
/// signature header must hold the HMAC-SHA256 tag of the payload under the
/// secret: a missing header, or one that is no signature, is unauthorized;
/// a tag that is not the payload's is forbidden. Only then does the event
/// header decide as what the payload is to be read, and the payload is
/// handed back for that.
pub fn from_data(
    secret: &str,
    payload: PayloadRead,
    signature: Option<&str>,
    event: Option<&str>,
) -> (r: Result<(GitHubWebhookKind, String), (Status, GuardError)>)
    ensures
        match payload {
            PayloadRead::Complete(body) => is_admission(
                payload,
                signature_check(secret@, body@, signature),
                event,
                r,
            ),
            _ => is_admission(payload, SignatureCheck::Missing, event, r),
        },
        // A payload that is not signed is turned away as unauthorized,
        // whatever event it claims to report.
        payload matches PayloadRead::Complete(body) ==> (!has_signature(
            secret@,
            body@,
            signature,
        ) ==> (r matches Err((status, _)) && status.spec_is_unauthorized_class())),
{
    let check = match &payload {
        PayloadRead::Complete(body) => check_signature(secret, body.as_str(), signature),
        _ => SignatureCheck::Missing,
    };
    decide(payload, check, event)
}

} // verus!
