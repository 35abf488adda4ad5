use mail_relay::error::RelayError;
use mail_relay::routes::{email_response, email_request, health};
use mail_relay::middleware::{auth, extract_bearer};
use mail_relay::service::{RelayRequest, RelayResponse, RelayService};
use mail_relay::config::RelaySMTPConfig;

fn request(to: &str, subject: &str, body: &str, name: Option<&str>) -> RelayRequest {
    RelayRequest {
        to: to.to_string(),
        subject: subject.to_string(),
        body: body.to_string(),
        name: name.map(|n| n.to_string()),
    }
}

fn service() -> RelayService {
    RelayService::new(RelaySMTPConfig {
        host: "smtp.example.com".to_string(),
        user: "sender@example.com".to_string(),
        pass: "SECRET-REDACTED".to_string(),
        name: "Relay".to_string(),
        port: 587,
    })
    .unwrap()
}

#[test]
fn health_returns_the_fixed_envelope() {
    let (status, body) = health();
    assert_eq!(status, 200);
    assert!(body.success);
    assert_eq!(body.message, "relay is running");
}

#[test]
fn respond_builds_the_envelope() {
    let (status, body) = RelayResponse::respond(200, true, "email sent successfully");
    assert_eq!(status, 200);
    assert!(body.success);
    assert_eq!(body.message, "email sent successfully");
}

#[test]
fn validator_accepts_a_valid_request() {
    let req = request("a@example.com", "Hi", "hello", None);
    assert!(req.validate().is_ok());
}

#[test]
fn validator_accepts_bounds() {
    let req = request(
        "a@example.com",
        &"s".repeat(256),
        &"b".repeat(256_000),
        Some("Someone"),
    );
    assert!(req.validate().is_ok());
}

#[test]
fn validator_counts_characters_not_bytes() {
    // 256 two-byte characters: within the subject bound measured in characters.
    let req = request("a@example.com", &"\u{e9}".repeat(256), "hello", None);
    assert!(req.validate().is_ok());
}

#[test]
fn validator_rejects_a_bad_address_naming_to() {
    let req = request("not-an-address", "Hi", "hello", None);
    match req.validate() {
        Err(RelayError::Validation(m)) => {
            assert_eq!(m, "to must be a valid email address");
        }
        other => panic!("expected a validation error, got {:?}", other),
    }
}

#[test]
fn validator_rejects_an_empty_subject_naming_subject() {
    let req = request("a@example.com", "", "hello", None);
    match req.validate() {
        Err(RelayError::Validation(m)) => {
            assert_eq!(m, "subject must have between 1 and 256 characters");
        }
        other => panic!("expected a validation error, got {:?}", other),
    }
}

#[test]
fn validator_rejects_an_oversized_subject() {
    let req = request("a@example.com", &"s".repeat(257), "hello", None);
    assert!(matches!(req.validate(), Err(RelayError::Validation(_))));
}

#[test]
fn validator_rejects_an_empty_body_naming_body() {
    let req = request("a@example.com", "Hi", "", None);
    match req.validate() {
        Err(RelayError::Validation(m)) => {
            assert_eq!(m, "body must have between 1 and 256000 characters");
        }
        other => panic!("expected a validation error, got {:?}", other),
    }
}

#[test]
fn validator_rejects_an_oversized_body() {
    let req = request("a@example.com", "Hi", &"b".repeat(256_001), None);
    assert!(matches!(req.validate(), Err(RelayError::Validation(_))));
}

#[test]
fn display_name_never_enters_the_verdict() {
    let without = request("a@example.com", "Hi", "hello", None);
    let with = request("a@example.com", "Hi", "hello", Some("Someone"));
    assert_eq!(without.validate().is_ok(), with.validate().is_ok());
    let invalid_without = request("a@example.com", "", "hello", None);
    let invalid_with = request("a@example.com", "", "hello", Some("Someone"));
    assert!(invalid_without.validate().is_err());
    assert!(invalid_with.validate().is_err());
}

#[test]
fn extract_bearer_takes_the_token_after_the_scheme() {
    assert_eq!(extract_bearer("Bearer abc"), Some("abc"));
    assert_eq!(extract_bearer("Bearer "), Some(""));
    assert_eq!(extract_bearer("Bearerabc"), None);
    assert_eq!(extract_bearer("Basic abc"), None);
    assert_eq!(extract_bearer("bearer abc"), None);
    assert_eq!(extract_bearer(""), None);
}

#[test]
fn auth_passes_the_matching_token() {
    assert!(auth(Some("Bearer SECRET-REDACTED"), "SECRET-REDACTED").is_ok());
}

#[test]
fn auth_rejects_everything_else() {
    assert!(matches!(
        auth(Some("Bearer wrong"), "right"),
        Err(RelayError::Unauthorized)
    ));
    assert!(matches!(auth(None, "right"), Err(RelayError::Unauthorized)));
    assert!(matches!(
        auth(Some("Basic right"), "right"),
        Err(RelayError::Unauthorized)
    ));
    assert!(matches!(
        auth(Some("right"), "right"),
        Err(RelayError::Unauthorized)
    ));
}

#[test]
fn dispatcher_keeps_the_sender_identity() {
    let s = service();
    assert_eq!(s.user, "sender@example.com");
    assert_eq!(s.name, "Relay");
}

#[test]
fn compose_builds_a_message_for_a_valid_request() {
    let s = service();
    let req = request("a@example.com", "Hi", "hello", Some("Someone"));
    assert!(s.compose(&req).is_ok());
}

#[test]
fn compose_plans_exactly_the_request_content() {
    let s = service();
    let req = request("a@example.com", "Hi", "hello", Some("Someone"));
    let composed = s.compose(&req).ok().unwrap();
    assert_eq!(composed.plan.from_name, "Relay");
    assert_eq!(composed.plan.from_address, "sender@example.com");
    assert_eq!(composed.plan.to_name.as_deref(), Some("Someone"));
    assert_eq!(composed.plan.to_address, "a@example.com");
    assert_eq!(composed.plan.subject, "Hi");
    assert_eq!(composed.plan.body, "hello");
    let without_name = request("a@example.com", "Hi", "hello", None);
    let composed = s.compose(&without_name).ok().unwrap();
    assert_eq!(composed.plan.to_name, None);
}

#[test]
fn rendered_message_carries_the_planned_content() {
    let s = service();
    let req = request("a@example.com", "Hi", "hello", Some("Someone"));
    let composed = s.compose(&req).ok().unwrap();
    let raw = String::from_utf8(composed.message.formatted()).unwrap();
    assert!(raw.contains("<sender@example.com>"));
    assert!(raw.contains("Relay"));
    assert!(raw.contains("<a@example.com>"));
    assert!(raw.contains("Someone"));
    assert!(raw.contains("Subject: Hi"));
    assert!(raw.contains("Content-Type: text/plain"));
    assert!(raw.contains("hello"));
}

#[test]
fn compose_rejects_a_bad_sender_address() {
    let s = RelayService::new(RelaySMTPConfig {
        host: "smtp.example.com".to_string(),
        user: "not an address".to_string(),
        pass: "SECRET-REDACTED".to_string(),
        name: "Relay".to_string(),
        port: 587,
    })
    .unwrap();
    let req = request("a@example.com", "Hi", "hello", None);
    assert!(matches!(s.compose(&req), Err(RelayError::InvalidEmail(_))));
}

#[test]
fn repeat_requests_are_dispatched_again() {
    // No deduplication: the same request composes a fresh message each time.
    let s = service();
    let req = request("a@example.com", "Hi", "hello", None);
    let first = s.compose(&req);
    let second = s.compose(&req);
    assert!(first.is_ok());
    assert!(second.is_ok());
}

#[test]
fn valid_request_with_valid_token_reaches_the_transport() {
    let s = service();
    let req = request("a@example.com", "Hi", "hello", None);
    let r = email_request(&s, "SECRET-REDACTED", Some("Bearer SECRET-REDACTED"), &req);
    assert!(r.is_ok());
    let (status, body) = email_response(&Ok(()));
    assert_eq!(status, 200);
    assert!(body.success);
    assert_eq!(body.message, "email sent successfully");
}

#[test]
fn wrong_token_is_rejected_with_401() {
    let s = service();
    let req = request("a@example.com", "Hi", "hello", None);
    let r = email_request(&s, "SECRET-REDACTED", Some("Bearer wrong"), &req);
    let e = r.err().unwrap();
    assert!(matches!(e, RelayError::Unauthorized));
    let (status, body) = email_response(&Err(e));
    assert_eq!(status, 401);
    assert!(!body.success);
    assert_eq!(body.message, "invalid api key");
}

#[test]
fn missing_token_is_rejected_with_401() {
    let s = service();
    let req = request("a@example.com", "Hi", "hello", None);
    let r = email_request(&s, "SECRET-REDACTED", None, &req);
    assert!(matches!(r, Err(RelayError::Unauthorized)));
}

#[test]
fn bad_address_is_rejected_with_400_naming_to() {
    let s = service();
    let req = request("not-an-address", "Hi", "hello", None);
    let r = email_request(&s, "k", Some("Bearer k"), &req);
    let e = r.err().unwrap();
    let (status, body) = email_response(&Err(e));
    assert_eq!(status, 400);
    assert!(!body.success);
    assert_eq!(body.message, "validation error: to must be a valid email address");
}

#[test]
fn empty_subject_is_rejected_with_400_naming_subject() {
    let s = service();
    let req = request("a@example.com", "", "hello", None);
    let r = email_request(&s, "k", Some("Bearer k"), &req);
    let e = r.err().unwrap();
    let (status, body) = email_response(&Err(e));
    assert_eq!(status, 400);
    assert!(!body.success);
    assert_eq!(
        body.message,
        "validation error: subject must have between 1 and 256 characters"
    );
}

#[test]
fn transport_rejection_surfaces_as_500() {
    let outcome = RelayService::send_outcome(Err("credentials rejected".to_string()));
    let e = outcome.err().unwrap();
    assert!(matches!(e, RelayError::EmailSend(_)));
    let (status, body) = email_response(&Err(e));
    assert_eq!(status, 500);
    assert!(!body.success);
    assert_eq!(body.message, "failed to send email: credentials rejected");
}

#[test]
fn transport_acceptance_passes_through() {
    assert!(RelayService::send_outcome(Ok(())).is_ok());
}
