use std::cell::Cell;
use std::rc::Rc;

use ses_workflow::interpret_response;
use ses_workflow::EmailMessage;
use ses_workflow::EmailProvider;
use ses_workflow::ProviderError;
use ses_workflow::ProviderResponse;
use ses_workflow::SESWorkflow;
use ses_workflow::SendError;
use ses_workflow::SubscriberEmail;

/// Returns an identifier for any request addressed to `expected_to`.
struct MatchingProvider {
    expected_to: &'static str,
    id: &'static str,
}

impl EmailProvider for MatchingProvider {
    fn send_message(&self, message: &EmailMessage) -> Result<ProviderResponse, ProviderError> {
        assert_eq!(message.to, self.expected_to);
        Ok(ProviderResponse { message_id: Some(self.id.to_string()) })
    }
}

/// Returns a specific error kind for any request addressed to `expected_to`.
struct FailingProvider {
    expected_to: &'static str,
    kind: &'static str,
    detail: &'static str,
}

impl EmailProvider for FailingProvider {
    fn send_message(&self, message: &EmailMessage) -> Result<ProviderResponse, ProviderError> {
        assert_eq!(message.to, self.expected_to);
        Err(ProviderError { kind: self.kind.to_string(), detail: self.detail.to_string() })
    }
}

/// Completes without error but returns the given (possibly absent or empty)
/// identifier.
struct VagueProvider {
    id: Option<&'static str>,
}

impl EmailProvider for VagueProvider {
    fn send_message(&self, _message: &EmailMessage) -> Result<ProviderResponse, ProviderError> {
        Ok(ProviderResponse { message_id: self.id.map(|s| s.to_string()) })
    }
}

/// Always succeeds and counts how many submissions it received.
struct CountingProvider {
    calls: Rc<Cell<u32>>,
}

impl EmailProvider for CountingProvider {
    fn send_message(&self, _message: &EmailMessage) -> Result<ProviderResponse, ProviderError> {
        self.calls.set(self.calls.get() + 1);
        Ok(ProviderResponse { message_id: Some("id-1".to_string()) })
    }
}

fn recipient() -> SubscriberEmail {
    SubscriberEmail::parse("recipient@example.com".to_string()).unwrap()
}

#[test]
fn send_email_successes() {
    let provider = MatchingProvider { expected_to: "recipient@example.com", id: "newsletter-email" };
    let ses_workflow = SESWorkflow::new(provider, "sender@example.com".to_string()).unwrap();

    let result = ses_workflow.send_email(
        recipient(),
        "Test Subject",
        "<p>Test HTML content</p>",
        "Test text content",
    );

    assert!(result.is_ok());
}

#[test]
fn test_send_email_fails() {
    let provider = FailingProvider {
        expected_to: "recipient@example.com",
        kind: "MailFromDomainNotVerifiedException",
        detail: "sender domain not verified",
    };
    let ses_workflow = SESWorkflow::new(provider, "sender@example.com".to_string()).unwrap();

    let result = ses_workflow.send_email(
        recipient(),
        "Test Subject",
        "<p>Test HTML content</p>",
        "Test text content",
    );

    // Check that the error is propagated
    assert!(result.is_err());
    let message = result.unwrap_err().message();
    assert!(message.contains("Error sending welcome email to recipient@example.com:"));
    assert_eq!(
        message,
        "Error sending welcome email to recipient@example.com: \
         MailFromDomainNotVerifiedException: sender domain not verified"
    );
}

#[test]
fn send_email_fails_without_message_id() {
    let provider = VagueProvider { id: None };
    let ses_workflow = SESWorkflow::new(provider, "sender@example.com".to_string()).unwrap();

    let result = ses_workflow.send_email(recipient(), "Subject", "<p>html</p>", "text");

    assert!(matches!(result, Err(SendError::AmbiguousSuccess { .. })));
    assert_eq!(
        result.unwrap_err().message(),
        "Message sent to recipient@example.com, but no message ID was returned"
    );
}

#[test]
fn send_email_fails_on_empty_message_id() {
    let provider = VagueProvider { id: Some("") };
    let ses_workflow = SESWorkflow::new(provider, "sender@example.com".to_string()).unwrap();

    let result = ses_workflow.send_email(recipient(), "Subject", "<p>html</p>", "text");

    assert!(matches!(result, Err(SendError::AmbiguousSuccess { .. })));
}

#[test]
fn send_email_twice_submits_twice() {
    let calls = Rc::new(Cell::new(0));
    let provider = CountingProvider { calls: Rc::clone(&calls) };
    let ses_workflow = SESWorkflow::new(provider, "sender@example.com".to_string()).unwrap();

    let first = ses_workflow.send_email(recipient(), "Subject", "<p>html</p>", "text");
    let second = ses_workflow.send_email(recipient(), "Subject", "<p>html</p>", "text");

    // No deduplication: identical arguments mean two independent submissions.
    assert!(first.is_ok());
    assert!(second.is_ok());
    assert_eq!(calls.get(), 2);
}

#[test]
fn workflow_rejects_invalid_sender() {
    let provider = VagueProvider { id: Some("id") };
    let result = SESWorkflow::new(provider, "not-an-email".to_string());

    let err = match result {
        Ok(_) => panic!("workflow accepted an invalid sender"),
        Err(e) => e,
    };
    assert_eq!(err.input, "not-an-email");
    assert_eq!(err.message(), "Invalid sender email: not-an-email");
}

#[test]
fn interpret_response_success_needs_nonempty_id() {
    let ok = interpret_response(
        "recipient@example.com".to_string(),
        Ok(ProviderResponse { message_id: Some("abc-123".to_string()) }),
    );
    assert!(ok.is_ok());

    let empty = interpret_response(
        "recipient@example.com".to_string(),
        Ok(ProviderResponse { message_id: Some(String::new()) }),
    );
    assert!(matches!(empty, Err(SendError::AmbiguousSuccess { .. })));

    let absent = interpret_response(
        "recipient@example.com".to_string(),
        Ok(ProviderResponse { message_id: None }),
    );
    assert!(matches!(absent, Err(SendError::AmbiguousSuccess { .. })));
}

#[test]
fn interpret_response_wraps_provider_error() {
    let result = interpret_response(
        "recipient@example.com".to_string(),
        Err(ProviderError { kind: "Throttling".to_string(), detail: "slow down".to_string() }),
    );
    match result {
        Err(SendError::ProviderFailure { recipient, error }) => {
            assert_eq!(recipient, "recipient@example.com");
            assert_eq!(error.kind, "Throttling");
            assert_eq!(error.detail, "slow down");
        }
        other => panic!("expected a provider failure, got {other:?}"),
    }
}

#[test]
fn build_message_passes_fields_through() {
    let provider = VagueProvider { id: Some("id") };
    let ses_workflow = SESWorkflow::new(provider, "sender@example.com".to_string()).unwrap();
    let to = recipient();

    let message = ses_workflow.build_message(&to, "Test Subject", "<p>Test HTML content</p>", "Test text content");

    assert_eq!(message.from, "sender@example.com");
    assert_eq!(message.to, "recipient@example.com");
    assert_eq!(message.subject, "Test Subject");
    assert_eq!(message.html, "<p>Test HTML content</p>");
    assert_eq!(message.text, "Test text content");
}
