//! The email-delivery workflow: message assembly, submission through a
//! provider client, and interpretation of the provider's response.
//!
//! The workflow holds one pre-validated sender address and a provider
//! client. Its one operation builds a two-part message to a single
//! validated recipient, submits it exactly once, and reports success only
//! when the provider both completed without error and returned a non-empty
//! message identifier.

use vstd::prelude::*;

use crate::domain::SubscriberEmail;
use crate::domain::valid_email;

verus! {

/// The message envelope handed to the provider: one sender, one recipient,
/// and both an HTML and a plain-text representation of the body.
#[derive(Debug)]
pub struct EmailMessage {
    pub from: String,
    pub to: String,
    pub subject: String,
    pub html: String,
    pub text: String,
}

/// What the provider reports on a call that completed without error:
/// the message identifier, if it returned one.
#[derive(Debug)]
pub struct ProviderResponse {
    pub message_id: Option<String>,
}

/// An error reported by the provider: a machine-distinguishable kind and a
/// human-readable detail.
#[derive(Debug)]
pub struct ProviderError {
    pub kind: String,
    pub detail: String,
}

/// The capability the workflow needs of a provider client: submit one
/// message and report an identifier or an error. Implementations live
/// outside the library (an adapter over a real client, or a deterministic
/// stand-in); the workflow assumes nothing about which outcome comes back.
pub trait EmailProvider {
    fn send_message(&self, message: &EmailMessage) -> Result<ProviderResponse, ProviderError>;
}

/// A failed send, carrying the recipient so that a single log line
/// identifies which send attempt failed.
#[derive(Debug)]
pub enum SendError {
    /// The provider call itself returned an error.
    ProviderFailure { recipient: String, error: ProviderError },
    /// The provider call completed without error but returned no message
    /// identifier: delivery tracking is impossible and the outcome is
    /// ambiguous, so this is failure, not success.
    AmbiguousSuccess { recipient: String },
}

impl SendError {
    /// The recipient of the failed send attempt.
    pub open spec fn recipient_view(&self) -> Seq<char> {
        match self {
            SendError::ProviderFailure { recipient, .. } => recipient@,
            SendError::AmbiguousSuccess { recipient } => recipient@,
        }
    }

    /// A diagnostic line naming the recipient and, for a provider failure,
    /// the underlying error kind and detail.
    pub fn message(&self) -> (r: String)
        ensures
            match self {
                SendError::ProviderFailure { recipient, error } => r@
                    == "Error sending welcome email to "@ + recipient@ + ": "@ + error.kind@
                    + ": "@ + error.detail@,
                SendError::AmbiguousSuccess { recipient } => r@ == "Message sent to "@
                    + recipient@ + ", but no message ID was returned"@,
            },
    {
        match self {
            SendError::ProviderFailure { recipient, error } => {
                let mut m = String::from_str("Error sending welcome email to ");
                m.append(recipient.as_str());
                m.append(": ");
                m.append(error.kind.as_str());
                m.append(": ");
                m.append(error.detail.as_str());
                m
            },
            SendError::AmbiguousSuccess { recipient } => {
                let mut m = String::from_str("Message sent to ");
                m.append(recipient.as_str());
                m.append(", but no message ID was returned");
                m
            },
        }
    }
}

/// The fatal error reported when the workflow's own sender address fails
/// validation at construction time: a deployment defect, meant to abort
/// startup, not to be caught and retried.
#[derive(Debug)]
pub struct ConfigurationError {
    pub input: String,
}

impl ConfigurationError {
    /// A diagnostic line naming the rejected sender string.
    pub fn message(&self) -> (r: String)
        ensures
            r@ == "Invalid sender email: "@ + self.input@,
    {
        let mut m = String::from_str("Invalid sender email: ");
        m.append(self.input.as_str());
        m
    }
}

/// How a provider response for `recipient` must be read into a send
/// result: success exactly when the provider completed without error and
/// returned a non-empty identifier; a clean response without one is an
/// ambiguous outcome and fails; a provider error is wrapped with the
/// recipient and kept whole.
pub open spec fn outcome_of(
    recipient: Seq<char>,
    response: Result<ProviderResponse, ProviderError>,
    r: Result<(), SendError>,
) -> bool {
    match response {
        Ok(p) => match p.message_id {
            Some(id) => if id@.len() > 0 {
                r is Ok
            } else {
                r matches Err(SendError::AmbiguousSuccess { recipient: rec }) && rec@
                    == recipient
            },
            None => r matches Err(SendError::AmbiguousSuccess { recipient: rec }) && rec@
                == recipient,
        },
        Err(e) => r matches Err(SendError::ProviderFailure { recipient: rec, error }) && rec@
            == recipient && error == e,
    }
}

/// Reads what the provider reported into the workflow's outcome. Success
/// requires both a clean call and a non-empty message identifier: a call
/// that succeeded at the transport level but returned no identifier is
/// explicitly not success.
pub fn interpret_response(
    recipient: String,
    response: Result<ProviderResponse, ProviderError>,
) -> (r: Result<(), SendError>)
    ensures
        outcome_of(recipient@, response, r),
        r is Ok <==> (response matches Ok(p) && p.message_id matches Some(id) && id@.len() > 0),
{
    match response {
        Ok(p) => match p.message_id {
            Some(id) => if !id.as_str().is_empty() {
                Ok(())
            } else {
                Err(SendError::AmbiguousSuccess { recipient })
            },
            None => Err(SendError::AmbiguousSuccess { recipient }),
        },
        Err(e) => Err(SendError::ProviderFailure { recipient, error: e }),
    }
}

/// The email-delivery workflow: one fixed, pre-validated sender identity
/// and a provider client. Holds no mutable state; each send is an
/// independent, single-shot call.
pub struct SESWorkflow<P> {
    client: P,
    verified_email: SubscriberEmail,
}

impl<P: EmailProvider> SESWorkflow<P> {
    /// The sender address the workflow was configured with.
    pub closed spec fn sender(&self) -> Seq<char> {
        self.verified_email@
    }

    /// Configures a workflow. The sender string must itself pass address
    /// validation: no workflow instance with an invalid sender can exist,
    /// and the caller is expected to abort startup on the error.
    pub fn new(client: P, verified_email: String) -> (r: Result<Self, ConfigurationError>)
        ensures
            match r {
                Ok(w) => valid_email(verified_email@) && w.sender() == verified_email@,
                Err(e) => !valid_email(verified_email@) && e.input@ == verified_email@,
            },
    {
        match SubscriberEmail::parse(verified_email) {
            Ok(sender) => Ok(SESWorkflow { client, verified_email: sender }),
            Err(e) => Err(ConfigurationError { input: e.input }),
        }
    }

    /// Assembles the envelope for one send: from the fixed sender, to the
    /// one recipient, with the subject and both body representations
    /// passed through exactly as given; both addresses are valid.
    pub fn build_message(
        &self,
        recipient: &SubscriberEmail,
        subject: &str,
        html_content: &str,
        text_content: &str,
    ) -> (m: EmailMessage)
        ensures
            m.from@ == self.sender(),
            m.to@ == recipient@,
            m.subject@ == subject@,
            m.html@ == html_content@,
            m.text@ == text_content@,
            valid_email(m.from@),
            valid_email(m.to@),
    {
        EmailMessage {
            from: String::from_str(self.verified_email.as_ref()),
            to: String::from_str(recipient.as_ref()),
            subject: String::from_str(subject),
            html: String::from_str(html_content),
            text: String::from_str(text_content),
        }
    }

    /// Builds a message from the fixed sender to `recipient`, submits it
    /// exactly once through the provider client, and interprets the
    /// response. The result is the faithful reading of some provider
    /// response, and every failure names the recipient.
    pub fn send_email(
        &self,
        recipient: SubscriberEmail,
        subject: &str,
        html_content: &str,
        text_content: &str,
    ) -> (r: Result<(), SendError>)
        ensures
            exists|response: Result<ProviderResponse, ProviderError>|
                #[trigger] outcome_of(recipient@, response, r),
            r matches Err(e) ==> e.recipient_view() == recipient@,
    {
        let message = self.build_message(&recipient, subject, html_content, text_content);
        let response = self.client.send_message(&message);
        let ghost gresp = response;
        let to = String::from_str(recipient.as_ref());
        let r = interpret_response(to, response);
        proof {
            assert(outcome_of(recipient@, gresp, r));
        }
        r
    }
}

} // verus!
