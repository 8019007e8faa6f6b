//! A small, verified email-delivery workflow.
//!
//! The crate validates candidate email addresses against a standard
//! email-format grammar, assembles a two-part (HTML + plain text) message
//! from a fixed, pre-validated sender to a single validated recipient,
//! submits it through a pluggable provider client, and interprets the
//! provider's response into a success or a descriptive failure.

pub mod domain;
pub mod ses_workflow;

pub use domain::SubscriberEmail;
pub use domain::ValidationError;
pub use ses_workflow::ConfigurationError;
pub use ses_workflow::EmailMessage;
pub use ses_workflow::EmailProvider;
pub use ses_workflow::ProviderError;
pub use ses_workflow::ProviderResponse;
pub use ses_workflow::SESWorkflow;
pub use ses_workflow::SendError;
pub use ses_workflow::interpret_response;
