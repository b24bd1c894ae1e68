//! Validation of a Slack notification channel's configuration.
use vstd::prelude::*;
use vstd::string::StrSliceExecFns;

verus! {

#[verifier::external_type_specification]
#[verifier::external_body]
pub struct ExParseError(url::ParseError);

/// Whether `url::Url::parse` reads the text as an absolute URL.
pub uninterp spec fn parses_as_absolute_url(s: Seq<char>) -> bool;

/// Relies on `url::Url::parse`: `Ok` exactly for the texts that it reads as an
/// absolute URL; an empty text has no scheme and fails with
/// `RelativeUrlWithoutBase`.
#[verifier::external_body]
fn parse_url(text: &str) -> (r: Result<(), url::ParseError>)
    ensures
        r is Ok == parses_as_absolute_url(text@),
        text@.len() == 0 ==> r is Err,
{
    match url::Url::parse(text) {
        Ok(_) => Ok(()),
        Err(e) => Err(e),
    }
}

/// How Slack is reached.
#[derive(Debug, Clone)]
pub enum SlackCredentials {
    Webhook { url: String },
}

/// A Slack notification channel.
#[derive(Debug, Clone)]
pub struct SlackConfiguration {
    pub id: String,
    pub credentials: SlackCredentials,
}

/// Why a configuration was refused.
#[derive(Debug, PartialEq)]
pub enum ValidationError {
    /// The identifier is empty.
    MissingId,
    /// The webhook URL is not an absolute URL.
    InvalidWebhookUrl(url::ParseError),
}

impl SlackConfiguration {
    /// Checks that the identifier is not empty, then that the webhook URL is an
    /// absolute URL.
    pub fn validate(&self) -> (r: Result<(), ValidationError>)
        ensures
            self.id@.len() == 0 ==> r matches Err(ValidationError::MissingId),
            self.id@.len() > 0 ==> match self.credentials {
                SlackCredentials::Webhook { url } => (r is Ok <==> parses_as_absolute_url(url@))
                    && (r is Err ==> r matches Err(ValidationError::InvalidWebhookUrl(_))),
            },
            match self.credentials {
                SlackCredentials::Webhook { url } => url@.len() == 0 ==> r is Err,
            },
    {
        if self.id.as_str().unicode_len() == 0 {
            return Err(ValidationError::MissingId);
        }
        match &self.credentials {
            SlackCredentials::Webhook { url } => match parse_url(url.as_str()) {
                Ok(()) => Ok(()),
                Err(e) => Err(ValidationError::InvalidWebhookUrl(e)),
            },
        }
    }
}

} // verus!
