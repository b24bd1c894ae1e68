use duck::slack::{SlackConfiguration, SlackCredentials, ValidationError};

fn config(id: &str, url: &str) -> SlackConfiguration {
    SlackConfiguration {
        id: id.to_owned(),
        credentials: SlackCredentials::Webhook {
            url: url.to_owned(),
        },
    }
}

#[test]
fn valid_configuration_passes() {
    assert_eq!(config("foo", "https://slack.com/MY-WEBHOOK-URL").validate(), Ok(()));
}

#[test]
fn empty_id_is_refused() {
    assert_eq!(
        config("", "https://slack.com/MY-WEBHOOK-URL").validate(),
        Err(ValidationError::MissingId)
    );
}

#[test]
fn empty_webhook_url_is_refused() {
    assert_eq!(
        config("foo", "").validate(),
        Err(ValidationError::InvalidWebhookUrl(
            url::ParseError::RelativeUrlWithoutBase
        ))
    );
}

#[test]
fn relative_webhook_url_is_refused() {
    assert_eq!(
        config("foo", "/hooks/abc").validate(),
        Err(ValidationError::InvalidWebhookUrl(
            url::ParseError::RelativeUrlWithoutBase
        ))
    );
}
