use noti::cli::Cli;
use noti::cli::Command;
use noti::cli::DestinationCommand;
use noti::cli::DestinationType;
use noti::config::Config;
use noti::config::Destination;
use noti::config::HttpMethod;
use noti::config::Redirect;
use noti::config::StandardWebhookFormat;
use noti::config::Stream;
use noti::config::WebhookFormat;
use noti::error::Error;

const PLACEHOLDER_URL: &str = "https://discord.com/api/webhooks/<CHANNEL_ID>/<WEBHOOK_ID>";

#[test]
fn stream_defaults_to_disabled_with_stdout_echo() {
    let stream = Stream::default();
    assert!(!stream.enabled);
    assert!(stream.matching.is_none());
    assert_eq!(stream.redirect, Some(Redirect::Stdout));
}

#[test]
fn default_webhook_config_targets_discord() {
    let config = Config::default_webhook();
    assert_eq!(config.destination.len(), 1);
    match &config.destination[0] {
        Destination::Webhook { url, format } => {
            assert_eq!(url, PLACEHOLDER_URL);
            assert!(matches!(
                format,
                WebhookFormat::Standard(StandardWebhookFormat::Discord)
            ));
        }
        Destination::Desktop { .. } => panic!("expected a webhook destination"),
    }
}

#[test]
fn default_custom_webhook_config_posts_json_template() {
    let config = Config::default_custom_webhook();
    assert_eq!(config.destination.len(), 1);
    match &config.destination[0] {
        Destination::Webhook { url, format } => {
            assert_eq!(url, PLACEHOLDER_URL);
            match format {
                WebhookFormat::Custom(custom) => {
                    assert_eq!(
                        custom.http.headers.get("Content-Type"),
                        Some(&"application/json".to_string())
                    );
                    assert_eq!(custom.http.headers.len(), 1);
                    assert_eq!(custom.http.method, HttpMethod::POST);
                    assert!(custom.escape);
                    assert_eq!(custom.template, "{\"content\": \"$(message)\"}");
                }
                WebhookFormat::Standard(_) => panic!("expected a custom format"),
            }
        }
        Destination::Desktop { .. } => panic!("expected a webhook destination"),
    }
}

#[test]
fn default_desktop_config_uses_noti_summary() {
    let config = Config::default_desktop();
    assert_eq!(config.destination.len(), 1);
    match &config.destination[0] {
        Destination::Desktop {
            summary,
            persistent,
        } => {
            assert_eq!(summary, "Noti");
            assert!(!persistent);
        }
        Destination::Webhook { .. } => panic!("expected a desktop destination"),
    }
}

#[test]
fn default_for_picks_the_requested_shape() {
    let desktop = Config::default_for(&DestinationType::Desktop, false);
    assert!(matches!(
        desktop.destination[0],
        Destination::Desktop { .. }
    ));
    let webhook = Config::default_for(&DestinationType::Webhook, false);
    match &webhook.destination[0] {
        Destination::Webhook { format, .. } => {
            assert!(matches!(format, WebhookFormat::Standard(_)))
        }
        Destination::Desktop { .. } => panic!("expected a webhook destination"),
    }
    let custom = Config::default_for(&DestinationType::Webhook, true);
    match &custom.destination[0] {
        Destination::Webhook { format, .. } => {
            assert!(matches!(format, WebhookFormat::Custom(_)))
        }
        Destination::Desktop { .. } => panic!("expected a webhook destination"),
    }
}

#[test]
fn adding_a_destination_prepends_it() {
    let config = Config::default_desktop();
    let grown = config.with_default_destination(&DestinationType::Webhook, false);
    assert_eq!(grown.destination.len(), 2);
    assert!(matches!(grown.destination[0], Destination::Webhook { .. }));
    assert!(matches!(grown.destination[1], Destination::Desktop { .. }));
    assert!(!grown.stream.enabled);
}

#[test]
fn cli_values_carry_the_parsed_invocation() {
    let cli = Cli {
        message: None,
        config: "noti.yaml".to_string(),
        command: Some(Command::Destination {
            command: DestinationCommand::Add {
                destination: DestinationType::Webhook,
                custom: true,
            },
        }),
    };
    assert!(cli.message.is_none());
    assert_eq!(cli.config, "noti.yaml");
    match cli.command {
        Some(Command::Destination {
            command:
                DestinationCommand::Add {
                    destination,
                    custom,
                },
        }) => {
            assert_eq!(destination, DestinationType::Webhook);
            assert!(custom);
        }
        _ => panic!("expected the add-destination command"),
    }
}

#[test]
fn error_messages_match_the_reported_causes() {
    assert_eq!(
        Error::NoConfig.message(),
        "No config file found, please create one or provide the path with --config"
    );
    assert_eq!(
        Error::NoMessage.message(),
        "A message must be provided when not streaming notifications"
    );
    assert_eq!(
        Error::StreamAndMessage.message(),
        "A message cannot be provided when using streaming"
    );
    assert_eq!(Error::Io("lost".to_string()).message(), "IO: lost");
    assert_eq!(
        Error::ConfigConflict {
            path: "noti.yaml".to_string()
        }
        .message(),
        "Config file `noti.yaml` already exists"
    );
    assert_eq!(
        Error::InvalidConfig("bad".to_string()).message(),
        "Invalid config file: bad"
    );
    assert_eq!(
        Error::Http("status 500".to_string()).message(),
        "An error occurred when sending a request: status 500"
    );
    assert_eq!(
        Error::UnknownHttpHeader("Bad Name".to_string()).message(),
        "Invalid HTTP header name: Bad Name"
    );
    assert_eq!(
        Error::InvalidHttpHeader("bad\nvalue".to_string()).message(),
        "Invalid HTTP header value: bad\nvalue"
    );
    assert_eq!(
        Error::Regex("syntax".to_string()).message(),
        "Failed to parse regex: syntax"
    );
    assert_eq!(
        Error::NotifyRust("no bus".to_string()).message(),
        "Failed to send desktop notification: no bus"
    );
}
