use indexmap::IndexMap;
use noti::config::Config;
use noti::config::CustomWebhookFormat;
use noti::config::Destination;
use noti::config::Http;
use noti::config::HttpMethod;
use noti::config::StandardWebhookFormat;
use noti::config::Stream;
use noti::config::WebhookFormat;
use noti::dispatch::combine_outcomes;
use noti::dispatch::decide_mode;
use noti::dispatch::plan_all;
use noti::dispatch::plan_dispatch;
use noti::dispatch::DispatchAction;
use noti::dispatch::Mode;
use noti::error::Error;

const URL: &str = "https://example.test/hook";

fn custom_destination(headers: IndexMap<String, String>, method: HttpMethod) -> Destination {
    Destination::Webhook {
        url: URL.to_string(),
        format: WebhookFormat::Custom(CustomWebhookFormat {
            http: Http { headers, method },
            template: "{\"message\":\"$(message)\"}".to_string(),
            escape: true,
        }),
    }
}

fn config_of(destinations: Vec<Destination>) -> Config {
    Config {
        destination: destinations,
        stream: Stream::default(),
    }
}

#[test]
fn desktop_dispatch_plans_a_notification() {
    let dest = Destination::Desktop {
        summary: "Noti".to_string(),
        persistent: true,
    };
    match plan_dispatch("msg", &dest).unwrap() {
        DispatchAction::Notify {
            summary,
            body,
            persistent,
        } => {
            assert_eq!(summary, "Noti");
            assert_eq!(body, "msg");
            assert!(persistent);
        }
        DispatchAction::Request(_) => panic!("expected a notification"),
    }
}

#[test]
fn standard_webhook_plans_a_post_with_content_type() {
    let dest = Destination::Webhook {
        url: URL.to_string(),
        format: WebhookFormat::Standard(StandardWebhookFormat::Discord),
    };
    match plan_dispatch("hello", &dest).unwrap() {
        DispatchAction::Request(req) => {
            assert_eq!(req.method, HttpMethod::POST);
            assert_eq!(req.url, URL);
            assert_eq!(
                req.headers,
                vec![("Content-Type".to_string(), "application/json".to_string())]
            );
            assert_eq!(req.body, "{\"content\":\"hello\"}");
        }
        DispatchAction::Notify { .. } => panic!("expected a request"),
    }
}

#[test]
fn custom_webhook_plans_with_configured_method_and_headers() {
    let headers = IndexMap::from([
        ("Content-Type".to_string(), "application/json".to_string()),
        ("X-Extra".to_string(), "v".to_string()),
    ]);
    let dest = custom_destination(headers, HttpMethod::PUT);
    match plan_dispatch("hi", &dest).unwrap() {
        DispatchAction::Request(req) => {
            assert_eq!(req.method, HttpMethod::PUT);
            assert_eq!(req.url, URL);
            assert_eq!(
                req.headers,
                vec![
                    ("Content-Type".to_string(), "application/json".to_string()),
                    ("X-Extra".to_string(), "v".to_string()),
                ]
            );
            assert_eq!(req.body, "{\"message\":\"hi\"}");
        }
        DispatchAction::Notify { .. } => panic!("expected a request"),
    }
}

#[test]
fn invalid_header_name_is_a_configuration_error() {
    let headers = IndexMap::from([("Bad Name".to_string(), "v".to_string())]);
    let dest = custom_destination(headers, HttpMethod::POST);
    assert_eq!(
        plan_dispatch("m", &dest),
        Err(Error::UnknownHttpHeader("Bad Name".to_string()))
    );
}

#[test]
fn invalid_header_value_is_a_configuration_error() {
    let headers = IndexMap::from([("X-Ok".to_string(), "bad\nvalue".to_string())]);
    let dest = custom_destination(headers, HttpMethod::POST);
    assert_eq!(
        plan_dispatch("m", &dest),
        Err(Error::InvalidHttpHeader("bad\nvalue".to_string()))
    );
}

#[test]
fn plan_all_with_zero_destinations_succeeds() {
    let config = config_of(vec![]);
    let actions = plan_all("m", &config).unwrap();
    assert!(actions.is_empty());
}

#[test]
fn plan_all_reports_the_first_failing_destination() {
    let good = Destination::Desktop {
        summary: "s".to_string(),
        persistent: false,
    };
    let bad_name =
        custom_destination(IndexMap::from([("no good".to_string(), "v".to_string())]), HttpMethod::POST);
    let bad_value =
        custom_destination(IndexMap::from([("X".to_string(), "\u{7f}".to_string())]), HttpMethod::POST);
    let config = config_of(vec![good, bad_name, bad_value]);
    assert_eq!(
        plan_all("m", &config),
        Err(Error::UnknownHttpHeader("no good".to_string()))
    );
}

#[test]
fn fanout_to_zero_destinations_succeeds() {
    assert_eq!(combine_outcomes(vec![]), Ok(()));
}

#[test]
fn fanout_reports_failure_and_later_fanout_still_succeeds() {
    let outcomes = vec![Ok(()), Err(Error::Http("boom".to_string()))];
    assert_eq!(combine_outcomes(outcomes), Err(Error::Http("boom".to_string())));
    assert_eq!(combine_outcomes(vec![Ok(())]), Ok(()));
}

#[test]
fn fanout_reports_the_lowest_indexed_failure() {
    let outcomes = vec![
        Ok(()),
        Err(Error::Http("first".to_string())),
        Err(Error::NotifyRust("second".to_string())),
    ];
    assert_eq!(combine_outcomes(outcomes), Err(Error::Http("first".to_string())));
}

#[test]
fn streaming_without_message_enters_streaming_mode() {
    match decide_mode(true, None) {
        Ok(Mode::Stream) => {}
        _ => panic!("expected streaming mode"),
    }
}

#[test]
fn message_while_streaming_is_a_usage_error() {
    match decide_mode(true, Some("msg".to_string())) {
        Err(Error::StreamAndMessage) => {}
        _ => panic!("expected the stream-and-message usage error"),
    }
}

#[test]
fn no_message_outside_streaming_is_a_usage_error() {
    match decide_mode(false, None) {
        Err(Error::NoMessage) => {}
        _ => panic!("expected the no-message usage error"),
    }
}

#[test]
fn message_outside_streaming_is_a_single_dispatch() {
    match decide_mode(false, Some("msg".to_string())) {
        Ok(Mode::Single(m)) => assert_eq!(m, "msg"),
        _ => panic!("expected a single dispatch"),
    }
}
