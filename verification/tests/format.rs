use indexmap::IndexMap;
use noti::config::CustomWebhookFormat;
use noti::config::Http;
use noti::config::HttpMethod;
use noti::config::StandardWebhookFormat;
use noti::config::WebhookFormat;

const MESSAGE: &str = "noti test execution.";

fn custom(headers: IndexMap<String, String>, template: &str, escape: bool) -> WebhookFormat {
    WebhookFormat::Custom(CustomWebhookFormat {
        http: Http {
            headers,
            method: HttpMethod::POST,
        },
        template: template.to_string(),
        escape,
    })
}

#[test]
fn plaintext_renders_message_verbatim() {
    let fmt = WebhookFormat::Standard(StandardWebhookFormat::PlainText);
    assert_eq!(fmt.format_message(MESSAGE), MESSAGE);
    assert_eq!(fmt.as_content_type(), "text/plain");
}

#[test]
fn discord_renders_json_object_with_content_key() {
    let fmt = WebhookFormat::Standard(StandardWebhookFormat::Discord);
    assert_eq!(
        fmt.format_message(MESSAGE),
        "{\"content\":\"noti test execution.\"}"
    );
    assert_eq!(fmt.as_content_type(), "application/json");
}

#[test]
fn google_chat_renders_json_object_with_text_key() {
    let fmt = WebhookFormat::Standard(StandardWebhookFormat::GoogleChat);
    assert_eq!(
        fmt.format_message(MESSAGE),
        "{\"text\":\"noti test execution.\"}"
    );
    assert_eq!(fmt.as_content_type(), "application/json");
}

#[test]
fn discord_body_parses_back_to_the_message() {
    let fmt = WebhookFormat::Standard(StandardWebhookFormat::Discord);
    let body = fmt.format_message("hello world");
    let value: serde_json::Value = serde_json::from_str(&body).unwrap();
    let object = value.as_object().unwrap();
    assert_eq!(object.len(), 1);
    assert_eq!(object.get("content").unwrap().as_str(), Some("hello world"));
}

#[test]
fn discord_escapes_quotes_newlines_and_controls() {
    let fmt = WebhookFormat::Standard(StandardWebhookFormat::Discord);
    let body = fmt.format_message("a\nb\"c\\d\u{1}");
    assert_eq!(body, "{\"content\":\"a\\nb\\\"c\\\\d\\u0001\"}");
    let value: serde_json::Value = serde_json::from_str(&body).unwrap();
    assert_eq!(
        value.as_object().unwrap().get("content").unwrap().as_str(),
        Some("a\nb\"c\\d\u{1}")
    );
}

#[test]
fn custom_substitutes_the_marker() {
    let fmt = custom(IndexMap::new(), "Alert: $(message)!", false);
    assert_eq!(fmt.format_message("db down"), "Alert: db down!");
}

#[test]
fn custom_substitutes_every_marker_occurrence() {
    let fmt = custom(IndexMap::new(), "$(message) and $(message)", false);
    assert_eq!(fmt.format_message("hi"), "hi and hi");
}

#[test]
fn custom_without_marker_keeps_template_unchanged() {
    let fmt = custom(IndexMap::new(), "static text, no placeholder", false);
    assert_eq!(fmt.format_message("ignored"), "static text, no placeholder");
}

#[test]
fn custom_escape_matches_rust_default_escapes() {
    for message in [
        "plain",
        "tab\there",
        "newline\nhere",
        "quote\"here",
        "single'here",
        "backslash\\here",
        "unicode \u{e9} \u{2603}",
        "control \u{0} \u{1f} \u{7f}",
        "",
    ] {
        let fmt = custom(IndexMap::new(), "$(message)", true);
        assert_eq!(
            fmt.format_message(message),
            message.escape_default().to_string()
        );
    }
}

#[test]
fn custom_escaped_body_has_no_raw_specials_outside_template() {
    let fmt = custom(IndexMap::new(), "{\"m\": \"$(message)\"}", true);
    let body = fmt.format_message("line\n\"quote\"");
    assert_eq!(body, "{\"m\": \"line\\n\\\"quote\\\"\"}");
    assert!(!body.contains('\n'));
}

#[test]
fn custom_without_escape_keeps_message_raw() {
    let fmt = custom(IndexMap::new(), "[$(message)]", false);
    assert_eq!(fmt.format_message("a\nb"), "[a\nb]");
}

#[test]
fn custom_content_type_comes_from_headers() {
    let headers = IndexMap::from([
        ("Content-Type".to_string(), "application/json".to_string()),
        ("X-Extra".to_string(), "1".to_string()),
    ]);
    let fmt = custom(headers, "$(message)", false);
    assert_eq!(fmt.as_content_type(), "application/json");
}

#[test]
fn custom_content_type_falls_back_to_plain_text() {
    let fmt = custom(IndexMap::new(), "$(message)", false);
    assert_eq!(fmt.as_content_type(), "text/plain");
}
