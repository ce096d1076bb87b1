//! Configuration data model and the message rendering engine.
//!
//! A configuration holds an ordered sequence of destinations and the
//! streaming options. Rendering turns a message and a webhook format into
//! the exact body the destination expects.

use vstd::prelude::*;
use crate::cli::DestinationType;
use crate::headers::entries_lookup;
use crate::headers::header_entries;
use crate::headers::header_map_get;
use crate::headers::header_map_insert;
use crate::headers::header_map_new;
use crate::json::json_object_string;
use crate::json::json_object_with_string;
use crate::text::escape_default;
use crate::text::escape_default_seq;
use crate::text::marker;
use crate::text::replace_marker;
use crate::text::replace_seq;

verus! {

/// Where to write received stdin back to.
#[derive(Debug, Clone, Copy, PartialEq, Eq, Structural)]
pub enum Redirect {
    Stdout,
    Stderr,
}

/// Notification streaming configuration.
pub struct Stream {
    /// Whether to use streaming or not.
    pub enabled: bool,
    /// Optional regular expression to filter lines from stdin to send.
    pub matching: Option<String>,
    /// Where to write input received from stdin back out to.
    pub redirect: Option<Redirect>,
}

/// The default streaming configuration: disabled, no filter, echo to
/// standard output.
pub open spec fn stream_is_default(s: Stream) -> bool {
    &&& s.enabled == false
    &&& s.matching is None
    &&& s.redirect == Some(Redirect::Stdout)
}

impl Default for Stream {
    /// The streaming options used when the configuration document has none.
    fn default() -> (r: Self)
        ensures
            stream_is_default(r),
    {
        Self { enabled: false, matching: None, redirect: Some(Redirect::Stdout) }
    }
}

/// Builtin supported webhook formats for common webhook providers.
#[derive(Debug, Clone, Copy, PartialEq, Eq, Structural)]
pub enum StandardWebhookFormat {
    /// Send a webhook message to an endpoint that supports plain text requests.
    PlainText,
    /// Send a webhook message to a Discord channel.
    Discord,
    /// Send a webhook message to a Google Chat.
    GoogleChat,
}

/// Subset of HTTP methods useable with webhooks.
#[derive(Debug, Clone, Copy, PartialEq, Eq, Structural)]
pub enum HttpMethod {
    POST,
    PATCH,
    PUT,
}

/// The HTTP side of a custom webhook format: its headers and method.
pub struct Http {
    pub headers: indexmap::IndexMap<String, String>,
    pub method: HttpMethod,
}

/// Enables configuring sending notifications to other webhook providers.
pub struct CustomWebhookFormat {
    pub http: Http,
    pub template: String,
    pub escape: bool,
}

/// How a webhook body is rendered: a built-in provider format or a custom
/// template.
pub enum WebhookFormat {
    Standard(StandardWebhookFormat),
    Custom(CustomWebhookFormat),
}

/// The content type each format requires: fixed for the built-in formats;
/// for a custom format the `Content-Type` header if configured, else
/// `text/plain`.
pub open spec fn content_type_spec(f: WebhookFormat) -> Seq<char> {
    match f {
        WebhookFormat::Standard(StandardWebhookFormat::PlainText) => "text/plain"@,
        WebhookFormat::Standard(_) => "application/json"@,
        WebhookFormat::Custom(c) => match entries_lookup(
            header_entries(c.http.headers),
            "Content-Type"@,
        ) {
            Some(v) => v@,
            None => "text/plain"@,
        },
    }
}

/// The rendered body for each format: the message itself for plain text,
/// a one-member JSON object for the chat providers, and the template with
/// every `$(message)` replaced (after optional escaping) for a custom
/// format.
pub open spec fn format_message_spec(f: WebhookFormat, msg: Seq<char>) -> Seq<char> {
    match f {
        WebhookFormat::Standard(StandardWebhookFormat::PlainText) => msg,
        WebhookFormat::Standard(StandardWebhookFormat::Discord) => json_object_with_string(
            "content"@,
            msg,
        ),
        WebhookFormat::Standard(StandardWebhookFormat::GoogleChat) => json_object_with_string(
            "text"@,
            msg,
        ),
        WebhookFormat::Custom(c) => replace_seq(
            c.template@,
            marker(),
            if c.escape {
                escape_default_seq(msg)
            } else {
                msg
            },
        ),
    }
}

/// The built-in formats render exactly as documented: plain text is the
/// message itself, unchanged; Discord and Google Chat are the compact JSON
/// object with the single documented key and the message as its string
/// value.
pub proof fn lemma_standard_render(msg: Seq<char>)
    ensures
        format_message_spec(WebhookFormat::Standard(StandardWebhookFormat::PlainText), msg) == msg,
        format_message_spec(WebhookFormat::Standard(StandardWebhookFormat::Discord), msg)
            == json_object_with_string("content"@, msg),
        format_message_spec(WebhookFormat::Standard(StandardWebhookFormat::GoogleChat), msg)
            == json_object_with_string("text"@, msg),
{
}

impl WebhookFormat {
    /// Return the required content type for the platform.
    pub fn as_content_type(&self) -> (r: String)
        ensures
            r@ == content_type_spec(*self),
    {
        match self {
            WebhookFormat::Standard(format) => match format {
                StandardWebhookFormat::PlainText => "text/plain".to_owned(),
                StandardWebhookFormat::Discord => "application/json".to_owned(),
                StandardWebhookFormat::GoogleChat => "application/json".to_owned(),
            },
            WebhookFormat::Custom(format) => match header_map_get(
                &format.http.headers,
                "Content-Type",
            ) {
                Some(v) => v.clone(),
                None => "text/plain".to_owned(),
            },
        }
    }

    /// Format a message as needed by the respective platform.
    pub fn format_message(&self, message: &str) -> (r: String)
        ensures
            r@ == format_message_spec(*self, message@),
    {
        match self {
            WebhookFormat::Standard(format) => match format {
                StandardWebhookFormat::PlainText => message.to_owned(),
                StandardWebhookFormat::Discord => json_object_string("content", message),
                StandardWebhookFormat::GoogleChat => json_object_string("text", message),
            },
            WebhookFormat::Custom(format) => {
                if format.escape {
                    let escaped = escape_default(message);
                    replace_marker(format.template.as_str(), escaped.as_str())
                } else {
                    replace_marker(format.template.as_str(), message)
                }
            },
        }
    }
}

/// Where to send notifications to.
pub enum Destination {
    Webhook { url: String, format: WebhookFormat },
    Desktop { summary: String, persistent: bool },
}

/// The example webhook destination: a Discord webhook with a placeholder
/// URL.
pub open spec fn is_default_webhook(d: Destination) -> bool {
    &&& d matches Destination::Webhook { url, format }
        && url@ == "https://discord.com/api/webhooks/<CHANNEL_ID>/<WEBHOOK_ID>"@ && format
        == WebhookFormat::Standard(StandardWebhookFormat::Discord)
}

/// The example custom webhook destination: a JSON template posted with an
/// explicit content type.
pub open spec fn is_default_custom_webhook(d: Destination) -> bool {
    d matches Destination::Webhook { url, format } && url@
        == "https://discord.com/api/webhooks/<CHANNEL_ID>/<WEBHOOK_ID>"@ && (format matches
    WebhookFormat::Custom(c) && {
        &&& header_entries(c.http.headers).len() == 1
        &&& header_entries(c.http.headers)[0].0@ == "Content-Type"@
        &&& header_entries(c.http.headers)[0].1@ == "application/json"@
        &&& c.http.method == HttpMethod::POST
        &&& c.escape == true
        &&& c.template@ == "{\"content\": \"$(message)\"}"@
    })
}

/// The example desktop destination.
pub open spec fn is_default_desktop(d: Destination) -> bool {
    d matches Destination::Desktop { summary, persistent } && summary@ == "Noti"@ && persistent
        == false
}

/// The example destination of each kind, as the add-destination operation
/// chooses it.
pub open spec fn destination_is_default_for(d: Destination, t: DestinationType, custom: bool) -> bool {
    match t {
        DestinationType::Desktop => is_default_desktop(d),
        DestinationType::Webhook => if custom {
            is_default_custom_webhook(d)
        } else {
            is_default_webhook(d)
        },
    }
}

impl Destination {
    /// The example webhook destination.
    pub fn default_webhook() -> (r: Self)
        ensures
            is_default_webhook(r),
    {
        Destination::Webhook {
            url: "https://discord.com/api/webhooks/<CHANNEL_ID>/<WEBHOOK_ID>".to_owned(),
            format: WebhookFormat::Standard(StandardWebhookFormat::Discord),
        }
    }

    /// The example custom webhook destination.
    pub fn default_custom_webhook() -> (r: Self)
        ensures
            is_default_custom_webhook(r),
    {
        let mut headers = header_map_new();
        header_map_insert(&mut headers, "Content-Type".to_owned(), "application/json".to_owned());
        Destination::Webhook {
            url: "https://discord.com/api/webhooks/<CHANNEL_ID>/<WEBHOOK_ID>".to_owned(),
            format: WebhookFormat::Custom(
                CustomWebhookFormat {
                    http: Http { headers, method: HttpMethod::POST },
                    escape: true,
                    template: "{\"content\": \"$(message)\"}".to_owned(),
                },
            ),
        }
    }

    /// The example desktop destination.
    pub fn default_desktop() -> (r: Self)
        ensures
            is_default_desktop(r),
    {
        Destination::Desktop { summary: "Noti".to_owned(), persistent: false }
    }

    /// The example destination for the given destination type.
    pub fn default_for(destination: &DestinationType, custom: bool) -> (r: Self)
        ensures
            destination_is_default_for(r, *destination, custom),
    {
        match destination {
            DestinationType::Desktop => Destination::default_desktop(),
            DestinationType::Webhook => if custom {
                Destination::default_custom_webhook()
            } else {
                Destination::default_webhook()
            },
        }
    }
}

/// A noti configuration file.
pub struct Config {
    pub destination: Vec<Destination>,
    pub stream: Stream,
}

/// An example configuration: exactly one destination of the requested
/// shape, with the default streaming options.
pub open spec fn config_is_default_for(c: Config, t: DestinationType, custom: bool) -> bool {
    &&& stream_is_default(c.stream)
    &&& c.destination@.len() == 1
    &&& destination_is_default_for(c.destination@[0], t, custom)
}

impl Config {
    /// Generate an example webhook configuration for noti.
    pub fn default_webhook() -> (r: Self)
        ensures
            stream_is_default(r.stream),
            r.destination@.len() == 1,
            is_default_webhook(r.destination@[0]),
    {
        Self { destination: vec![Destination::default_webhook()], stream: Stream::default() }
    }

    /// Generate an example custom webhook configuration for noti.
    pub fn default_custom_webhook() -> (r: Self)
        ensures
            stream_is_default(r.stream),
            r.destination@.len() == 1,
            is_default_custom_webhook(r.destination@[0]),
    {
        Self {
            destination: vec![Destination::default_custom_webhook()],
            stream: Stream::default(),
        }
    }

    /// Generate an example desktop configuration for noti.
    pub fn default_desktop() -> (r: Self)
        ensures
            stream_is_default(r.stream),
            r.destination@.len() == 1,
            is_default_desktop(r.destination@[0]),
    {
        Self { destination: vec![Destination::default_desktop()], stream: Stream::default() }
    }

    /// The example configuration for the given destination type, as the
    /// initialize operation writes it.
    pub fn default_for(destination: &DestinationType, custom: bool) -> (r: Self)
        ensures
            config_is_default_for(r, *destination, custom),
    {
        match destination {
            DestinationType::Desktop => Config::default_desktop(),
            DestinationType::Webhook => if custom {
                Config::default_custom_webhook()
            } else {
                Config::default_webhook()
            },
        }
    }

    /// The same configuration with the example destination for the given
    /// type put in front, as the add-destination operation writes it back.
    pub fn with_default_destination(self, destination: &DestinationType, custom: bool) -> (r: Self)
        ensures
            r.destination@.len() == self.destination@.len() + 1,
            destination_is_default_for(r.destination@[0], *destination, custom),
            r.destination@.skip(1) == self.destination@,
            r.stream == self.stream,
    {
        let ghost orig = self.destination@;
        let dest = Destination::default_for(destination, custom);
        let mut combined = Vec::new();
        combined.push(dest);
        let mut rest = self.destination;
        combined.append(&mut rest);
        proof {
            assert(combined@.skip(1) =~= orig);
        }
        Config { destination: combined, stream: self.stream }
    }
}

} // verus!
