//! Planning and combining deliveries.
//!
//! Delivering a message is planned here as a value: a desktop notification
//! to show, or an HTTP request to send. The surrounding binary carries the
//! plans out concurrently, one per destination, and hands the outcomes back
//! to be combined into the overall fan-out result.

use vstd::prelude::*;
use vstd::pervasive::arbitrary;
use crate::config::Config;
use crate::config::Destination;
use crate::config::HttpMethod;
use crate::config::WebhookFormat;
use crate::config::content_type_spec;
use crate::config::format_message_spec;
use crate::error::Error;
use crate::headers::check_headers;
use crate::headers::header_entries;
use crate::headers::header_error;
use crate::headers::header_map_pairs;

verus! {

/// One HTTP request to perform: method, URL, headers in order, and body.
#[derive(Debug, PartialEq, Eq)]
pub struct HttpRequest {
    pub method: HttpMethod,
    pub url: String,
    pub headers: Vec<(String, String)>,
    pub body: String,
}

/// What a single delivery amounts to, once planned.
#[derive(Debug, PartialEq, Eq)]
pub enum DispatchAction {
    /// Show a desktop notification.
    Notify { summary: String, body: String, persistent: bool },
    /// Send an HTTP request.
    Request(HttpRequest),
}

/// Whether planning a delivery with this format succeeds: always, except
/// for a custom format with an invalid header name or value.
pub open spec fn format_plan_ok(f: WebhookFormat) -> bool {
    match f {
        WebhookFormat::Standard(_) => true,
        WebhookFormat::Custom(c) => header_error(header_entries(c.http.headers)) is None,
    }
}

/// The configuration error reported when planning with this format fails.
pub open spec fn format_plan_err(f: WebhookFormat) -> Error {
    match f {
        WebhookFormat::Standard(_) => arbitrary(),
        WebhookFormat::Custom(c) => header_error(header_entries(c.http.headers)).unwrap(),
    }
}

/// Whether planning a delivery to this destination succeeds.
pub open spec fn plan_ok(d: Destination) -> bool {
    match d {
        Destination::Desktop { .. } => true,
        Destination::Webhook { url, format } => format_plan_ok(format),
    }
}

/// The configuration error reported when planning to this destination
/// fails.
pub open spec fn plan_err(d: Destination) -> Error {
    match d {
        Destination::Desktop { .. } => arbitrary(),
        Destination::Webhook { url, format } => format_plan_err(format),
    }
}

/// The HTTP method a webhook plan uses: POST for the built-in formats, the
/// configured method for a custom format.
pub open spec fn plan_method(f: WebhookFormat) -> HttpMethod {
    match f {
        WebhookFormat::Standard(_) => HttpMethod::POST,
        WebhookFormat::Custom(c) => c.http.method,
    }
}

/// The relation between a planned request, the destination URL, the
/// webhook format, and the message: the request carries the rendered body,
/// the format's method, and either the single Content-Type header of a
/// built-in format or the configured headers of a custom one.
pub open spec fn request_matches(req: HttpRequest, url: Seq<char>, f: WebhookFormat, msg: Seq<char>) -> bool {
    &&& req.method == plan_method(f)
    &&& req.url@ == url
    &&& req.body@ == format_message_spec(f, msg)
    &&& match f {
        WebhookFormat::Standard(_) => {
            &&& req.headers@.len() == 1
            &&& req.headers@[0].0@ == "Content-Type"@
            &&& req.headers@[0].1@ == content_type_spec(f)
        },
        WebhookFormat::Custom(c) => req.headers@ == header_entries(c.http.headers),
    }
}

/// The relation between one destination, the message, and the planned
/// action: a desktop destination yields its notification with the message
/// as body; a webhook destination yields its request.
pub open spec fn action_matches(a: DispatchAction, d: Destination, msg: Seq<char>) -> bool {
    match d {
        Destination::Desktop { summary, persistent } => (a matches DispatchAction::Notify {
            summary: s2,
            body,
            persistent: p2,
        } && s2@ == summary@ && body@ == msg && p2 == persistent),
        Destination::Webhook { url, format } => (a matches DispatchAction::Request(req)
            && request_matches(req, url@, format, msg)),
    }
}

/// Plan the HTTP request that delivers a message over a webhook: built-in
/// formats post the rendered body under their content type; a custom
/// format uses its configured method and headers, all of which must be
/// valid header names and values.
pub fn plan_webhook(message: &str, url: &str, format: &WebhookFormat) -> (r: Result<
    HttpRequest,
    Error,
>)
    ensures
        r is Ok <==> format_plan_ok(*format),
        r matches Ok(req) ==> request_matches(req, url@, *format, message@),
        r matches Err(e) ==> e == format_plan_err(*format),
{
    match format {
        WebhookFormat::Custom(custom) => {
            let pairs = header_map_pairs(&custom.http.headers);
            match check_headers(&pairs) {
                Err(e) => Err(e),
                Ok(()) => Ok(
                    HttpRequest {
                        method: custom.http.method,
                        url: url.to_owned(),
                        headers: pairs,
                        body: format.format_message(message),
                    },
                ),
            }
        },
        WebhookFormat::Standard(_) => {
            let mut headers = Vec::new();
            headers.push(("Content-Type".to_owned(), format.as_content_type()));
            Ok(
                HttpRequest {
                    method: HttpMethod::POST,
                    url: url.to_owned(),
                    headers,
                    body: format.format_message(message),
                },
            )
        },
    }
}

/// Plan the delivery of one message to one destination.
pub fn plan_dispatch(message: &str, destination: &Destination) -> (r: Result<DispatchAction, Error>)
    ensures
        r is Ok <==> plan_ok(*destination),
        r matches Ok(a) ==> action_matches(a, *destination, message@),
        r matches Err(e) ==> e == plan_err(*destination),
{
    match destination {
        Destination::Webhook { url, format } => match plan_webhook(message, url.as_str(), format) {
            Ok(req) => Ok(DispatchAction::Request(req)),
            Err(e) => Err(e),
        },
        Destination::Desktop { summary, persistent } => Ok(
            DispatchAction::Notify {
                summary: summary.clone(),
                body: message.to_owned(),
                persistent: *persistent,
            },
        ),
    }
}

/// Plan the delivery of one message to every configured destination, in
/// order. A configuration error in any destination fails the whole plan
/// before any delivery is attempted; the error of the lowest-indexed
/// failing destination is reported.
pub fn plan_all(message: &str, config: &Config) -> (r: Result<Vec<DispatchAction>, Error>)
    ensures
        r is Ok <==> (forall|i: int|
            0 <= i < config.destination@.len() ==> plan_ok(#[trigger] config.destination@[i])),
        r matches Ok(actions) ==> actions@.len() == config.destination@.len() && (forall|i: int|
            0 <= i < actions@.len() ==> action_matches(
                #[trigger] actions@[i],
                config.destination@[i],
                message@,
            )),
        r matches Err(e) ==> (exists|i: int|
            {
                &&& 0 <= i < config.destination@.len()
                &&& !plan_ok(#[trigger] config.destination@[i])
                &&& e == plan_err(config.destination@[i])
                &&& forall|j: int| 0 <= j < i ==> plan_ok(#[trigger] config.destination@[j])
            }),
{
    let n = config.destination.len();
    let mut actions: Vec<DispatchAction> = Vec::new();
    let mut i: usize = 0;
    while i < n
        invariant
            n == config.destination@.len(),
            i <= n,
            actions@.len() == i,
            forall|j: int| 0 <= j < i ==> plan_ok(#[trigger] config.destination@[j]),
            forall|j: int|
                0 <= j < i ==> action_matches(
                    #[trigger] actions@[j],
                    config.destination@[j],
                    message@,
                ),
        decreases n - i,
    {
        match plan_dispatch(message, &config.destination[i]) {
            Ok(a) => {
                actions.push(a);
            },
            Err(e) => {
                return Err(e);
            },
        }
        i += 1;
    }
    Ok(actions)
}

/// The combined result of per-destination outcomes: success only if every
/// outcome succeeded, else the first failure in destination order.
pub open spec fn combined_outcome(rs: Seq<Result<(), Error>>) -> Result<(), Error>
    decreases rs.len(),
{
    if rs.len() == 0 {
        Ok(())
    } else if rs[0] is Err {
        rs[0]
    } else {
        combined_outcome(rs.drop_first())
    }
}

/// The combined outcome succeeds exactly when every outcome succeeded; in
/// particular, a fan-out to zero destinations always succeeds.
pub proof fn lemma_combined_outcome_ok(rs: Seq<Result<(), Error>>)
    ensures
        combined_outcome(rs) is Ok <==> (forall|i: int|
            0 <= i < rs.len() ==> #[trigger] rs[i] is Ok),
    decreases rs.len(),
{
    if rs.len() > 0 {
        lemma_combined_outcome_ok(rs.drop_first());
        if rs[0] is Ok {
            assert forall|i: int| 0 <= i < rs.len() && combined_outcome(rs) is Ok implies (
            #[trigger] rs[i]) is Ok by {
                if i > 0 {
                    assert(rs.drop_first()[i - 1] == rs[i]);
                }
            }
            if forall|i: int| 0 <= i < rs.len() ==> #[trigger] rs[i] is Ok {
                assert forall|i: int| 0 <= i < rs.drop_first().len() implies (
                #[trigger] rs.drop_first()[i]) is Ok by {
                    assert(rs.drop_first()[i] == rs[i + 1]);
                }
            }
        }
    }
}

/// A fan-out to zero destinations always succeeds trivially.
pub proof fn lemma_empty_fanout_succeeds()
    ensures
        combined_outcome(Seq::empty()) == Result::<(), Error>::Ok(()),
{
}

/// A failed fan-out reports the outcome of the lowest-indexed failing
/// destination: the deterministic tie-break among concurrently failing
/// deliveries.
pub proof fn lemma_combined_outcome_first_failure(rs: Seq<Result<(), Error>>)
    requires
        combined_outcome(rs) is Err,
    ensures
        exists|i: int|
            {
                &&& 0 <= i < rs.len()
                &&& #[trigger] rs[i] == combined_outcome(rs)
                &&& rs[i] is Err
                &&& forall|j: int| 0 <= j < i ==> #[trigger] rs[j] is Ok
            },
    decreases rs.len(),
{
    if rs[0] is Err {
        assert(rs[0] == combined_outcome(rs));
    } else {
        lemma_combined_outcome_first_failure(rs.drop_first());
        let i = choose|i: int|
            {
                &&& 0 <= i < rs.drop_first().len()
                &&& #[trigger] rs.drop_first()[i] == combined_outcome(rs.drop_first())
                &&& rs.drop_first()[i] is Err
                &&& forall|j: int| 0 <= j < i ==> #[trigger] rs.drop_first()[j] is Ok
            };
        assert(rs[i + 1] == rs.drop_first()[i]);
        assert forall|j: int| 0 <= j < i + 1 implies #[trigger] rs[j] is Ok by {
            if j > 0 {
                assert(rs.drop_first()[j - 1] == rs[j]);
            }
        }
    }
}

/// Combine the per-destination outcomes of one fan-out. The overall call
/// succeeds only if every delivery succeeded; otherwise the failure of the
/// lowest-indexed failing destination is reported. Deliveries that were
/// still running when a sibling failed are not cancelled; their outcomes
/// stand in the sequence and are simply discarded here.
pub fn combine_outcomes(outcomes: Vec<Result<(), Error>>) -> (r: Result<(), Error>)
    ensures
        r == combined_outcome(outcomes@),
        r is Ok <==> (forall|i: int|
            0 <= i < outcomes@.len() ==> #[trigger] outcomes@[i] is Ok),
{
    proof {
        lemma_combined_outcome_ok(outcomes@);
    }
    let ghost orig = outcomes@;
    let mut rest = outcomes;
    #[verifier::loop_isolation(false)]
    while rest.len() > 0
        invariant
            combined_outcome(rest@) == combined_outcome(orig),
        decreases rest.len(),
    {
        let ghost before = rest@;
        let head = rest.remove(0);
        proof {
            assert(before.remove(0) =~= before.drop_first());
        }
        match head {
            Err(e) => {
                return Err(e);
            },
            Ok(()) => {},
        }
    }
    Ok(())
}

/// How an invocation runs: streaming from stdin, or a single dispatch of
/// the given message.
pub enum Mode {
    Stream,
    Single(String),
}

/// Decide how an invocation runs from the streaming flag and the optional
/// message argument. The two are mutually exclusive: a message alongside
/// enabled streaming, or neither, is a usage error, reported before any
/// dispatch is planned.
pub fn decide_mode(stream_enabled: bool, message: Option<String>) -> (r: Result<Mode, Error>)
    ensures
        stream_enabled && message is None ==> r == Result::<Mode, Error>::Ok(Mode::Stream),
        stream_enabled && message is Some ==> r == Result::<Mode, Error>::Err(
            Error::StreamAndMessage,
        ),
        !stream_enabled && message is None ==> r == Result::<Mode, Error>::Err(Error::NoMessage),
        !stream_enabled ==> (message matches Some(m) ==> r == Result::<Mode, Error>::Ok(
            Mode::Single(m),
        )),
{
    match (stream_enabled, message) {
        (true, None) => Ok(Mode::Stream),
        (true, Some(_)) => Err(Error::StreamAndMessage),
        (false, None) => Err(Error::NoMessage),
        (false, Some(message)) => Ok(Mode::Single(message)),
    }
}

} // verus!
