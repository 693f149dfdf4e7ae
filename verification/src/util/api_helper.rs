//! The request executor, as the decisions it takes between two pieces of
//! network work.
//!
//! A call runs in at most two rounds. [`start`] takes a snapshot of the shared
//! headers and says what to send. The caller sends it and hands the reply to
//! [`Exchange::on_reply`], which settles the call at once on success, on an
//! unauthorized reply and on a transport failure. Every other reply is a
//! refusal: the caller decodes the error list in its body and hands that to
//! [`Rejected::on_errors`], which either reports the errors or, once per call
//! and only on the token-refresh signal, records the offered token in the
//! shared state and says what to send again. Whoever drives these steps does
//! the sending and the decoding; nothing here waits for anything.

use crate::util::credentials::cookie_header;
use crate::util::credentials::cookie_name;
use crate::util::credentials::is_identified;
use crate::util::credentials::is_presentable;
use crate::util::credentials::lemma_names;
use crate::util::credentials::merged_headers;
use crate::util::credentials::token_name;
use crate::util::credentials::CredentialState;
use crate::util::errors::has_zero_code;
use crate::util::errors::reports_token_failure;
use crate::util::errors::ApiError;
use crate::util::errors::OxidError;
use crate::util::headers::header_entries;
use crate::util::headers::is_header_value;
use crate::util::request::creating;
use crate::util::request::fetching;
use crate::util::request::owned_text;
use crate::util::request::removing;
use crate::util::request::str_view;
use crate::util::request::Body;
use crate::util::request::RawResponse;
use crate::util::request::Request;
use crate::util::request::updating;
use crate::util::request::Verb;
use reqwest::header::HeaderMap;
use reqwest::header::HeaderValue;
use vstd::pervasive::unreached;
use vstd::prelude::*;

verus! {

/// The lowest status of a reply that carries what was asked for.
pub const SUCCESS_FIRST: u16 = 200;

/// The highest status of a reply that carries what was asked for.
pub const SUCCESS_LAST: u16 = 299;

/// The status of a reply that refuses the session credential.
pub const STATUS_UNAUTHORIZED: u16 = 401;

/// The status of a reply that forbids the request; the only one that can
/// carry the token-refresh signal.
pub const STATUS_FORBIDDEN: u16 = 403;

/// Replaces the session cookie of the shared state for all later requests
/// that bring no credential of their own.
pub fn set_roblosecurity(credentials: &mut CredentialState, roblosecurity: &str)
    requires
        is_header_value(roblosecurity@),
    ensures
        final(credentials)@ == old(credentials)@.insert(
            cookie_name(),
            cookie_header(roblosecurity@),
        ),
{
    credentials.set_roblosecurity(roblosecurity);
}

/// A request to fetch `url`.
pub fn get(url: String, roblosecurity: Option<&str>) -> (out: Request)
    ensures
        out@ == fetching(url@, str_view(roblosecurity)),
{
    Request { verb: Verb::Get, url, body: None, roblosecurity: owned_text(roblosecurity) }
}

/// A request to remove what `url` names.
pub fn delete(url: String, roblosecurity: Option<&str>) -> (out: Request)
    ensures
        out@ == removing(url@, str_view(roblosecurity)),
{
    Request { verb: Verb::Delete, url, body: None, roblosecurity: owned_text(roblosecurity) }
}

/// A request to create something at `url` from `body`.
pub fn post(url: String, body: Body, roblosecurity: Option<&str>) -> (out: Request)
    ensures
        out@ == creating(url@, body@, str_view(roblosecurity)),
{
    Request { verb: Verb::Post, url, body: Some(body), roblosecurity: owned_text(roblosecurity) }
}

/// A request to update part of what `url` names with `body`.
pub fn patch(url: String, body: Body, roblosecurity: Option<&str>) -> (out: Request)
    ensures
        out@ == updating(url@, body@, str_view(roblosecurity)),
{
    Request { verb: Verb::Patch, url, body: Some(body), roblosecurity: owned_text(roblosecurity) }
}

/// A success status: any from 200 to 299.
pub open spec fn is_success(status: u16) -> bool {
    SUCCESS_FIRST <= status <= SUCCESS_LAST
}

/// Tells whether a status is a success status.
pub fn succeeded(status: u16) -> (out: bool)
    ensures
        out == is_success(status),
{
    SUCCESS_FIRST <= status && status <= SUCCESS_LAST
}

/// What a reply settles by itself: a transport failure ends the call as an
/// `Http` error, a success status ends it with the response, status 401 ends
/// it as `Unauthorized`. Any other reply settles nothing until its error list
/// is decoded.
pub open spec fn settled(reply: Result<RawResponse, String>) -> Option<
    Result<RawResponse, OxidError>,
> {
    match reply {
        Err(failure) => Some(Err(OxidError::Http(failure))),
        Ok(response) => if is_success(response.status) {
            Some(Ok(response))
        } else if response.status == STATUS_UNAUTHORIZED {
            Some(Err(OxidError::Unauthorized))
        } else {
            None
        },
    }
}

/// The token-refresh signal: a forbidden reply that offers a token in its
/// header and lists an error with code zero in its body.
pub open spec fn offers_refresh(
    response: RawResponse,
    decoded: Result<Vec<ApiError>, String>,
) -> bool {
    &&& response.status == STATUS_FORBIDDEN
    &&& response.csrf_token is Some
    &&& decoded matches Ok(errors) && has_zero_code(errors@)
}

/// The failure that a refusal ends in when it is not answered by a resend:
/// the decoded error list as it is, or the decoding failure as an `Http`
/// error.
pub open spec fn refusal(decoded: Result<Vec<ApiError>, String>) -> OxidError {
    match decoded {
        Ok(errors) => OxidError::Api(errors),
        Err(failure) => OxidError::Http(failure),
    }
}

/// What a call that got its response ends in once the body has been decoded:
/// the decoded value, or a `Validation` failure that carries the account of
/// why the body did not have the expected shape.
pub fn deserialized<T>(decoded: Result<T, String>) -> (out: Result<T, OxidError>)
    ensures
        out == match decoded {
            Ok(value) => Ok::<T, OxidError>(value),
            Err(failure) => Err::<T, OxidError>(OxidError::Validation(failure)),
        },
{
    match decoded {
        Ok(value) => Ok(value),
        Err(failure) => Err(OxidError::Validation(failure)),
    }
}

/// What to send: the request as the caller gave it, under these headers.
pub struct Outbound<'a> {
    pub request: &'a Request,
    pub headers: HeaderMap<HeaderValue>,
}

/// A request that has been sent and whose reply is awaited.
pub struct Exchange<'a> {
    request: &'a Request,
    resent: bool,
}

/// A refusal whose error list is awaited.
pub struct Rejected<'a> {
    exchange: Exchange<'a>,
    response: RawResponse,
}

/// What follows a reply.
pub enum Verdict<'a> {
    /// The call has ended with this result.
    Done(Result<RawResponse, OxidError>),
    /// The reply is a refusal; its body holds the error list to hand to
    /// [`Rejected::on_errors`].
    Undecided(Rejected<'a>),
}

/// What follows the error list of a refusal.
pub enum Resolution<'a> {
    /// The call has ended with this failure.
    Failed(OxidError),
    /// The token has been refreshed: send this, then go on with the exchange.
    Resend(Exchange<'a>, Outbound<'a>),
}

impl<'a> Exchange<'a> {
    #[verifier::type_invariant]
    spec fn presentable(self) -> bool {
        is_presentable(self.request@.roblosecurity)
    }

    /// The request that this exchange carries.
    pub closed spec fn request(self) -> Request {
        *self.request
    }

    /// Whether the one resend of this call has been spent.
    pub closed spec fn resent(self) -> bool {
        self.resent
    }

    /// Takes the reply to what was sent last.
    pub fn on_reply(self, reply: Result<RawResponse, String>) -> (out: Verdict<'a>)
        requires
            reply matches Ok(response) ==> response.wf(),
        ensures
            match settled(reply) {
                Some(result) => out == Verdict::<'a>::Done(result),
                None => out matches Verdict::Undecided(rejected) && rejected.exchange() == self
                    && rejected.response() == reply->Ok_0,
            },
    {
        proof {
            use_type_invariant(&self);
        }
        match reply {
            Err(failure) => Verdict::Done(Err(OxidError::Http(failure))),
            Ok(response) => {
                if succeeded(response.status) {
                    Verdict::Done(Ok(response))
                } else if response.status == STATUS_UNAUTHORIZED {
                    Verdict::Done(Err(OxidError::Unauthorized))
                } else {
                    Verdict::Undecided(Rejected { exchange: self, response })
                }
            },
        }
    }
}

impl<'a> Rejected<'a> {
    #[verifier::type_invariant]
    spec fn refused(self) -> bool {
        &&& is_presentable(self.exchange.request@.roblosecurity)
        &&& self.response.wf()
        &&& settled(Ok(self.response)) is None
    }

    /// The exchange that was refused.
    pub closed spec fn exchange(self) -> Exchange<'a> {
        self.exchange
    }

    /// The refusing reply.
    pub closed spec fn response(self) -> RawResponse {
        self.response
    }

    /// The body of the refusing reply, which holds the error list.
    pub fn body(&self) -> (out: &str)
        ensures
            out@ == self.response().body@,
    {
        self.response.body.as_str()
    }

    /// The status of the refusing reply: not a success status, and not the
    /// unauthorized one.
    pub fn status(&self) -> (out: u16)
        ensures
            out == self.response().status,
            !is_success(out),
            out != STATUS_UNAUTHORIZED,
    {
        proof {
            use_type_invariant(self);
        }
        self.response.status
    }

    /// Takes the decoded error list of the refusal, or the failure to decode
    /// it.
    ///
    /// On the token-refresh signal, and only if this call has not resent
    /// before, the offered token is recorded in the shared state and the same
    /// request goes out again under the refreshed headers. In every other case
    /// the call ends, the shared state is left alone, and the failure is the
    /// error list as decoded, or the decoding failure.
    pub fn on_errors(
        self,
        credentials: &mut CredentialState,
        decoded: Result<Vec<ApiError>, String>,
    ) -> (out: Resolution<'a>)
        ensures
            !self.exchange().resent() && offers_refresh(self.response(), decoded) ==> {
                &&& final(credentials)@ == old(credentials)@.insert(
                    token_name(),
                    self.response().csrf_token->Some_0@,
                )
                &&& out matches Resolution::Resend(exchange, outbound)
                &&& exchange.resent()
                &&& exchange.request() == self.exchange().request()
                &&& *outbound.request == self.exchange().request()
                &&& header_entries(outbound.headers) == merged_headers(
                    final(credentials)@,
                    self.exchange().request()@.roblosecurity,
                )
                &&& is_identified(header_entries(outbound.headers))
            },
            !(!self.exchange().resent() && offers_refresh(self.response(), decoded)) ==> {
                &&& final(credentials)@ == old(credentials)@
                &&& out == Resolution::<'a>::Failed(refusal(decoded))
            },
    {
        proof {
            use_type_invariant(&self);
        }
        let Rejected { exchange, response } = self;
        let Exchange { request, resent } = exchange;
        match decoded {
            Err(failure) => Resolution::Failed(OxidError::Http(failure)),
            Ok(errors) => {
                if !resent && response.status == STATUS_FORBIDDEN && reports_token_failure(&errors) {
                    match response.csrf_token {
                        Some(token) => {
                            credentials.set_token(token.as_str());
                            let headers = credentials.headers_for(credential_of(request));
                            Resolution::Resend(
                                Exchange { request, resent: true },
                                Outbound { request, headers },
                            )
                        },
                        None => Resolution::Failed(OxidError::Api(errors)),
                    }
                } else {
                    Resolution::Failed(OxidError::Api(errors))
                }
            },
        }
    }
}

/// The credential that a request brings for itself, if any.
fn credential_of(request: &Request) -> (out: Option<&str>)
    ensures
        str_view(out) == request@.roblosecurity,
{
    match &request.roblosecurity {
        Some(value) => Some(value.as_str()),
        None => None,
    }
}

/// Begins a call: takes a snapshot of the shared headers, puts the call's own
/// credential in place of the shared cookie where the request brings one, and
/// says what to send. The shared state stays as it is.
pub fn start<'a>(credentials: &CredentialState, request: &'a Request) -> (out: (
    Exchange<'a>,
    Outbound<'a>,
))
    requires
        is_presentable(request@.roblosecurity),
    ensures
        out.0.request() == *request,
        !out.0.resent(),
        *out.1.request == *request,
        header_entries(out.1.headers) == merged_headers(credentials@, request@.roblosecurity),
        is_identified(header_entries(out.1.headers)),
{
    let headers = credentials.headers_for(credential_of(request));
    (Exchange { request, resent: false }, Outbound { request, headers })
}

/// What the service answers to one send: the reply, and what decoding the
/// body of that reply as an error list gives.
pub struct Turn {
    pub reply: Result<RawResponse, String>,
    pub decoded: Result<Vec<ApiError>, String>,
}

/// How a call ended: its result, the shared headers it left behind, and the
/// headers of each send it made, in order.
pub struct Outcome {
    pub result: Result<RawResponse, OxidError>,
    pub credentials: Map<Seq<char>, Seq<char>>,
    pub sent: Seq<Map<Seq<char>, Seq<char>>>,
}

/// The result of a round that is not answered by a resend.
pub open spec fn round_result(turn: Turn) -> Result<RawResponse, OxidError> {
    match settled(turn.reply) {
        Some(result) => result,
        None => Err(refusal(turn.decoded)),
    }
}

/// Whether a round ends in the token-refresh signal.
pub open spec fn signals_refresh(turn: Turn) -> bool {
    settled(turn.reply) is None && offers_refresh(turn.reply->Ok_0, turn.decoded)
}

/// The whole call, as [`start`], [`Exchange::on_reply`] and
/// [`Rejected::on_errors`] carry it out when they are driven in turn: one
/// round, and a second one exactly when the first ends in the token-refresh
/// signal. `first` and `second` are what the service answers to the first and
/// to the second send.
pub open spec fn execute(
    credentials: Map<Seq<char>, Seq<char>>,
    roblosecurity: Option<Seq<char>>,
    first: Turn,
    second: Turn,
) -> Outcome {
    if signals_refresh(first) {
        let refreshed = credentials.insert(token_name(), first.reply->Ok_0.csrf_token->Some_0@);
        Outcome {
            result: round_result(second),
            credentials: refreshed,
            sent: seq![
                merged_headers(credentials, roblosecurity),
                merged_headers(refreshed, roblosecurity),
            ],
        }
    } else {
        Outcome {
            result: round_result(first),
            credentials,
            sent: seq![merged_headers(credentials, roblosecurity)],
        }
    }
}

/// Carries a call through against answers that are known beforehand, driving
/// [`start`], [`Exchange::on_reply`] and [`Rejected::on_errors`] in turn as a
/// caller on the network does. `first` answers the first send and `second`
/// the resend, if there is one. The call ends as [`execute`] says and leaves
/// the shared headers that it says; what comes back is its result and the
/// headers of each send it made, in order.
pub fn execute_scripted(
    credentials: &mut CredentialState,
    request: &Request,
    first: Turn,
    second: Turn,
) -> (out: (Result<RawResponse, OxidError>, Vec<HeaderMap<HeaderValue>>))
    requires
        is_presentable(request@.roblosecurity),
        first.reply matches Ok(response) ==> response.wf(),
        second.reply matches Ok(response) ==> response.wf(),
    ensures
        ({
            let outcome = execute(old(credentials)@, request@.roblosecurity, first, second);
            &&& out.0 == outcome.result
            &&& final(credentials)@ == outcome.credentials
            &&& out.1@.len() == outcome.sent.len()
            &&& forall|i: int|
                0 <= i < out.1@.len() ==> header_entries(#[trigger] out.1@[i]) == outcome.sent[i]
        }),
{
    let mut sent: Vec<HeaderMap<HeaderValue>> = Vec::new();
    let (exchange, outbound) = start(credentials, request);
    sent.push(outbound.headers);
    let rejected = match exchange.on_reply(first.reply) {
        Verdict::Done(result) => {
            return (result, sent);
        },
        Verdict::Undecided(rejected) => rejected,
    };
    let exchange = match rejected.on_errors(credentials, first.decoded) {
        Resolution::Failed(failure) => {
            return (Err(failure), sent);
        },
        Resolution::Resend(exchange, outbound) => {
            sent.push(outbound.headers);
            exchange
        },
    };
    let rejected = match exchange.on_reply(second.reply) {
        Verdict::Done(result) => {
            return (result, sent);
        },
        Verdict::Undecided(rejected) => rejected,
    };
    match rejected.on_errors(credentials, second.decoded) {
        Resolution::Failed(failure) => (Err(failure), sent),
        Resolution::Resend(_, _) => unreached(),
    }
}

/// A reply with a success status, whichever of them, ends the call with that
/// response as it came, after the one send that it answers; the send went out
/// under the shared headers with the call's own credential in place, and the
/// shared headers are left alone.
pub proof fn lemma_success_returns_the_response(
    credentials: Map<Seq<char>, Seq<char>>,
    roblosecurity: Option<Seq<char>>,
    first: Turn,
    second: Turn,
    response: RawResponse,
)
    requires
        first.reply == Ok::<RawResponse, String>(response),
        is_success(response.status),
    ensures
        execute(credentials, roblosecurity, first, second).result == Ok::<RawResponse, OxidError>(
            response,
        ),
        execute(credentials, roblosecurity, first, second).sent == seq![
            merged_headers(credentials, roblosecurity),
        ],
        execute(credentials, roblosecurity, first, second).credentials == credentials,
{
}

/// A refusal that is not the token-refresh signal ends the call in `Api`, with
/// the error list exactly as it was decoded from the reply. A refusal is any
/// reply whose status is neither a success status nor 401.
pub proof fn lemma_refusal_reports_decoded_errors(
    credentials: Map<Seq<char>, Seq<char>>,
    roblosecurity: Option<Seq<char>>,
    first: Turn,
    second: Turn,
    errors: Vec<ApiError>,
)
    requires
        first.reply matches Ok(response) && !is_success(response.status) && response.status
            != STATUS_UNAUTHORIZED,
        first.decoded == Ok::<Vec<ApiError>, String>(errors),
        !signals_refresh(first),
    ensures
        execute(credentials, roblosecurity, first, second).result == Err::<
            RawResponse,
            OxidError,
        >(OxidError::Api(errors)),
        execute(credentials, roblosecurity, first, second).sent.len() == 1,
{
}

/// A refusal in answer to the resend ends the call in `Api` with its own
/// decoded error list, whether or not it carries the signal again.
pub proof fn lemma_second_refusal_reports_decoded_errors(
    credentials: Map<Seq<char>, Seq<char>>,
    roblosecurity: Option<Seq<char>>,
    first: Turn,
    second: Turn,
    errors: Vec<ApiError>,
)
    requires
        signals_refresh(first),
        second.reply matches Ok(response) && !is_success(response.status) && response.status
            != STATUS_UNAUTHORIZED,
        second.decoded == Ok::<Vec<ApiError>, String>(errors),
    ensures
        execute(credentials, roblosecurity, first, second).result == Err::<
            RawResponse,
            OxidError,
        >(OxidError::Api(errors)),
        execute(credentials, roblosecurity, first, second).sent.len() == 2,
{
}

/// An unauthorized reply ends the call in `Unauthorized` after the one send
/// that it answers, and leaves the shared headers alone.
pub proof fn lemma_unauthorized_is_final(
    credentials: Map<Seq<char>, Seq<char>>,
    roblosecurity: Option<Seq<char>>,
    first: Turn,
    second: Turn,
)
    requires
        first.reply matches Ok(response) && response.status == STATUS_UNAUTHORIZED,
    ensures
        execute(credentials, roblosecurity, first, second).result == Err::<
            RawResponse,
            OxidError,
        >(OxidError::Unauthorized),
        execute(credentials, roblosecurity, first, second).sent.len() == 1,
        execute(credentials, roblosecurity, first, second).credentials == credentials,
{
}

/// On the token-refresh signal the call sends exactly twice, the second time
/// with the offered token in its headers; the shared headers keep that token,
/// so that the first send of any later call carries it too, and a later call
/// that is answered with a success status ends with that response after its
/// one send, without a refresh of its own.
pub proof fn lemma_refresh_resends_once_and_keeps_token(
    credentials: Map<Seq<char>, Seq<char>>,
    roblosecurity: Option<Seq<char>>,
    first: Turn,
    second: Turn,
    later_roblosecurity: Option<Seq<char>>,
    later_first: Turn,
    later_second: Turn,
)
    requires
        signals_refresh(first),
    ensures
        ({
            let token = first.reply->Ok_0.csrf_token->Some_0@;
            let outcome = execute(credentials, roblosecurity, first, second);
            let later = execute(
                outcome.credentials,
                later_roblosecurity,
                later_first,
                later_second,
            );
            &&& outcome.sent.len() == 2
            &&& outcome.sent[1].contains_pair(token_name(), token)
            &&& outcome.result == round_result(second)
            &&& outcome.credentials.contains_pair(token_name(), token)
            &&& later.sent[0].contains_pair(token_name(), token)
            &&& (later_first.reply is Ok && is_success(later_first.reply->Ok_0.status)) ==> ({
                &&& later.result == Ok::<RawResponse, OxidError>(later_first.reply->Ok_0)
                &&& later.sent.len() == 1
                &&& later.credentials == outcome.credentials
            })
        }),
{
    lemma_names();
}

/// A forbidden reply that lacks the signal, be it the header or the zero
/// code, ends the call in `Api` and leaves the shared headers alone.
pub proof fn lemma_forbidden_without_signal(
    credentials: Map<Seq<char>, Seq<char>>,
    roblosecurity: Option<Seq<char>>,
    first: Turn,
    second: Turn,
    errors: Vec<ApiError>,
)
    requires
        first.reply matches Ok(response) && response.status == STATUS_FORBIDDEN && (
        response.csrf_token is None || !has_zero_code(errors@)),
        first.decoded == Ok::<Vec<ApiError>, String>(errors),
    ensures
        execute(credentials, roblosecurity, first, second).result == Err::<
            RawResponse,
            OxidError,
        >(OxidError::Api(errors)),
        execute(credentials, roblosecurity, first, second).credentials == credentials,
        execute(credentials, roblosecurity, first, second).sent.len() == 1,
{
}

/// A call that meets no refresh signal leaves the shared headers as it found
/// them, so that the same call, made again and answered the same, is sent
/// under the same headers and ends the same way.
pub proof fn lemma_repeat_is_consistent(
    credentials: Map<Seq<char>, Seq<char>>,
    roblosecurity: Option<Seq<char>>,
    first: Turn,
    second: Turn,
)
    requires
        !signals_refresh(first),
    ensures
        execute(credentials, roblosecurity, first, second).credentials == credentials,
        execute(
            execute(credentials, roblosecurity, first, second).credentials,
            roblosecurity,
            first,
            second,
        ) == execute(credentials, roblosecurity, first, second),
{
}

/// No call sends more than twice, and none changes a shared header other than
/// the token.
pub proof fn lemma_two_sends_at_most_and_only_the_token_changes(
    credentials: Map<Seq<char>, Seq<char>>,
    roblosecurity: Option<Seq<char>>,
    first: Turn,
    second: Turn,
    name: Seq<char>,
)
    requires
        name != token_name(),
    ensures
        1 <= execute(credentials, roblosecurity, first, second).sent.len() <= 2,
        execute(credentials, roblosecurity, first, second).credentials.contains_key(name)
            == credentials.contains_key(name),
        execute(credentials, roblosecurity, first, second).credentials[name] == credentials[name],
{
}

} // verus!
