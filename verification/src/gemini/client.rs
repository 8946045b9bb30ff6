//! The course of one request: resolve, connect, secure, send, receive,
//! classify. The steps that touch the network are the caller's; what to do
//! next, and what each result leads to, is decided here.
//!
//! A request never fails outwardly. Whatever goes wrong ends in an outcome
//! of plain text that names the location and the cause.

use crate::gemini::codec::{
    crlf, decode, decoded, lemma_split_joined, request_line, request_text, split_at_crlf,
    split_response, CodecError,
};
use crate::gemini::location::{
    resolve, resolved, LocationView, ResolutionError, ResolutionFailure, ResourceLocation,
};
use crate::gemini::status::{classify, status_meta, status_text, GeminiStatus, StatusView};
use crate::text::{contains, occurs_at, trim_end, trim_start};
use vstd::prelude::*;
use vstd::string::StringExecFns;
use vstd::utf8::{encode_utf8, encode_utf8_decode_utf8, encode_utf8_valid_utf8};

verus! {

/// Which certificates a server may present.
#[derive(Clone, Copy, Debug, PartialEq, Eq, Structural)]
pub enum CertificatePolicy {
    /// Any certificate is accepted and no chain of trust is checked. Trust
    /// is then the business of whoever uses the client.
    AcceptAny,
    /// The certificate must pass the transport's own validation.
    Validate,
}

impl Default for CertificatePolicy {
    /// Any certificate is accepted unless the caller asks for more.
    fn default() -> (r: Self)
        ensures
            r == CertificatePolicy::AcceptAny,
    {
        CertificatePolicy::AcceptAny
    }
}

/// Why no secure connection came about, in the transport's words.
#[derive(Debug)]
pub enum TransportError {
    /// The server could not be reached.
    Connect(String),
    /// The secure session could not be set up.
    Tls(String),
}

/// What a request hands back: the location that was asked, the type of
/// the content, and the content or, after a failure, a diagnostic.
#[derive(Debug)]
pub struct ResponseOutcome {
    pub final_location: String,
    pub content_type: String,
    pub body: String,
}

/// The mathematical value of a [`ResponseOutcome`].
pub struct OutcomeView {
    pub final_location: Seq<char>,
    pub content_type: Seq<char>,
    pub body: Seq<char>,
}

impl View for ResponseOutcome {
    type V = OutcomeView;

    open spec fn view(&self) -> OutcomeView {
        OutcomeView {
            final_location: self.final_location@,
            content_type: self.content_type@,
            body: self.body@,
        }
    }
}

/// What the caller reports back after doing what was asked.
#[derive(Debug)]
pub enum Event {
    /// The server accepted the connection.
    Connected,
    /// The secure session stands.
    Secured,
    /// The request was written in full.
    Sent,
    /// The server closed the connection after these bytes.
    Received(Vec<u8>),
    /// Connecting or securing failed.
    TransportFailed(TransportError),
    /// Writing or reading failed.
    CodecFailed(CodecError),
}

/// The mathematical value of an [`Event`].
pub enum EventView {
    Connected,
    Secured,
    Sent,
    Received(Seq<u8>),
    ConnectFailed(Seq<char>),
    TlsFailed(Seq<char>),
    WriteFailed(Seq<char>),
    ReadFailed(Seq<char>),
    MalformedFraming,
}

impl View for Event {
    type V = EventView;

    open spec fn view(&self) -> EventView {
        match *self {
            Event::Connected => EventView::Connected,
            Event::Secured => EventView::Secured,
            Event::Sent => EventView::Sent,
            Event::Received(bytes) => EventView::Received(bytes@),
            Event::TransportFailed(TransportError::Connect(detail)) => EventView::ConnectFailed(
                detail@,
            ),
            Event::TransportFailed(TransportError::Tls(detail)) => EventView::TlsFailed(detail@),
            Event::CodecFailed(CodecError::Write(detail)) => EventView::WriteFailed(detail@),
            Event::CodecFailed(CodecError::Read(detail)) => EventView::ReadFailed(detail@),
            Event::CodecFailed(CodecError::MalformedFraming) => EventView::MalformedFraming,
        }
    }
}

/// What the caller is asked to do next.
#[derive(Debug)]
pub enum Action {
    /// Open a connection to this address, a host and a port.
    Connect { address: String },
    /// Set up a secure session on the connection, naming this server.
    Secure { server_name: String, accept_invalid_certs: bool },
    /// Write these bytes, all of them at once.
    Send { bytes: Vec<u8> },
    /// Read until the server closes the connection.
    Receive,
    /// Nothing: the outcome is there.
    Finish,
}

/// The mathematical value of an [`Action`].
pub enum ActionView {
    Connect { address: Seq<char> },
    Secure { server_name: Seq<char>, accept_invalid_certs: bool },
    Send { bytes: Seq<u8> },
    Receive,
    Finish,
}

impl View for Action {
    type V = ActionView;

    open spec fn view(&self) -> ActionView {
        match *self {
            Action::Connect { address } => ActionView::Connect { address: address@ },
            Action::Secure { server_name, accept_invalid_certs } => ActionView::Secure {
                server_name: server_name@,
                accept_invalid_certs,
            },
            Action::Send { bytes } => ActionView::Send { bytes: bytes@ },
            Action::Receive => ActionView::Receive,
            Action::Finish => ActionView::Finish,
        }
    }
}

/// One request on its way. It moves forward only: from connecting to
/// securing, sending and receiving, and from any of them to done.
#[derive(Debug)]
pub enum Exchange {
    Connecting { location: String, host: String, policy: CertificatePolicy },
    Securing { location: String, host: String, policy: CertificatePolicy },
    Sending { location: String },
    Receiving { location: String },
    Done { outcome: ResponseOutcome },
}

/// The mathematical value of an [`Exchange`].
pub enum ExchangeView {
    Connecting { location: Seq<char>, host: Seq<char>, policy: CertificatePolicy },
    Securing { location: Seq<char>, host: Seq<char>, policy: CertificatePolicy },
    Sending { location: Seq<char> },
    Receiving { location: Seq<char> },
    Done { outcome: OutcomeView },
}

impl View for Exchange {
    type V = ExchangeView;

    open spec fn view(&self) -> ExchangeView {
        match *self {
            Exchange::Connecting { location, host, policy } => ExchangeView::Connecting {
                location: location@,
                host: host@,
                policy,
            },
            Exchange::Securing { location, host, policy } => ExchangeView::Securing {
                location: location@,
                host: host@,
                policy,
            },
            Exchange::Sending { location } => ExchangeView::Sending { location: location@ },
            Exchange::Receiving { location } => ExchangeView::Receiving { location: location@ },
            Exchange::Done { outcome } => ExchangeView::Done { outcome: outcome@ },
        }
    }
}

/// The content type of a diagnostic, and of anything not otherwise typed.
pub open spec fn plain_text() -> Seq<char> {
    "text/plain"@
}

/// The address of `host` on the protocol's port.
pub open spec fn address_of(host: Seq<char>) -> Seq<char> {
    host + ":1965"@
}

/// A diagnostic's text: what happened, where, and on the next line why.
pub open spec fn report(what: Seq<char>, location: Seq<char>, cause: Seq<char>) -> Seq<char> {
    what + location + "\n"@ + cause
}

/// The outcome of a request that failed: plain text about `location`.
pub open spec fn diagnostic(location: Seq<char>, body: Seq<char>) -> OutcomeView {
    OutcomeView { final_location: location, content_type: plain_text(), body }
}

/// The outcome after the server could not be reached.
pub open spec fn connect_failure(location: Seq<char>, detail: Seq<char>) -> OutcomeView {
    diagnostic(location, report("Could connect to server: "@, location, detail))
}

/// The outcome after the secure session could not be set up.
pub open spec fn tls_failure(location: Seq<char>, detail: Seq<char>) -> OutcomeView {
    diagnostic(location, report("Could not get TLS certificate for URL "@, location, detail))
}

/// The outcome after the request could not be written.
pub open spec fn write_failure(location: Seq<char>, detail: Seq<char>) -> OutcomeView {
    diagnostic(location, report("Error writing to socket: "@, location, detail))
}

/// The outcome after the response could not be read.
pub open spec fn read_failure(location: Seq<char>, detail: Seq<char>) -> OutcomeView {
    diagnostic(location, report("Error reading from socket: "@, location, detail))
}

/// The outcome of a response without a status line.
pub open spec fn framing_failure(location: Seq<char>) -> OutcomeView {
    diagnostic(location, "Invalid response from server loading URL: "@ + location)
}

/// The outcome of a response whose status is not a success.
pub open spec fn status_failure(location: Seq<char>, status: StatusView) -> OutcomeView {
    diagnostic(
        location,
        report("Unexpected response from server loading URL: "@, location, status_text(status)),
    )
}

/// Why a location could not be resolved, in words; `detail` is the
/// parser's message, where the parser refused.
pub open spec fn resolution_cause(kind: ResolutionFailure, detail: Seq<char>) -> Seq<char> {
    match kind {
        ResolutionFailure::MalformedBase => "malformed base location: "@ + detail,
        ResolutionFailure::MalformedTarget => "malformed location: "@ + detail,
        ResolutionFailure::MissingHost => "no host"@,
    }
}

/// The outcome after `target` could not be resolved.
pub open spec fn resolution_failure(
    target: Seq<char>,
    kind: ResolutionFailure,
    detail: Seq<char>,
) -> OutcomeView {
    diagnostic(target, report("Could not resolve URL: "@, target, resolution_cause(kind, detail)))
}

/// The outcome of a response with the decoded text `text`: the content
/// where the status line says success, with the meta text as its type,
/// else a diagnostic.
pub open spec fn response_outcome(location: Seq<char>, text: Seq<char>) -> OutcomeView {
    match split_at_crlf(text) {
        Some((header, body)) => match classify(header) {
            StatusView::Success(_, meta) => OutcomeView {
                final_location: location,
                content_type: meta,
                body,
            },
            status => status_failure(location, status),
        },
        None => framing_failure(location),
    }
}

/// Where a request starts once its target is resolved or refused: at
/// connecting to the location's host, or done with a diagnostic about the
/// target.
pub open spec fn begun(
    resolution: Result<LocationView, (ResolutionFailure, Seq<char>)>,
    target: Seq<char>,
    policy: CertificatePolicy,
) -> ExchangeView {
    match resolution {
        Ok(location) => match location.host {
            Some(host) => ExchangeView::Connecting { location: location.text, host, policy },
            None => ExchangeView::Done {
                outcome: resolution_failure(target, ResolutionFailure::MissingHost, Seq::empty()),
            },
        },
        Err((kind, detail)) => ExchangeView::Done {
            outcome: resolution_failure(target, kind, detail),
        },
    }
}

/// Whether `state` is where a request for `target`, seen from `base`,
/// starts: where [`begun`] puts it for the location that the target
/// resolves to, or, where it does not resolve, for the kind of the failure
/// and some message of the parser's.
pub open spec fn starts(
    base: Seq<char>,
    target: Seq<char>,
    policy: CertificatePolicy,
    state: ExchangeView,
) -> bool {
    match resolved(base, target) {
        Ok(location) => state == begun(
            Ok::<LocationView, (ResolutionFailure, Seq<char>)>(location),
            target,
            policy,
        ),
        Err(kind) => exists|detail: Seq<char>|
            state == #[trigger] begun(
                Err::<LocationView, (ResolutionFailure, Seq<char>)>((kind, detail)),
                target,
                policy,
            ),
    }
}

/// What the caller is to do in `state`.
pub open spec fn action_of(state: ExchangeView) -> ActionView {
    match state {
        ExchangeView::Connecting { host, .. } => ActionView::Connect { address: address_of(host) },
        ExchangeView::Securing { host, policy, .. } => ActionView::Secure {
            server_name: host,
            accept_invalid_certs: policy == CertificatePolicy::AcceptAny,
        },
        ExchangeView::Sending { location } => ActionView::Send {
            bytes: encode_utf8(request_text(location)),
        },
        ExchangeView::Receiving { .. } => ActionView::Receive,
        ExchangeView::Done { .. } => ActionView::Finish,
    }
}

/// The state after `event` in `state`. Each state awaits the result of
/// its own action: its success leads one state on, its failure to done.
/// Any other event leaves the state as it is.
pub open spec fn next(state: ExchangeView, event: EventView) -> ExchangeView {
    match state {
        ExchangeView::Connecting { location, host, policy } => match event {
            EventView::Connected => ExchangeView::Securing { location, host, policy },
            EventView::ConnectFailed(detail) => ExchangeView::Done {
                outcome: connect_failure(location, detail),
            },
            _ => state,
        },
        ExchangeView::Securing { location, host, policy } => match event {
            EventView::Secured => ExchangeView::Sending { location },
            EventView::TlsFailed(detail) => ExchangeView::Done {
                outcome: tls_failure(location, detail),
            },
            _ => state,
        },
        ExchangeView::Sending { location } => match event {
            EventView::Sent => ExchangeView::Receiving { location },
            EventView::WriteFailed(detail) => ExchangeView::Done {
                outcome: write_failure(location, detail),
            },
            _ => state,
        },
        ExchangeView::Receiving { location } => match event {
            EventView::Received(bytes) => ExchangeView::Done {
                outcome: response_outcome(location, decoded(bytes)),
            },
            EventView::ReadFailed(detail) => ExchangeView::Done {
                outcome: read_failure(location, detail),
            },
            _ => state,
        },
        ExchangeView::Done { .. } => state,
    }
}

/// The location that a request in `state` is about.
pub open spec fn location_of(state: ExchangeView) -> Seq<char> {
    match state {
        ExchangeView::Connecting { location, .. } => location,
        ExchangeView::Securing { location, .. } => location,
        ExchangeView::Sending { location } => location,
        ExchangeView::Receiving { location } => location,
        ExchangeView::Done { outcome } => outcome.final_location,
    }
}

/// The view of a resolution as [`begun`] takes it.
pub open spec fn resolution_view(resolution: Result<ResourceLocation, ResolutionError>) -> Result<
    LocationView,
    (ResolutionFailure, Seq<char>),
> {
    match resolution {
        Ok(location) => Ok(location@),
        Err(e) => Err((e.kind(), e.detail())),
    }
}

/// Writes a diagnostic's text.
fn report_text(what: &str, location: &str, cause: &str) -> (r: String)
    ensures
        r@ == report(what@, location@, cause@),
{
    let mut r: String = String::from_str(what);
    r.append(location);
    r.append("\n");
    r.append(cause);
    r
}

/// Makes the outcome of a request that failed.
fn diagnose(location: &str, body: String) -> (r: ResponseOutcome)
    ensures
        r@ == diagnostic(location@, body@),
{
    ResponseOutcome {
        final_location: String::from_str(location),
        content_type: String::from_str("text/plain"),
        body,
    }
}

/// Writes out why a location could not be resolved.
fn cause_text(error: &ResolutionError) -> (r: String)
    ensures
        r@ == resolution_cause(error.kind(), error.detail()),
{
    match error {
        ResolutionError::MalformedBase(detail) => {
            let mut r: String = String::from_str("malformed base location: ");
            r.append(detail.as_str());
            r
        },
        ResolutionError::MalformedTarget(detail) => {
            let mut r: String = String::from_str("malformed location: ");
            r.append(detail.as_str());
            r
        },
        ResolutionError::MissingHost => String::from_str("no host"),
    }
}

/// Turns a decoded response into the outcome of the request for
/// `location`.
pub fn respond(location: &str, text: &str) -> (r: ResponseOutcome)
    ensures
        r@ == response_outcome(location@, text@),
{
    match split_response(text) {
        Ok(parts) => {
            let status: GeminiStatus<'_> = GeminiStatus::from_response(parts.0);
            match status {
                GeminiStatus::Success(_, meta) => ResponseOutcome {
                    final_location: String::from_str(location),
                    content_type: String::from_str(meta),
                    body: String::from_str(parts.1),
                },
                _ => {
                    let described: String = status.describe();
                    diagnose(
                        location,
                        report_text(
                            "Unexpected response from server loading URL: ",
                            location,
                            described.as_str(),
                        ),
                    )
                },
            }
        },
        Err(_) => {
            let mut body: String = String::from_str("Invalid response from server loading URL: ");
            body.append(location);
            diagnose(location, body)
        },
    }
}

impl Exchange {
    /// Starts a request for `target` once it is resolved or refused.
    pub fn begin(
        resolution: Result<ResourceLocation, ResolutionError>,
        target: &str,
        policy: CertificatePolicy,
    ) -> (r: Exchange)
        ensures
            r@ == begun(resolution_view(resolution), target@, policy),
    {
        match resolution {
            Ok(location) => match location.host() {
                Some(host) => Exchange::Connecting {
                    location: String::from_str(location.text()),
                    host: String::from_str(host),
                    policy,
                },
                None => {
                    let cause: String = cause_text(&ResolutionError::MissingHost);
                    Exchange::Done {
                        outcome: diagnose(
                            target,
                            report_text("Could not resolve URL: ", target, cause.as_str()),
                        ),
                    }
                },
            },
            Err(e) => {
                let cause: String = cause_text(&e);
                Exchange::Done {
                    outcome: diagnose(
                        target,
                        report_text("Could not resolve URL: ", target, cause.as_str()),
                    ),
                }
            },
        }
    }

    /// Starts a request for `target`, seen from `base`; an empty base
    /// means that there is none. A target that resolves leads to
    /// connecting to its host; one that does not ends the request at once,
    /// with a diagnostic that carries the parser's message.
    pub fn start(base: &str, target: &str, policy: CertificatePolicy) -> (r: Exchange)
        ensures
            starts(base@, target@, policy, r@),
    {
        let resolution: Result<ResourceLocation, ResolutionError> = resolve(base, target);
        let ghost seen = resolution_view(resolution);
        let r: Exchange = Exchange::begin(resolution, target, policy);
        proof {
            if let Err((kind, detail)) = seen {
                assert(r@ == begun(
                    Err::<LocationView, (ResolutionFailure, Seq<char>)>((kind, detail)),
                    target@,
                    policy,
                ));
            }
        }
        r
    }

    /// What the caller is to do next.
    pub fn action(&self) -> (r: Action)
        ensures
            r@ == action_of(self@),
    {
        match self {
            Exchange::Connecting { host, .. } => {
                let mut address: String = String::from_str(host.as_str());
                address.append(":1965");
                Action::Connect { address }
            },
            Exchange::Securing { host, policy, .. } => Action::Secure {
                server_name: String::from_str(host.as_str()),
                accept_invalid_certs: *policy == CertificatePolicy::AcceptAny,
            },
            Exchange::Sending { location } => Action::Send {
                bytes: request_line(location.as_str()),
            },
            Exchange::Receiving { .. } => Action::Receive,
            Exchange::Done { .. } => Action::Finish,
        }
    }

    /// Takes the result of the last action and moves on.
    pub fn step(self, event: Event) -> (r: Exchange)
        ensures
            r@ == next(self@, event@),
    {
        match self {
            Exchange::Connecting { location, host, policy } => match event {
                Event::Connected => Exchange::Securing { location, host, policy },
                Event::TransportFailed(TransportError::Connect(detail)) => {
                    let body: String = report_text(
                        "Could connect to server: ",
                        location.as_str(),
                        detail.as_str(),
                    );
                    Exchange::Done { outcome: diagnose(location.as_str(), body) }
                },
                _ => Exchange::Connecting { location, host, policy },
            },
            Exchange::Securing { location, host, policy } => match event {
                Event::Secured => Exchange::Sending { location },
                Event::TransportFailed(TransportError::Tls(detail)) => {
                    let body: String = report_text(
                        "Could not get TLS certificate for URL ",
                        location.as_str(),
                        detail.as_str(),
                    );
                    Exchange::Done { outcome: diagnose(location.as_str(), body) }
                },
                _ => Exchange::Securing { location, host, policy },
            },
            Exchange::Sending { location } => match event {
                Event::Sent => Exchange::Receiving { location },
                Event::CodecFailed(CodecError::Write(detail)) => {
                    let body: String = report_text(
                        "Error writing to socket: ",
                        location.as_str(),
                        detail.as_str(),
                    );
                    Exchange::Done { outcome: diagnose(location.as_str(), body) }
                },
                _ => Exchange::Sending { location },
            },
            Exchange::Receiving { location } => match event {
                Event::Received(bytes) => {
                    let text: String = decode(bytes.as_slice());
                    Exchange::Done { outcome: respond(location.as_str(), text.as_str()) }
                },
                Event::CodecFailed(CodecError::Read(detail)) => {
                    let body: String = report_text(
                        "Error reading from socket: ",
                        location.as_str(),
                        detail.as_str(),
                    );
                    Exchange::Done { outcome: diagnose(location.as_str(), body) }
                },
                _ => Exchange::Receiving { location },
            },
            Exchange::Done { outcome } => Exchange::Done { outcome },
        }
    }

    /// The outcome, once the request is done.
    pub fn into_outcome(self) -> (r: Option<ResponseOutcome>)
        ensures
            match r {
                Some(outcome) => self@ == (ExchangeView::Done { outcome: outcome@ }),
                None => !(self@ is Done),
            },
    {
        match self {
            Exchange::Done { outcome } => Some(outcome),
            _ => None,
        }
    }
}

/// Starts a request for `url`, seen from `base`; an empty base means that
/// there is none. Any certificate will be accepted. The caller does what
/// the request asks for, step by step, until it is done, and then takes
/// the outcome.
pub fn request(base: &str, url: &str) -> (r: Exchange)
    ensures
        starts(base@, url@, CertificatePolicy::AcceptAny, r@),
{
    Exchange::start(base, url, CertificatePolicy::AcceptAny)
}

/// How far a request has come: each step takes it one state on, and done
/// is the last.
pub open spec fn progress(state: ExchangeView) -> nat {
    match state {
        ExchangeView::Connecting { .. } => 0,
        ExchangeView::Securing { .. } => 1,
        ExchangeView::Sending { .. } => 2,
        ExchangeView::Receiving { .. } => 3,
        ExchangeView::Done { .. } => 4,
    }
}

/// A request moves forward only: an event leaves the state as it is,
/// takes it to the state that follows, or ends the request; and nothing
/// changes a request that is done.
pub proof fn lemma_moves_forward(state: ExchangeView, event: EventView)
    ensures
        next(state, event) == state || progress(next(state, event)) == progress(state) + 1 || next(
            state,
            event,
        ) is Done,
        progress(next(state, event)) >= progress(state),
        state is Done ==> next(state, event) == state,
{
}

/// A request is about one location from its start to its outcome: the
/// outcome names the location that the request was started for, whatever
/// happened on the way.
pub proof fn lemma_keeps_location(state: ExchangeView, event: EventView)
    ensures
        location_of(next(state, event)) == location_of(state),
{
}

/// Whatever ends a request leaves an outcome; an outcome that is no
/// content of a successful response is plain text.
pub proof fn lemma_failures_are_plain_text(state: ExchangeView, event: EventView)
    requires
        !(state is Done),
        next(state, event) is Done,
    ensures
        !(event is Received) ==> next(state, event)->outcome.content_type == plain_text(),
        event matches EventView::Received(bytes) ==> {
            ||| next(state, event)->outcome.content_type == plain_text()
            ||| (split_at_crlf(decoded(bytes)) matches Some((header, body)) && classify(header)
                matches StatusView::Success(_, meta) && next(state, event)->outcome == (
            OutcomeView { final_location: location_of(state), content_type: meta, body }))
        },
{
}

/// A response without a line end has no status line: its outcome is a
/// diagnostic, plain text with a body that is not empty.
pub proof fn lemma_missing_line_end(location: Seq<char>, text: Seq<char>)
    requires
        !contains(text, crlf()),
    ensures
        split_at_crlf(text) is None,
        response_outcome(location, text) == framing_failure(location),
        response_outcome(location, text).content_type == plain_text(),
        response_outcome(location, text).body.len() > 0,
{
    reveal_strlit("Invalid response from server loading URL: ");
}

/// The same, seen from a request that receives such a response.
pub proof fn lemma_unframed_response(location: Seq<char>, bytes: Seq<u8>)
    requires
        !contains(decoded(bytes), crlf()),
    ensures
        next(ExchangeView::Receiving { location }, EventView::Received(bytes)) == (
        ExchangeView::Done { outcome: framing_failure(location) }),
        framing_failure(location).content_type == plain_text(),
        framing_failure(location).body.len() > 0,
{
    lemma_missing_line_end(location, decoded(bytes));
}

/// A response whose status line says success hands its body back
/// unchanged, with the status line's meta text as the content type.
pub proof fn lemma_success_outcome(location: Seq<char>, header: Seq<char>, body: Seq<char>)
    requires
        !contains(header, crlf()),
        classify(header) is Success,
    ensures
        response_outcome(location, header + crlf() + body) == (OutcomeView {
            final_location: location,
            content_type: status_meta(header),
            body,
        }),
{
    lemma_split_joined(header, body);
}

/// A success response of type `text/plain` comes back as it was sent: the
/// content type is `text/plain` and the body is the body, whatever it
/// holds. This holds of the decoded text, and of the bytes of any text as
/// well.
pub proof fn lemma_plain_text_round_trip(location: Seq<char>, body: Seq<char>)
    ensures
        response_outcome(location, "20 text/plain\r\n"@ + body) == (OutcomeView {
            final_location: location,
            content_type: "text/plain"@,
            body,
        }),
        next(
            ExchangeView::Receiving { location },
            EventView::Received(encode_utf8("20 text/plain\r\n"@ + body)),
        ) == (ExchangeView::Done {
            outcome: OutcomeView { final_location: location, content_type: "text/plain"@, body },
        }),
{
    reveal_strlit("20 text/plain\r\n");
    reveal_strlit("text/plain");
    let header = seq!['2', '0', ' ', 't', 'e', 'x', 't', '/', 'p', 'l', 'a', 'i', 'n'];
    let text = "20 text/plain\r\n"@ + body;
    assert(text =~= header + crlf() + body);
    assert forall|j: int| !occurs_at(header, crlf(), j) by {
        if occurs_at(header, crlf(), j) {
            assert(header.subrange(j, j + 2)[0] == '\r');
        }
    }
    let rest = header.skip(2);
    assert(rest.drop_first() =~= "text/plain"@);
    assert(trim_start(rest) == trim_start(rest.drop_first()));
    assert(trim_start("text/plain"@) == "text/plain"@);
    assert(trim_end("text/plain"@) == "text/plain"@);
    assert(status_meta(header) == "text/plain"@);
    lemma_success_outcome(location, header, body);
    encode_utf8_valid_utf8(text);
    encode_utf8_decode_utf8(text);
}

/// A diagnostic names the location and gives the cause: both stand in its
/// text as they were handed in.
pub proof fn lemma_report_names_location_and_cause(
    what: Seq<char>,
    location: Seq<char>,
    cause: Seq<char>,
)
    ensures
        contains(report(what, location, cause), location),
        contains(report(what, location, cause), cause),
        contains(framing_failure(location).body, location),
{
    let text = report(what, location, cause);
    let at = what.len() as int;
    assert(text.subrange(at, at + location.len()) =~= location);
    assert(occurs_at(text, location, at));
    let end = text.len() as int;
    assert(text.subrange(end - cause.len(), end) =~= cause);
    assert(occurs_at(text, cause, end - cause.len()));
    let framing = framing_failure(location).body;
    let from = framing.len() - location.len();
    assert(framing.subrange(from, from + location.len()) =~= location);
    assert(occurs_at(framing, location, from));
}

} // verus!
