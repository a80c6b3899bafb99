//! One HTTP exchange through the proxy, as the decisions between the steps
//! of its transport: what to do first, and what to do after each thing the
//! transport reports.

use crate::deadline::Deadline;
use crate::decimal::{decimal_text, write_unsigned};
use crate::headers::Headers;
use crate::request::{fields_of_headers, frame_request, request_text, text_of_body};
use crate::response::{
    declares_length, header_end, is_head, law_declared_length_decides, lemma_blank_line,
    lemma_headers_need_bytes, parsed, response_complete, AssemblerState, ResponseAssembler,
};
use crate::target::{address, locate, located, write_address, Target, TargetView};
use crate::tunnel::{
    classify_failure, failure_name, failure_of, is_transient, kind_is_transient, name_of_failure,
    IoReport,
};
use vstd::prelude::*;
use vstd::string::StringExecFns;
use vstd::utf8::encode_utf8;

verus! {

/// The time given to a request that names none, in milliseconds.
pub const DEFAULT_TIMEOUT_MS: u64 = 30000;

/// The time given to one read or one write on the tunnel, in milliseconds.
pub const IO_TIMEOUT_MS: u64 = 5000;

/// The most bytes asked of the tunnel in one read.
pub const READ_SIZE: usize = 4096;

/// The request methods the client sends.
#[derive(Debug, Clone, Copy, PartialEq, Eq)]
pub enum HttpMethod {
    GET,
    POST,
    PUT,
    DELETE,
    HEAD,
    OPTIONS,
}

/// What an exchange came to. A status code of zero says that no response
/// was obtained.
#[derive(Debug, Clone, PartialEq, Eq)]
pub struct HttpResponse {
    pub status_code: u16,
    pub body: String,
    pub error: Option<String>,
}

/// An `HttpResponse` as plain values.
pub struct HttpResponseView {
    pub status_code: u16,
    pub body: Seq<char>,
    pub error: Option<Seq<char>>,
}

impl View for HttpResponse {
    type V = HttpResponseView;

    open spec fn view(&self) -> HttpResponseView {
        HttpResponseView {
            status_code: self.status_code,
            body: self.body@,
            error: match self.error {
                Some(e) => Some(e@),
                None => None,
            },
        }
    }
}

/// A request: where it goes, what it asks, and how long it may take.
#[derive(Debug)]
pub struct HttpRequestParams {
    pub url: String,
    pub method: HttpMethod,
    pub headers: Option<Headers>,
    pub body: Option<String>,
    pub timeout_ms: Option<u64>,
}

/// How far an exchange has come.
#[derive(Debug, Clone, Copy, PartialEq, Eq)]
pub enum Phase {
    /// The tunnel is being opened.
    Connecting,
    /// The request is being written.
    Sending,
    /// The response is being read.
    Receiving,
    /// The exchange has come to its response.
    Finished,
}

/// What the transport reports after a step.
#[derive(Debug)]
pub enum Event {
    /// The tunnel is open.
    Connected,
    /// No tunnel was opened.
    ConnectFailed(IoReport),
    /// The request was written and flushed.
    Sent,
    /// Writing the request failed.
    SendFailed(IoReport),
    /// A read returned these bytes; none if the peer closed the connection.
    Read(Vec<u8>),
    /// A read failed.
    ReadFailed(IoReport),
    /// The time given to the request ran out while a step was under way.
    DeadlinePassed,
}

/// What the transport is to do next.
#[derive(Debug)]
pub enum Directive {
    /// Open a tunnel through `proxy` to `target`, and give each read and
    /// each write on it `io_timeout_ms`.
    Connect { proxy: String, target: String, io_timeout_ms: u64 },
    /// Write these bytes, all of them, and flush.
    Send(Vec<u8>),
    /// Read once, at most `READ_SIZE` bytes.
    Receive,
    /// Stop: this is the response.
    Finish(HttpResponse),
}

/// A `Directive` as plain values.
pub enum DirectiveView {
    Connect { proxy: Seq<char>, target: Seq<char>, io_timeout_ms: u64 },
    Send(Seq<u8>),
    Receive,
    Finish(HttpResponseView),
}

impl View for Directive {
    type V = DirectiveView;

    open spec fn view(&self) -> DirectiveView {
        match *self {
            Directive::Connect { proxy, target, io_timeout_ms } => DirectiveView::Connect {
                proxy: proxy@,
                target: target@,
                io_timeout_ms,
            },
            Directive::Send(bytes) => DirectiveView::Send(bytes@),
            Directive::Receive => DirectiveView::Receive,
            Directive::Finish(response) => DirectiveView::Finish(response@),
        }
    }
}

/// An exchange under way.
pub struct Exchange {
    phase: Phase,
    deadline: Deadline,
    secure: bool,
    request: Vec<u8>,
    assembler: ResponseAssembler,
}

/// An `Exchange` as plain values.
pub struct ExchangeView {
    pub phase: Phase,
    /// The deadline of the whole exchange.
    pub deadline: Deadline,
    /// Whether the URL asked for the encrypted scheme.
    pub secure: bool,
    /// The framed request.
    pub request: Seq<u8>,
    /// The bytes of the response received so far.
    pub received: Seq<u8>,
}

impl View for Exchange {
    type V = ExchangeView;

    closed spec fn view(&self) -> ExchangeView {
        ExchangeView {
            phase: self.phase,
            deadline: self.deadline,
            secure: self.secure,
            request: self.request@,
            received: self.assembler@,
        }
    }
}

/// The response of an exchange that obtained none, with the reason.
pub open spec fn failure(message: Seq<char>) -> HttpResponseView {
    HttpResponseView { status_code: 0, body: Seq::empty(), error: Some(message) }
}

/// The error text of a step that ran into the deadline.
pub open spec fn timed_out_text() -> Seq<char> {
    "Operation timed out"@
}

/// The error text of an exchange whose time ran out while a step was under
/// way.
pub open spec fn deadline_text(timeout_ms: u64) -> Seq<char> {
    "Request timed out after "@ + decimal_text(timeout_ms as nat) + " ms"@
}

/// The error text of a tunnel that was not opened.
pub open spec fn tunnel_text(report: IoReport) -> Seq<char> {
    failure_name(failure_of(report.kind, report.message@)) + ": "@ + report.message@
}

/// The time that a request is given.
pub open spec fn timeout_of(params: &HttpRequestParams) -> u64 {
    match params.timeout_ms {
        Some(t) => t,
        None => DEFAULT_TIMEOUT_MS,
    }
}

/// The bytes that `params` are framed as for `target`.
pub open spec fn framed(params: &HttpRequestParams, target: TargetView) -> Seq<u8> {
    encode_utf8(
        request_text(
            params.method,
            target.path,
            target.host,
            fields_of_headers(params.headers),
            text_of_body(params.body),
        ),
    )
}

/// The exchange and the first directive for a request whose URL was read as
/// `target`: with a target, the order to open the tunnel; without one, the
/// end of the exchange with the error in its response.
pub open spec fn started(
    params: &HttpRequestParams,
    proxy: Seq<char>,
    now_ms: u64,
    target: Result<TargetView, Seq<char>>,
) -> (ExchangeView, DirectiveView) {
    let deadline = Deadline { started_ms: now_ms, duration_ms: timeout_of(params) };
    match target {
        Ok(t) => (
            ExchangeView {
                phase: Phase::Connecting,
                deadline,
                secure: t.secure,
                request: framed(params, t),
                received: Seq::empty(),
            },
            DirectiveView::Connect { proxy, target: address(t), io_timeout_ms: IO_TIMEOUT_MS },
        ),
        Err(message) => (
            ExchangeView {
                phase: Phase::Finished,
                deadline,
                secure: false,
                request: Seq::empty(),
                received: Seq::empty(),
            },
            DirectiveView::Finish(failure("Invalid URL: "@ + message)),
        ),
    }
}

/// The end of an exchange with `response`.
pub open spec fn finish(state: ExchangeView, response: HttpResponseView) -> (
    ExchangeView,
    DirectiveView,
) {
    (ExchangeView { phase: Phase::Finished, ..state }, DirectiveView::Finish(response))
}

/// The end of an exchange whose reading is over: what was received, read as
/// a response; a timeout where nothing was received and the deadline has
/// passed.
pub open spec fn wrap_up(state: ExchangeView, now_ms: u64) -> (ExchangeView, DirectiveView) {
    if state.deadline.spec_expired(now_ms) && state.received.len() == 0 {
        finish(state, failure(timed_out_text()))
    } else {
        finish(state, parsed(state.received))
    }
}

/// What follows an event while the tunnel is being opened. With the tunnel
/// open, a URL of the encrypted scheme ends the exchange, since the client
/// does not speak it; so does a deadline that has passed; otherwise the
/// request is to be written.
pub open spec fn after_connect(state: ExchangeView, event: Event, now_ms: u64) -> (
    ExchangeView,
    DirectiveView,
) {
    match event {
        Event::Connected => if state.secure {
            finish(state, failure("HTTPS not implemented in this basic version"@))
        } else if state.deadline.spec_expired(now_ms) {
            finish(state, failure(timed_out_text()))
        } else {
            (ExchangeView { phase: Phase::Sending, ..state }, DirectiveView::Send(state.request))
        },
        Event::ConnectFailed(report) => finish(state, failure(tunnel_text(report))),
        _ => finish(state, failure("Unexpected event"@)),
    }
}

/// What follows an event while the request is being written.
pub open spec fn after_send(state: ExchangeView, event: Event, now_ms: u64) -> (
    ExchangeView,
    DirectiveView,
) {
    match event {
        Event::Sent => if state.deadline.spec_expired(now_ms) {
            finish(state, failure(timed_out_text()))
        } else {
            (ExchangeView { phase: Phase::Receiving, ..state }, DirectiveView::Receive)
        },
        Event::SendFailed(report) => finish(state, failure("Write failed: "@ + report.message@)),
        _ => finish(state, failure("Unexpected event"@)),
    }
}

/// What follows an event while the response is being read.
///
/// Bytes are added to what was received; the exchange ends if the response
/// is whole with them or the deadline has passed, and reads on otherwise. A
/// read without bytes ends it. A read that ran out of time ends it if the
/// header block has been received or the deadline has passed, and is
/// repeated otherwise. Any other failed read ends it with the error.
pub open spec fn after_read(state: ExchangeView, event: Event, now_ms: u64) -> (
    ExchangeView,
    DirectiveView,
) {
    match event {
        Event::Read(chunk) => if chunk@.len() == 0 {
            wrap_up(state, now_ms)
        } else {
            let grown = ExchangeView { received: state.received + chunk@, ..state };
            if response_complete(grown.received) || state.deadline.spec_expired(now_ms) {
                finish(grown, parsed(grown.received))
            } else {
                (grown, DirectiveView::Receive)
            }
        },
        Event::ReadFailed(report) => if is_transient(report.kind) {
            if header_end(state.received) is Some {
                finish(state, parsed(state.received))
            } else if state.deadline.spec_expired(now_ms) {
                wrap_up(state, now_ms)
            } else {
                (state, DirectiveView::Receive)
            }
        } else {
            finish(state, failure("Read failed: "@ + report.message@))
        },
        _ => finish(state, failure("Unexpected event"@)),
    }
}

/// The state after `event`, reported at `now_ms`, and the directive that
/// follows it. Time that ran out while a step was under way ends the
/// exchange in any phase. A finished exchange stays finished.
pub open spec fn advanced(state: ExchangeView, event: Event, now_ms: u64) -> (
    ExchangeView,
    DirectiveView,
) {
    if event is DeadlinePassed {
        finish(state, failure(deadline_text(state.deadline.duration_ms)))
    } else {
        match state.phase {
            Phase::Connecting => after_connect(state, event, now_ms),
            Phase::Sending => after_send(state, event, now_ms),
            Phase::Receiving => after_read(state, event, now_ms),
            Phase::Finished => finish(state, failure("Unexpected event"@)),
        }
    }
}

/// Once the deadline has passed, every event ends the exchange: no further
/// step is asked of the transport.
pub proof fn law_deadline_ends_exchange(state: ExchangeView, event: Event, now_ms: u64)
    requires
        state.deadline.spec_expired(now_ms),
    ensures
        advanced(state, event, now_ms).0.phase == Phase::Finished,
        advanced(state, event, now_ms).1 is Finish,
{
}

/// Whether `event` brings neither bytes nor an error of its own.
pub open spec fn is_idle(event: Event) -> bool {
    match event {
        Event::Connected => true,
        Event::Sent => true,
        Event::Read(chunk) => chunk@.len() == 0,
        Event::ReadFailed(report) => is_transient(report.kind),
        Event::DeadlinePassed => true,
        _ => false,
    }
}

/// Whether `event` is one that the transport reports in `phase`.
pub open spec fn fits(phase: Phase, event: Event) -> bool {
    match event {
        Event::Connected => phase == Phase::Connecting,
        Event::ConnectFailed(_) => phase == Phase::Connecting,
        Event::Sent => phase == Phase::Sending,
        Event::SendFailed(_) => phase == Phase::Sending,
        Event::Read(_) => phase == Phase::Receiving,
        Event::ReadFailed(_) => phase == Phase::Receiving,
        Event::DeadlinePassed => true,
    }
}

/// An exchange for the unencrypted scheme that has received nothing when
/// its deadline has passed ends with status zero and a timeout as its
/// error.
pub proof fn law_deadline_without_response(state: ExchangeView, event: Event, now_ms: u64)
    requires
        state.deadline.spec_expired(now_ms) || event is DeadlinePassed,
        state.received.len() == 0,
        !state.secure,
        fits(state.phase, event),
        is_idle(event),
    ensures
        advanced(state, event, now_ms).1 matches DirectiveView::Finish(response) && {
            &&& response.status_code == 0
            &&& response.body.len() == 0
            &&& (response.error == Some(timed_out_text()) || response.error == Some(
                deadline_text(state.deadline.duration_ms),
            ))
        },
{
    lemma_headers_need_bytes(state.received);
}

/// While the deadline has not passed, a read that brings bytes ends the
/// exchange exactly when the response is whole with them, and the response
/// is then all that was received, read as a response.
pub proof fn law_read_ends_when_whole(state: ExchangeView, chunk: Vec<u8>, now_ms: u64)
    requires
        state.phase == Phase::Receiving,
        !state.deadline.spec_expired(now_ms),
        chunk@.len() > 0,
    ensures
        advanced(state, Event::Read(chunk), now_ms).1 is Finish <==> response_complete(
            state.received + chunk@,
        ),
        response_complete(state.received + chunk@) ==> advanced(
            state,
            Event::Read(chunk),
            now_ms,
        ).1 == DirectiveView::Finish(parsed(state.received + chunk@)),
        !response_complete(state.received + chunk@) ==> advanced(
            state,
            Event::Read(chunk),
            now_ms,
        ).1 is Receive,
{
}

/// The bytes of `chunks`, one chunk after another.
pub open spec fn joined(chunks: Seq<Vec<u8>>) -> Seq<u8>
    decreases chunks.len(),
{
    if chunks.len() == 0 {
        Seq::empty()
    } else {
        joined(chunks.drop_last()) + chunks.last()@
    }
}

/// The state after reads that returned `chunks`, the read at index `i`
/// reported at `times[i]`, and the directive after the last of them.
pub open spec fn after_reads(state: ExchangeView, chunks: Seq<Vec<u8>>, times: Seq<u64>) -> (
    ExchangeView,
    DirectiveView,
)
    decreases chunks.len(),
{
    if chunks.len() == 0 {
        (state, DirectiveView::Receive)
    } else {
        advanced(
            after_reads(state, chunks.drop_last(), times).0,
            Event::Read(chunks.last()),
            times[chunks.len() - 1],
        )
    }
}

/// The first `k` of some chunks, none of them empty, make the beginning of
/// what all of them make, and less than all of it if chunks are left.
proof fn lemma_joined_grows(chunks: Seq<Vec<u8>>, k: int)
    requires
        0 <= k <= chunks.len(),
        forall|i: int| 0 <= i < chunks.len() ==> (#[trigger] chunks[i])@.len() > 0,
    ensures
        joined(chunks.take(k)).len() <= joined(chunks).len(),
        joined(chunks.take(k)) == joined(chunks).take(joined(chunks.take(k)).len() as int),
        k < chunks.len() ==> joined(chunks.take(k)).len() < joined(chunks).len(),
    decreases chunks.len(),
{
    if k == chunks.len() {
        assert(chunks.take(k) =~= chunks);
        assert(joined(chunks) =~= joined(chunks).take(joined(chunks).len() as int));
    } else {
        let front = chunks.drop_last();
        lemma_joined_grows(front, k);
        assert(front.take(k) =~= chunks.take(k));
        assert(chunks.last()@.len() > 0);
        assert(joined(front).take(joined(chunks.take(k)).len() as int) =~= joined(chunks).take(
            joined(chunks.take(k)).len() as int,
        ));
    }
}

/// After the first `k` of the reads of a response, the exchange holds what
/// they returned, and reads on unless they were all.
proof fn lemma_reads_so_far(
    state: ExchangeView,
    head: Seq<u8>,
    body: Seq<u8>,
    chunks: Seq<Vec<u8>>,
    times: Seq<u64>,
    k: int,
)
    requires
        state.phase == Phase::Receiving,
        state.received.len() == 0,
        is_head(head),
        declares_length(head, body.len()),
        times.len() == chunks.len(),
        forall|i: int| 0 <= i < chunks.len() ==> (#[trigger] chunks[i])@.len() > 0,
        forall|i: int| 0 <= i < times.len() ==> !state.deadline.spec_expired(#[trigger] times[i]),
        joined(chunks) == head + body,
        0 <= k < chunks.len(),
    ensures
        after_reads(state, chunks.take(k), times) == (
            ExchangeView { received: joined(chunks.take(k)), ..state },
            DirectiveView::Receive,
        ),
    decreases k,
{
    let whole = head + body;
    if k == 0 {
        assert(chunks.take(0) =~= Seq::<Vec<u8>>::empty());
        assert(state.received =~= Seq::<u8>::empty());
    } else {
        lemma_reads_so_far(state, head, body, chunks, times, k - 1);
        let so_far = chunks.take(k);
        assert(so_far.drop_last() =~= chunks.take(k - 1));
        assert(so_far.last() == chunks[k - 1]);
        lemma_joined_grows(chunks, k);
        law_declared_length_decides(head, body, body.len(), joined(so_far).len() as int);
    }
}

/// A response whose head declares the length of its body, received within
/// the deadline in any number of reads that each return some bytes, is read
/// on after every read but the last, and is the result after the last,
/// wherever the cuts between the reads fall.
pub proof fn law_response_in_many_reads(
    state: ExchangeView,
    head: Seq<u8>,
    body: Seq<u8>,
    chunks: Seq<Vec<u8>>,
    times: Seq<u64>,
)
    requires
        state.phase == Phase::Receiving,
        state.received.len() == 0,
        is_head(head),
        declares_length(head, body.len()),
        times.len() == chunks.len(),
        forall|i: int| 0 <= i < chunks.len() ==> (#[trigger] chunks[i])@.len() > 0,
        forall|i: int| 0 <= i < times.len() ==> !state.deadline.spec_expired(#[trigger] times[i]),
        joined(chunks) == head + body,
    ensures
        forall|k: int|
            0 < k < chunks.len() ==> (#[trigger] after_reads(state, chunks.take(k), times)).1
                is Receive,
        after_reads(state, chunks, times).1 == DirectiveView::Finish(parsed(head + body)),
        after_reads(state, chunks, times).0.phase == Phase::Finished,
{
    lemma_blank_line();
    assert(chunks.len() > 0) by {
        if chunks.len() == 0 {
            lemma_headers_need_bytes(head);
        }
    }
    assert forall|k: int| 0 < k < chunks.len() implies (#[trigger] after_reads(
        state,
        chunks.take(k),
        times,
    )).1 is Receive by {
        lemma_reads_so_far(state, head, body, chunks, times, k);
    }
    let whole = head + body;
    let last = chunks.len() - 1;
    lemma_reads_so_far(state, head, body, chunks, times, last);
    assert(chunks.drop_last() =~= chunks.take(last));
    assert(whole =~= whole.take(whole.len() as int));
    law_declared_length_decides(head, body, body.len(), whole.len() as int);
}

/// The place of a phase in the order of an exchange.
pub open spec fn rank(phase: Phase) -> nat {
    match phase {
        Phase::Connecting => 0,
        Phase::Sending => 1,
        Phase::Receiving => 2,
        Phase::Finished => 3,
    }
}

/// The steps of an exchange come in one order: the tunnel is opened
/// first and once, the request is written only to a tunnel just opened, and
/// reads follow the write or another read. No event takes an exchange back
/// to an earlier phase.
pub proof fn law_steps_in_order(state: ExchangeView, event: Event, now_ms: u64)
    ensures
        rank(advanced(state, event, now_ms).0.phase) >= rank(state.phase),
        !(advanced(state, event, now_ms).1 is Connect),
        advanced(state, event, now_ms).1 is Send ==> state.phase == Phase::Connecting
            && event is Connected && advanced(state, event, now_ms).0.phase == Phase::Sending
            && advanced(state, event, now_ms).1 == DirectiveView::Send(state.request),
        advanced(state, event, now_ms).1 is Receive ==> (state.phase == Phase::Sending
            && event is Sent || state.phase == Phase::Receiving) && advanced(
            state,
            event,
            now_ms,
        ).0.phase == Phase::Receiving,
{
}

/// A finished exchange stays finished, and what it has received stays as
/// it is.
pub proof fn law_finished_stays(state: ExchangeView, event: Event, now_ms: u64)
    requires
        state.phase == Phase::Finished,
    ensures
        advanced(state, event, now_ms).0 == state,
        advanced(state, event, now_ms).1 is Finish,
{
}

/// Nothing that was received is lost or changed by an event: bytes are
/// only added at the end, and only by a read.
pub proof fn law_received_grows(state: ExchangeView, event: Event, now_ms: u64)
    ensures
        advanced(state, event, now_ms).0.received == (match event {
            Event::Read(chunk) => if state.phase == Phase::Receiving {
                state.received + chunk@
            } else {
                state.received
            },
            _ => state.received,
        }),
        advanced(state, event, now_ms).0.request == state.request,
        advanced(state, event, now_ms).0.deadline == state.deadline,
{
    match event {
        Event::Read(chunk) => {
            assert(chunk@.len() == 0 ==> state.received + chunk@ =~= state.received);
        },
        _ => {},
    }
}

/// The response of an exchange that obtained none.
pub fn failed(message: String) -> (r: HttpResponse)
    ensures
        r@ == failure(message@),
{
    HttpResponse { status_code: 0, body: String::new(), error: Some(message) }
}

/// The time that a request is given.
pub fn timeout_for(params: &HttpRequestParams) -> (r: u64)
    ensures
        r == timeout_of(params),
{
    match params.timeout_ms {
        Some(t) => t,
        None => DEFAULT_TIMEOUT_MS,
    }
}

/// Begins the exchange of a request through the proxy at `socks_proxy`, at
/// `now_ms` on a monotonic clock: reads the URL, frames the request, and
/// says what the transport is to do first. The transport then reports each
/// step to `Exchange::advance` until it is told to finish.
pub fn make_http_request(params: &HttpRequestParams, socks_proxy: &str, now_ms: u64) -> (r: (
    Exchange,
    Directive,
))
    ensures
        (r.0@, r.1@) == started(params, socks_proxy@, now_ms, located(params.url@)),
{
    Exchange::begin_with(params, socks_proxy, now_ms, locate(params.url.as_str()))
}

impl Exchange {
    /// How far the exchange has come.
    pub fn phase(&self) -> (r: Phase)
        ensures
            r == self@.phase,
    {
        self.phase
    }

    /// Begins the exchange of a request whose URL was read as `target`, at
    /// `now_ms` on a monotonic clock.
    pub fn begin_with(
        params: &HttpRequestParams,
        socks_proxy: &str,
        now_ms: u64,
        target: Result<Target, String>,
    ) -> (r: (Exchange, Directive))
        ensures
            (r.0@, r.1@) == started(
                params,
                socks_proxy@,
                now_ms,
                match target {
                    Ok(t) => Ok(t@),
                    Err(message) => Err(message@),
                },
            ),
    {
        let deadline = Deadline::starting_at(now_ms, timeout_for(params));
        match target {
            Ok(t) => {
                let request = frame_request(
                    params.method,
                    t.path.as_str(),
                    t.host.as_str(),
                    &params.headers,
                    &params.body,
                );
                let exchange = Exchange {
                    phase: Phase::Connecting,
                    deadline,
                    secure: t.secure,
                    request,
                    assembler: ResponseAssembler::new(),
                };
                let directive = Directive::Connect {
                    proxy: String::from_str(socks_proxy),
                    target: write_address(&t),
                    io_timeout_ms: IO_TIMEOUT_MS,
                };
                (exchange, directive)
            },
            Err(message) => {
                let exchange = Exchange {
                    phase: Phase::Finished,
                    deadline,
                    secure: false,
                    request: Vec::new(),
                    assembler: ResponseAssembler::new(),
                };
                let mut text = String::from_str("Invalid URL: ");
                text.append(message.as_str());
                (exchange, Directive::Finish(failed(text)))
            },
        }
    }

    /// Ends the exchange with `response`.
    fn end(&mut self, response: HttpResponse) -> (r: Directive)
        ensures
            (final(self)@, r@) == finish(old(self)@, response@),
    {
        self.phase = Phase::Finished;
        Directive::Finish(response)
    }

    /// Ends the exchange with `text` as its error.
    fn fail(&mut self, text: &str) -> (r: Directive)
        ensures
            (final(self)@, r@) == finish(old(self)@, failure(text@)),
    {
        self.end(failed(String::from_str(text)))
    }

    /// Ends the exchange with an error text made of `prefix` and `detail`.
    fn fail_about(&mut self, prefix: &str, detail: &str) -> (r: Directive)
        ensures
            (final(self)@, r@) == finish(old(self)@, failure(prefix@ + detail@)),
    {
        let mut text = String::from_str(prefix);
        text.append(detail);
        self.end(failed(text))
    }

    /// Ends the exchange whose reading is over.
    fn conclude(&mut self, now_ms: u64) -> (r: Directive)
        ensures
            (final(self)@, r@) == wrap_up(old(self)@, now_ms),
    {
        if self.deadline.expired(now_ms) && self.assembler.is_empty() {
            self.fail("Operation timed out")
        } else {
            let response = self.assembler.response();
            self.end(response)
        }
    }

    /// Takes in what the transport reports at `now_ms` and says what it is
    /// to do next.
    pub fn advance(&mut self, event: Event, now_ms: u64) -> (r: Directive)
        ensures
            (final(self)@, r@) == advanced(old(self)@, event, now_ms),
    {
        if let Event::DeadlinePassed = event {
            let mut text = String::from_str("Request timed out after ");
            text.append(write_unsigned(self.deadline.duration_ms).as_str());
            text.append(" ms");
            return self.end(failed(text));
        }
        match self.phase {
            Phase::Connecting => match event {
                Event::Connected => {
                    if self.secure {
                        self.fail("HTTPS not implemented in this basic version")
                    } else if self.deadline.expired(now_ms) {
                        self.fail("Operation timed out")
                    } else {
                        self.phase = Phase::Sending;
                        Directive::Send(self.request.clone())
                    }
                },
                Event::ConnectFailed(report) => {
                    let mut text = String::from_str(name_of_failure(classify_failure(&report)));
                    text.append(": ");
                    text.append(report.message.as_str());
                    self.end(failed(text))
                },
                _ => self.fail("Unexpected event"),
            },
            Phase::Sending => match event {
                Event::Sent => {
                    if self.deadline.expired(now_ms) {
                        self.fail("Operation timed out")
                    } else {
                        self.phase = Phase::Receiving;
                        Directive::Receive
                    }
                },
                Event::SendFailed(report) => self.fail_about("Write failed: ", report.message.as_str()),
                _ => self.fail("Unexpected event"),
            },
            Phase::Receiving => match event {
                Event::Read(chunk) => {
                    if chunk.len() == 0 {
                        self.conclude(now_ms)
                    } else {
                        let state = self.assembler.feed(chunk.as_slice());
                        let whole = match state {
                            AssemblerState::Complete => true,
                            _ => false,
                        };
                        if whole || self.deadline.expired(now_ms) {
                            let response = self.assembler.response();
                            self.end(response)
                        } else {
                            Directive::Receive
                        }
                    }
                },
                Event::ReadFailed(report) => {
                    if kind_is_transient(report.kind) {
                        if self.assembler.has_headers() {
                            let response = self.assembler.response();
                            self.end(response)
                        } else if self.deadline.expired(now_ms) {
                            self.conclude(now_ms)
                        } else {
                            Directive::Receive
                        }
                    } else {
                        self.fail_about("Read failed: ", report.message.as_str())
                    }
                },
                _ => self.fail("Unexpected event"),
            },
            Phase::Finished => self.fail("Unexpected event"),
        }
    }
}

} // verus!
