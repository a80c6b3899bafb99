//! The operations offered to foreign callers, on flat values: flags,
//! numbers and strings, every field set on every path.
//!
//! The state that the operations share is a `TorLibrary`, made once by the
//! host and handed to each of them. An operation that needs the service
//! comes in two halves, as in `service`: the host makes the call between
//! them.

use crate::decimal::{decimal_text, write_unsigned};
use crate::headers::{json_fields, Headers};
use crate::http_client::{HttpMethod, HttpRequestParams, HttpResponse};
use crate::request::text_of_body;
use crate::service::{
    initialized, status_of, BootstrapPhase, BootstrapStatus, HiddenServiceOrder, ServiceHandle,
    ServiceHolder, StartFailure, StartOrder,
};
use crate::text::{trim, trimmed};
use vstd::prelude::*;
use vstd::string::StringExecFns;

verus! {

/// What creating a hidden service came to. On failure both texts are
/// empty.
#[derive(Debug, Clone, PartialEq, Eq)]
pub struct HiddenServiceResponse {
    pub is_success: bool,
    pub onion_address: String,
    pub control: String,
}

/// What making sure that a service runs and creating a hidden service on it
/// came to. On failure the address and the control address are empty and
/// the message says which step failed; on success the message is empty.
#[derive(Debug, Clone, PartialEq, Eq)]
pub struct StartTorResponse {
    pub is_success: bool,
    pub onion_address: String,
    pub control: String,
    pub error_message: String,
}

/// A `StartTorResponse` as plain values.
pub struct StartTorResponseView {
    pub is_success: bool,
    pub onion_address: Seq<char>,
    pub control: Seq<char>,
    pub error_message: Seq<char>,
}

impl View for StartTorResponse {
    type V = StartTorResponseView;

    open spec fn view(&self) -> StartTorResponseView {
        StartTorResponseView {
            is_success: self.is_success,
            onion_address: self.onion_address@,
            control: self.control@,
            error_message: self.error_message@,
        }
    }
}

/// What an HTTP request came to. A status code of zero says that no
/// response was obtained; `error` is empty where there is none.
#[derive(Debug, Clone, PartialEq, Eq)]
pub struct CHttpResponse {
    pub status_code: u16,
    pub body: String,
    pub error: String,
}

/// A request ready to be sent, and the proxy to send it through.
#[derive(Debug)]
pub struct PreparedRequest {
    pub params: HttpRequestParams,
    pub socks_proxy: String,
}

/// The state shared by the operations: whether the library has been
/// initialized, and the holder of the service once it has been made.
/// Neither is ever taken back.
pub struct TorLibrary<S> {
    initialized: bool,
    service: Option<ServiceHolder<S>>,
}

/// The slot of a holder that may not have been made yet.
pub open spec fn slot_of<S>(cell: Option<ServiceHolder<S>>) -> Option<ServiceHandle<S>> {
    match cell {
        Some(holder) => holder@,
        None => None,
    }
}

impl<S> TorLibrary<S> {
    /// Whether the library has been initialized.
    pub closed spec fn is_initialized(&self) -> bool {
        self.initialized
    }

    /// Whether the holder of the service has been made.
    pub closed spec fn has_holder(&self) -> bool {
        self.service is Some
    }

    /// The handle of the active service.
    pub closed spec fn slot(&self) -> Option<ServiceHandle<S>> {
        slot_of(self.service)
    }

    /// Whether `self` is initialized exactly if `before` was, and has kept
    /// the holder if `before` had made it.
    pub open spec fn keeps(&self, before: &TorLibrary<S>) -> bool {
        &&& self.is_initialized() == before.is_initialized()
        &&& before.has_holder() ==> self.has_holder()
    }

    /// A library that has not been initialized and has made no holder.
    pub fn new() -> (r: TorLibrary<S>)
        ensures
            !r.is_initialized(),
            !r.has_holder(),
            r.slot() is None,
    {
        TorLibrary { initialized: false, service: None }
    }

    /// The handle of the active service.
    pub fn handle(&self) -> (r: Option<&ServiceHandle<S>>)
        ensures
            match r {
                Some(h) => self.slot() == Some(*h),
                None => self.slot() is None,
            },
    {
        match &self.service {
            Some(holder) => holder.handle(),
            None => None,
        }
    }

    /// The active service, for a call that changes it. The slot goes on
    /// holding that service at the same port and control address.
    pub fn service_mut(&mut self) -> (r: Option<&mut S>)
        ensures
            match r {
                Some(service) => old(self).slot() matches Some(before) && *service
                    == before.service && final(self).slot() == Some(
                    ServiceHandle {
                        socks_port: before.socks_port,
                        control_address: before.control_address,
                        service: *final(service),
                    },
                ),
                None => old(self).slot() is None && final(self).slot() is None,
            },
            final(self).keeps(old(self)),
    {
        match &mut self.service {
            Some(holder) => holder.service_mut(),
            None => None,
        }
    }
}

/// The number by which the status `InProgress` is reported.
pub const STATUS_IN_PROGRESS: i32 = 0;

/// The number by which the status `Ready` is reported.
pub const STATUS_READY: i32 = 1;

/// The number by which the status `Unavailable` is reported.
pub const STATUS_UNAVAILABLE: i32 = 2;

/// The number by which a status is reported.
pub open spec fn status_number(status: BootstrapStatus) -> i32 {
    match status {
        BootstrapStatus::InProgress => STATUS_IN_PROGRESS,
        BootstrapStatus::Ready => STATUS_READY,
        BootstrapStatus::Unavailable => STATUS_UNAVAILABLE,
    }
}

/// The key that a hidden service is pinned to: the one supplied, where the
/// flag says that one is meant and one was supplied.
pub open spec fn selected_key(key: Option<[u8; 64]>, has_key: bool) -> Option<[u8; 64]> {
    if has_key {
        key
    } else {
        None
    }
}

/// Whether `response` reports a failure, with both texts empty.
pub open spec fn is_refusal(response: HiddenServiceResponse) -> bool {
    &&& !response.is_success
    &&& response.onion_address@.len() == 0
    &&& response.control@.len() == 0
}

/// Whether `response` reports no response, with `message` as the error.
pub open spec fn is_failure(response: CHttpResponse, message: Seq<char>) -> bool {
    &&& response.status_code == 0
    &&& response.body@.len() == 0
    &&& response.error@ == message
}

/// The address of the proxy of a service that listens at `port`.
pub open spec fn proxy_address(port: u16) -> Seq<char> {
    "127.0.0.1:"@ + decimal_text(port as nat)
}

/// Whether `prepared` is the request that the arguments ask for, to be
/// sent through the proxy of a service that listens at `port`. An empty
/// body is no body. The headers are not spoken of.
pub open spec fn is_prepared(
    prepared: PreparedRequest,
    url: Seq<char>,
    method: HttpMethod,
    body: Seq<char>,
    timeout_ms: u64,
    port: u16,
) -> bool {
    &&& prepared.params.url@ == url
    &&& prepared.params.method == method
    &&& text_of_body(prepared.params.body) == (if body.len() == 0 {
        None
    } else {
        Some(body)
    })
    &&& prepared.params.timeout_ms == Some(timeout_ms)
    &&& prepared.socks_proxy@ == proxy_address(port)
}

/// Whether `r` is what a request with headers already read comes to: a
/// refusal where the library has not been initialized or no service is
/// active, in that order, and the prepared request with those headers
/// otherwise.
pub open spec fn is_request<S>(
    r: Result<PreparedRequest, CHttpResponse>,
    lib: &TorLibrary<S>,
    url: Seq<char>,
    method: HttpMethod,
    headers: Option<Headers>,
    body: Seq<char>,
    timeout_ms: u64,
) -> bool {
    if !lib.is_initialized() {
        r matches Err(response) && is_failure(response, "Tor library not initialized"@)
    } else {
        match lib.slot() {
            None => r matches Err(response) && is_failure(response, "Tor service not running"@),
            Some(handle) => r matches Ok(prepared) && prepared.params.headers == headers
                && is_prepared(prepared, url, method, body, timeout_ms, handle.socks_port),
        }
    }
}

/// Whether `r` is what a request with its headers as JSON comes to. It is
/// refused where the library has not been initialized, where the text is
/// neither empty nor a JSON object of strings, and where no service is
/// active, in that order. Otherwise it is prepared, without headers for an
/// empty text and with the mapping that the text denotes for any other.
pub open spec fn is_request_from_json<S>(
    r: Result<PreparedRequest, CHttpResponse>,
    lib: &TorLibrary<S>,
    url: Seq<char>,
    method: HttpMethod,
    headers_json: Seq<char>,
    body: Seq<char>,
    timeout_ms: u64,
) -> bool {
    if !lib.is_initialized() {
        r matches Err(response) && is_failure(response, "Tor library not initialized"@)
    } else if headers_json.len() > 0 && json_fields(headers_json) is None {
        r matches Err(response) && is_failure(response, "Invalid headers JSON"@)
    } else {
        match lib.slot() {
            None => r matches Err(response) && is_failure(response, "Tor service not running"@),
            Some(handle) => {
                &&& r matches Ok(prepared)
                &&& is_prepared(prepared, url, method, body, timeout_ms, handle.socks_port)
                &&& if headers_json.len() == 0 {
                    prepared.params.headers is None
                } else {
                    prepared.params.headers matches Some(headers) && Some(headers.as_map())
                        == json_fields(headers_json)
                }
            },
        }
    }
}

/// Makes the holder of the service if it has not been made, and hands it
/// out. A holder that is there is handed out as it is.
pub fn ensure_tor_service<S>(cell: &mut Option<ServiceHolder<S>>) -> (holder: &mut ServiceHolder<
    S,
>)
    ensures
        holder@ == slot_of(*old(cell)),
        *old(cell) is Some ==> *old(cell) == Some(*holder),
        *final(cell) == Some(*final(holder)),
{
    if cell.is_none() {
        *cell = Some(ServiceHolder::new());
    }
    cell.as_mut().unwrap()
}

/// Initializes the library: makes the holder of the service if need be.
/// Returns whether the library is initialized afterwards, which it always
/// is. The slot is left as it is.
pub fn initialize_tor_library<S>(lib: &mut TorLibrary<S>) -> (r: bool)
    ensures
        r,
        final(lib).is_initialized(),
        final(lib).has_holder(),
        final(lib).slot() == old(lib).slot(),
{
    let _ = ensure_tor_service(&mut lib.service);
    lib.initialized = true;
    true
}

/// First half of `init_tor_service`: the order to start a service, unless
/// the library has not been initialized or a service is active.
pub fn begin_init_tor_service<S>(
    lib: &mut TorLibrary<S>,
    socks_port: u16,
    data_dir: String,
    timeout_ms: u64,
) -> (r: Option<StartOrder>)
    ensures
        r == (if old(lib).is_initialized() && old(lib).slot() is None {
            Some(
                StartOrder {
                    listen_port: socks_port,
                    data_dir,
                    bootstrap_timeout_ms: timeout_ms,
                },
            )
        } else {
            None
        }),
        final(lib).slot() == old(lib).slot(),
        final(lib).keeps(old(lib)),
{
    if !lib.initialized {
        return None;
    }
    let holder = ensure_tor_service(&mut lib.service);
    match holder.begin_initialize(socks_port, data_dir, timeout_ms) {
        Ok(order) => Some(order),
        Err(_) => None,
    }
}

/// Second half of `init_tor_service`: puts the started service into the
/// empty slot and says whether it did. Without an initialized library the
/// slot stays as it is and the answer is no.
pub fn init_tor_service<S>(lib: &mut TorLibrary<S>, started: Result<ServiceHandle<S>, StartFailure>)
    -> (r: bool)
    ensures
        old(lib).is_initialized() ==> final(lib).slot() == initialized(old(lib).slot(), started).0
            && r == initialized(old(lib).slot(), started).1 is Ok,
        !old(lib).is_initialized() ==> final(lib).slot() == old(lib).slot() && !r,
        final(lib).keeps(old(lib)),
{
    if !lib.initialized {
        return false;
    }
    let holder = ensure_tor_service(&mut lib.service);
    holder.finish_initialize(started).is_ok()
}

/// Picks the key that a hidden service is pinned to.
pub fn select_key(key: Option<[u8; 64]>, has_key: bool) -> (r: Option<[u8; 64]>)
    ensures
        r == selected_key(key, has_key),
{
    if has_key {
        key
    } else {
        None
    }
}

/// The response that reports a failure: no address, no control address.
pub fn refusal() -> (r: HiddenServiceResponse)
    ensures
        is_refusal(r),
{
    HiddenServiceResponse { is_success: false, onion_address: String::new(), control: String::new() }
}

/// First half of `create_hidden_service`: the order for the service, or
/// the response that reports failure where no service is active.
pub fn begin_create_hidden_service<S>(
    lib: &mut TorLibrary<S>,
    port: u16,
    target_port: u16,
    key: Option<[u8; 64]>,
    has_key: bool,
) -> (r: Result<HiddenServiceOrder, HiddenServiceResponse>)
    ensures
        match old(lib).slot() {
            Some(_) => r == Ok::<HiddenServiceOrder, HiddenServiceResponse>(
                HiddenServiceOrder {
                    hs_port: port,
                    to_port: target_port,
                    secret_key: selected_key(key, has_key),
                },
            ),
            None => r matches Err(response) && is_refusal(response),
        },
        final(lib).slot() == old(lib).slot(),
        final(lib).keeps(old(lib)),
{
    let holder = ensure_tor_service(&mut lib.service);
    match holder.begin_create_hidden_service(port, target_port, select_key(key, has_key)) {
        Ok(order) => Ok(order),
        Err(_) => Err(refusal()),
    }
}

/// Second half of `create_hidden_service`: on success the address that
/// the service gave and its control address without the white space round
/// it; a failure with empty texts where the service failed or none is
/// active.
pub fn create_hidden_service<S>(
    lib: &mut TorLibrary<S>,
    order: HiddenServiceOrder,
    created: Result<String, String>,
) -> (r: HiddenServiceResponse)
    ensures
        match (old(lib).slot(), created) {
            (Some(handle), Ok(address)) => r.is_success && r.onion_address == address
                && r.control@ == trimmed(handle.control_address@),
            _ => is_refusal(r),
        },
        final(lib).slot() == old(lib).slot(),
        final(lib).keeps(old(lib)),
{
    let holder = ensure_tor_service(&mut lib.service);
    match holder.finish_create_hidden_service(order, created) {
        Ok(record) => HiddenServiceResponse {
            is_success: true,
            onion_address: record.address_id,
            control: trim(record.control_address.as_str()),
        },
        Err(_) => refusal(),
    }
}

/// The number by which `status` is reported.
pub fn number_of_status(status: BootstrapStatus) -> (r: i32)
    ensures
        r == status_number(status),
{
    match status {
        BootstrapStatus::InProgress => STATUS_IN_PROGRESS,
        BootstrapStatus::Ready => STATUS_READY,
        BootstrapStatus::Unavailable => STATUS_UNAVAILABLE,
    }
}

/// The status of the service as a number, from what the service answered
/// when asked for its bootstrap phase; `report` is `None` where it was not
/// asked. The slot is left as it is, however often the status is asked
/// for.
pub fn get_service_status<S>(
    lib: &mut TorLibrary<S>,
    report: Option<Result<BootstrapPhase, String>>,
) -> (r: i32)
    ensures
        r == status_number(status_of(old(lib).slot() is Some, report)),
        final(lib).slot() == old(lib).slot(),
        final(lib).keeps(old(lib)),
{
    let holder = ensure_tor_service(&mut lib.service);
    number_of_status(holder.status(report))
}

/// First half of `delete_hidden_service`: the address to delete, where a
/// service is active.
pub fn begin_delete_hidden_service<S>(lib: &mut TorLibrary<S>, address: String) -> (r: Option<
    String,
>)
    ensures
        r == (if old(lib).slot() is Some {
            Some(address)
        } else {
            None
        }),
        final(lib).slot() == old(lib).slot(),
        final(lib).keeps(old(lib)),
{
    let holder = ensure_tor_service(&mut lib.service);
    match holder.begin_delete_hidden_service(address) {
        Ok(address) => Some(address),
        Err(_) => None,
    }
}

/// Second half of `delete_hidden_service`: whether a service is active
/// and deleted the hidden service.
pub fn delete_hidden_service<S>(lib: &mut TorLibrary<S>, deleted: Result<(), String>) -> (r: bool)
    ensures
        r == (old(lib).slot() is Some && deleted is Ok),
        final(lib).slot() == old(lib).slot(),
        final(lib).keeps(old(lib)),
{
    let holder = ensure_tor_service(&mut lib.service);
    holder.finish_delete_hidden_service(deleted).is_ok()
}

/// First half of `shutdown_service`: takes the handle out of the slot, to
/// be torn down. The slot is empty afterwards.
pub fn begin_shutdown_service<S>(lib: &mut TorLibrary<S>) -> (r: Option<ServiceHandle<S>>)
    ensures
        r == old(lib).slot(),
        final(lib).slot() is None,
        final(lib).keeps(old(lib)),
{
    let holder = ensure_tor_service(&mut lib.service);
    match holder.begin_shutdown() {
        Ok(handle) => Some(handle),
        Err(_) => None,
    }
}

/// Second half of `shutdown_service`: whether a service was taken out of
/// the slot and tore itself down; `stopped` is `None` where none was.
pub fn shutdown_service(stopped: Option<Result<(), String>>) -> (r: bool)
    ensures
        r == (stopped matches Some(Ok(_))),
{
    match stopped {
        Some(Ok(_)) => true,
        _ => false,
    }
}

/// The response that says that no response was obtained, and why.
pub fn failure(message: &str) -> (r: CHttpResponse)
    ensures
        is_failure(r, message@),
{
    CHttpResponse { status_code: 0, body: String::new(), error: String::from_str(message) }
}

/// The flat form of a response: no error is an empty text.
pub fn flatten(response: HttpResponse) -> (r: CHttpResponse)
    ensures
        r.status_code == response.status_code,
        r.body == response.body,
        match response.error {
            Some(message) => r.error == message,
            None => r.error@.len() == 0,
        },
{
    CHttpResponse {
        status_code: response.status_code,
        body: response.body,
        error: match response.error {
            Some(message) => message,
            None => String::new(),
        },
    }
}

/// Prepares a request whose headers have been read.
pub fn request_with_headers<S>(
    lib: &mut TorLibrary<S>,
    url: String,
    method: HttpMethod,
    headers: Option<Headers>,
    body: String,
    timeout_ms: u64,
) -> (r: Result<PreparedRequest, CHttpResponse>)
    ensures
        is_request(r, old(lib), url@, method, headers, body@, timeout_ms),
        final(lib).slot() == old(lib).slot(),
        final(lib).keeps(old(lib)),
{
    if !lib.initialized {
        return Err(failure("Tor library not initialized"));
    }
    let holder = ensure_tor_service(&mut lib.service);
    match holder.socks_port() {
        None => Err(failure("Tor service not running")),
        Some(port) => {
            let mut socks_proxy = String::from_str("127.0.0.1:");
            socks_proxy.append(write_unsigned(port as u64).as_str());
            let body = if body.as_str().is_empty() {
                None
            } else {
                Some(body)
            };
            Ok(
                PreparedRequest {
                    params: HttpRequestParams {
                        url,
                        method,
                        headers,
                        body,
                        timeout_ms: Some(timeout_ms),
                    },
                    socks_proxy,
                },
            )
        },
    }
}

/// Prepares a request whose headers come as JSON.
pub fn make_tor_http_request<S>(
    lib: &mut TorLibrary<S>,
    url: String,
    method: HttpMethod,
    headers_json: &str,
    body: String,
    timeout_ms: u64,
) -> (r: Result<PreparedRequest, CHttpResponse>)
    ensures
        is_request_from_json(r, old(lib), url@, method, headers_json@, body@, timeout_ms),
        final(lib).slot() == old(lib).slot(),
        final(lib).keeps(old(lib)),
{
    if !lib.initialized {
        return Err(failure("Tor library not initialized"));
    }
    let headers = if headers_json.is_empty() {
        None
    } else {
        match Headers::from_json(headers_json) {
            Some(headers) => Some(headers),
            None => {
                return Err(failure("Invalid headers JSON"));
            },
        }
    };
    request_with_headers(lib, url, method, headers, body, timeout_ms)
}

/// Prepares a `GET` request, which has no body.
pub fn http_get<S>(lib: &mut TorLibrary<S>, url: String, headers_json: &str, timeout_ms: u64) -> (r:
    Result<PreparedRequest, CHttpResponse>)
    ensures
        is_request_from_json(
            r,
            old(lib),
            url@,
            HttpMethod::GET,
            headers_json@,
            Seq::empty(),
            timeout_ms,
        ),
        final(lib).slot() == old(lib).slot(),
        final(lib).keeps(old(lib)),
{
    make_tor_http_request(lib, url, HttpMethod::GET, headers_json, String::new(), timeout_ms)
}

/// Prepares a `POST` request with `body`; an empty body is none.
pub fn http_post<S>(
    lib: &mut TorLibrary<S>,
    url: String,
    body: String,
    headers_json: &str,
    timeout_ms: u64,
) -> (r: Result<PreparedRequest, CHttpResponse>)
    ensures
        is_request_from_json(r, old(lib), url@, HttpMethod::POST, headers_json@, body@, timeout_ms),
        final(lib).slot() == old(lib).slot(),
        final(lib).keeps(old(lib)),
{
    make_tor_http_request(lib, url, HttpMethod::POST, headers_json, body, timeout_ms)
}

/// Prepares a `PUT` request with `body`; an empty body is none.
pub fn http_put<S>(
    lib: &mut TorLibrary<S>,
    url: String,
    body: String,
    headers_json: &str,
    timeout_ms: u64,
) -> (r: Result<PreparedRequest, CHttpResponse>)
    ensures
        is_request_from_json(r, old(lib), url@, HttpMethod::PUT, headers_json@, body@, timeout_ms),
        final(lib).slot() == old(lib).slot(),
        final(lib).keeps(old(lib)),
{
    make_tor_http_request(lib, url, HttpMethod::PUT, headers_json, body, timeout_ms)
}

/// Prepares a `DELETE` request, which has no body.
pub fn http_delete<S>(lib: &mut TorLibrary<S>, url: String, headers_json: &str, timeout_ms: u64) -> (r:
    Result<PreparedRequest, CHttpResponse>)
    ensures
        is_request_from_json(
            r,
            old(lib),
            url@,
            HttpMethod::DELETE,
            headers_json@,
            Seq::empty(),
            timeout_ms,
        ),
        final(lib).slot() == old(lib).slot(),
        final(lib).keeps(old(lib)),
{
    make_tor_http_request(lib, url, HttpMethod::DELETE, headers_json, String::new(), timeout_ms)
}

/// Prepares a `HEAD` request, which has no body.
pub fn http_head<S>(lib: &mut TorLibrary<S>, url: String, headers_json: &str, timeout_ms: u64) -> (r:
    Result<PreparedRequest, CHttpResponse>)
    ensures
        is_request_from_json(
            r,
            old(lib),
            url@,
            HttpMethod::HEAD,
            headers_json@,
            Seq::empty(),
            timeout_ms,
        ),
        final(lib).slot() == old(lib).slot(),
        final(lib).keeps(old(lib)),
{
    make_tor_http_request(lib, url, HttpMethod::HEAD, headers_json, String::new(), timeout_ms)
}

/// Prepares an `OPTIONS` request, which has no body.
pub fn http_options<S>(lib: &mut TorLibrary<S>, url: String, headers_json: &str, timeout_ms: u64) -> (r:
    Result<PreparedRequest, CHttpResponse>)
    ensures
        is_request_from_json(
            r,
            old(lib),
            url@,
            HttpMethod::OPTIONS,
            headers_json@,
            Seq::empty(),
            timeout_ms,
        ),
        final(lib).slot() == old(lib).slot(),
        final(lib).keeps(old(lib)),
{
    make_tor_http_request(lib, url, HttpMethod::OPTIONS, headers_json, String::new(), timeout_ms)
}

} // verus!
