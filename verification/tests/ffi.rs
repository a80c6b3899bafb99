use tor_bridge::ffi::{
    begin_create_hidden_service, begin_delete_hidden_service, begin_init_tor_service,
    begin_shutdown_service, create_hidden_service, delete_hidden_service, ensure_tor_service,
    failure, flatten, get_service_status, http_delete, http_get, http_head, http_options,
    http_post, http_put, init_tor_service, initialize_tor_library, make_tor_http_request,
    number_of_status, refusal, request_with_headers, select_key, shutdown_service, CHttpResponse,
    HiddenServiceResponse, PreparedRequest, TorLibrary,
};
use tor_bridge::headers::Headers;
use tor_bridge::http_client::{HttpMethod, HttpResponse};
use tor_bridge::service::{
    BootstrapPhase, BootstrapStatus, HiddenServiceOrder, ServiceHandle, ServiceHolder,
    StartFailure,
};

type Library = TorLibrary<&'static str>;

fn handle(port: u16, name: &'static str) -> ServiceHandle<&'static str> {
    ServiceHandle {
        socks_port: port,
        control_address: " 127.0.0.1:9051\n".to_string(),
        service: name,
    }
}

fn running(port: u16) -> Library {
    let mut lib = TorLibrary::new();
    assert!(initialize_tor_library(&mut lib));
    assert!(init_tor_service(&mut lib, Ok(handle(port, "s"))));
    lib
}

fn no_response(message: &str) -> CHttpResponse {
    CHttpResponse { status_code: 0, body: String::new(), error: message.to_string() }
}

fn prepared(r: Result<PreparedRequest, CHttpResponse>) -> PreparedRequest {
    match r {
        Ok(p) => p,
        Err(e) => panic!("refused: {:?}", e),
    }
}

fn refused(r: Result<PreparedRequest, CHttpResponse>) -> CHttpResponse {
    match r {
        Ok(p) => panic!("prepared: {:?}", p),
        Err(e) => e,
    }
}

#[test]
fn ensure_tor_service_makes_the_holder_once() {
    let mut cell: Option<ServiceHolder<&'static str>> = None;
    assert!(!ensure_tor_service(&mut cell).is_active());
    assert!(cell.is_some());
    assert!(ensure_tor_service(&mut cell).finish_initialize(Ok(handle(9, "kept"))).is_ok());
    let holder = ensure_tor_service(&mut cell);
    assert_eq!(holder.socks_port(), Some(9));
    assert_eq!(holder.handle().unwrap().service, "kept");
}

#[test]
fn initialize_tor_library_can_be_repeated() {
    let mut lib: Library = TorLibrary::new();
    assert!(initialize_tor_library(&mut lib));
    assert!(init_tor_service(&mut lib, Ok(handle(1, "s"))));
    assert!(initialize_tor_library(&mut lib));
    assert_eq!(lib.handle().unwrap().service, "s");
}

#[test]
fn init_tor_service_needs_the_library() {
    let mut lib: Library = TorLibrary::new();
    assert!(begin_init_tor_service(&mut lib, 1, "/d".to_string(), 5).is_none());
    assert!(!init_tor_service(&mut lib, Ok(handle(1, "s"))));
    assert!(lib.handle().is_none());
}

#[test]
fn init_tor_service_starts_and_stores() {
    let mut lib: Library = TorLibrary::new();
    initialize_tor_library(&mut lib);
    let order = begin_init_tor_service(&mut lib, 19054, "/tmp/tor".to_string(), 45000).unwrap();
    assert_eq!(order.listen_port, 19054);
    assert_eq!(order.data_dir, "/tmp/tor");
    assert_eq!(order.bootstrap_timeout_ms, 45000);
    assert!(!init_tor_service(&mut lib, Err(StartFailure::TimedOut)));
    assert!(lib.handle().is_none());
    assert!(!init_tor_service(&mut lib, Err(StartFailure::Failed("x".to_string()))));
    assert!(init_tor_service(&mut lib, Ok(handle(19054, "s"))));
    assert_eq!(lib.handle().unwrap().socks_port, 19054);
}

#[test]
fn init_tor_service_does_not_replace_an_active_service() {
    let mut lib = running(1);
    assert!(begin_init_tor_service(&mut lib, 2, String::new(), 0).is_none());
    assert!(!init_tor_service(&mut lib, Ok(handle(2, "other"))));
    assert_eq!(lib.handle().unwrap().socks_port, 1);
    assert_eq!(lib.handle().unwrap().service, "s");
}

#[test]
fn status_numbers_are_zero_one_two() {
    assert_eq!(number_of_status(BootstrapStatus::InProgress), 0);
    assert_eq!(number_of_status(BootstrapStatus::Ready), 1);
    assert_eq!(number_of_status(BootstrapStatus::Unavailable), 2);
}

#[test]
fn get_service_status_reports_and_leaves_the_slot_alone() {
    let mut lib: Library = TorLibrary::new();
    assert_eq!(get_service_status(&mut lib, None), 2);
    assert_eq!(get_service_status(&mut lib, Some(Ok(BootstrapPhase::Done))), 2);
    assert!(lib.handle().is_none());
    let mut lib = running(4);
    for _ in 0..3 {
        assert_eq!(get_service_status(&mut lib, Some(Ok(BootstrapPhase::Other))), 0);
        assert_eq!(get_service_status(&mut lib, Some(Ok(BootstrapPhase::Done))), 1);
        assert_eq!(get_service_status(&mut lib, Some(Err("down".to_string()))), 2);
        assert_eq!(get_service_status(&mut lib, None), 2);
        assert_eq!(lib.handle().unwrap().socks_port, 4);
        assert_eq!(lib.handle().unwrap().service, "s");
    }
}

#[test]
fn key_is_used_where_it_is_meant_and_supplied() {
    let key = [9u8; 64];
    assert_eq!(select_key(Some(key), true), Some(key));
    assert_eq!(select_key(Some(key), false), None);
    assert_eq!(select_key(None, true), None);
    assert_eq!(select_key(None, false), None);
}

#[test]
fn create_hidden_service_without_initialize_fails_with_empty_texts() {
    let mut lib: Library = TorLibrary::new();
    let empty = HiddenServiceResponse {
        is_success: false,
        onion_address: String::new(),
        control: String::new(),
    };
    assert_eq!(refusal(), empty);
    assert_eq!(begin_create_hidden_service(&mut lib, 80, 8080, None, false).unwrap_err(), empty);
    let order = HiddenServiceOrder { hs_port: 80, to_port: 8080, secret_key: None };
    assert_eq!(create_hidden_service(&mut lib, order, Ok("abc.onion".to_string())), empty);
    initialize_tor_library(&mut lib);
    assert_eq!(begin_create_hidden_service(&mut lib, 80, 8080, None, false).unwrap_err(), empty);
}

#[test]
fn create_hidden_service_gives_address_and_trimmed_control() {
    let mut lib = running(1);
    let key = [3u8; 64];
    let order = begin_create_hidden_service(&mut lib, 80, 8080, Some(key), true).unwrap();
    assert_eq!((order.hs_port, order.to_port, order.secret_key), (80, 8080, Some(key)));
    let order = begin_create_hidden_service(&mut lib, 80, 8080, Some(key), false).unwrap();
    assert_eq!(order.secret_key, None);
    assert_eq!(
        create_hidden_service(&mut lib, order, Ok("abc.onion".to_string())),
        HiddenServiceResponse {
            is_success: true,
            onion_address: "abc.onion".to_string(),
            control: "127.0.0.1:9051".to_string(),
        }
    );
    assert_eq!(create_hidden_service(&mut lib, order, Err("not yet".to_string())), refusal());
    assert_eq!(lib.handle().unwrap().control_address, " 127.0.0.1:9051\n");
}

#[test]
fn delete_through_the_library_needs_an_active_service() {
    let mut lib: Library = TorLibrary::new();
    assert_eq!(begin_delete_hidden_service(&mut lib, "abc".to_string()), None);
    assert!(!delete_hidden_service(&mut lib, Ok(())));
    let mut lib = running(1);
    assert_eq!(begin_delete_hidden_service(&mut lib, "abc".to_string()), Some("abc".to_string()));
    assert!(delete_hidden_service(&mut lib, Ok(())));
    assert!(!delete_hidden_service(&mut lib, Err("unknown".to_string())));
    assert!(lib.handle().is_some());
}

#[test]
fn shutdown_service_empties_the_slot() {
    let mut lib = running(1);
    let taken = begin_shutdown_service(&mut lib).unwrap();
    assert_eq!(taken.service, "s");
    assert!(lib.handle().is_none());
    assert!(!shutdown_service(Some(Err("stuck".to_string()))));
    assert!(lib.handle().is_none());
    assert_eq!(get_service_status(&mut lib, None), 2);
    assert!(begin_shutdown_service(&mut lib).is_none());
    assert!(!shutdown_service(None));
    assert!(shutdown_service(Some(Ok(()))));
}

#[test]
fn service_can_be_started_again_after_shutdown() {
    let mut lib = running(1);
    assert!(begin_shutdown_service(&mut lib).is_some());
    assert!(begin_init_tor_service(&mut lib, 2, String::new(), 0).is_some());
    assert!(init_tor_service(&mut lib, Ok(handle(2, "next"))));
    assert_eq!(lib.handle().unwrap().service, "next");
}

#[test]
fn service_mut_reaches_the_active_service() {
    let mut lib: TorLibrary<u32> = TorLibrary::new();
    assert!(lib.service_mut().is_none());
    initialize_tor_library(&mut lib);
    let started = ServiceHandle { socks_port: 5, control_address: "c".to_string(), service: 1 };
    assert!(init_tor_service(&mut lib, Ok(started)));
    *lib.service_mut().unwrap() = 2;
    assert_eq!(lib.handle().unwrap().service, 2);
    assert_eq!(lib.handle().unwrap().socks_port, 5);
}

#[test]
fn request_needs_library_headers_and_service_in_that_order() {
    let mut lib: Library = TorLibrary::new();
    let r = http_get(&mut lib, "http://example.test/".to_string(), "not json", 1000);
    assert_eq!(refused(r), no_response("Tor library not initialized"));
    initialize_tor_library(&mut lib);
    let r = http_get(&mut lib, "http://example.test/".to_string(), "not json", 1000);
    assert_eq!(refused(r), no_response("Invalid headers JSON"));
    let r = http_get(&mut lib, "http://example.test/".to_string(), "", 1000);
    assert_eq!(refused(r), no_response("Tor service not running"));
    let r = http_get(&mut lib, "http://example.test/".to_string(), "{}", 1000);
    assert_eq!(refused(r), no_response("Tor service not running"));
}

#[test]
fn request_is_prepared_for_the_proxy_of_the_service() {
    let mut lib = running(19054);
    let p = prepared(http_get(&mut lib, "http://example.test/".to_string(), "", 10000));
    assert_eq!(p.socks_proxy, "127.0.0.1:19054");
    assert_eq!(p.params.url, "http://example.test/");
    assert_eq!(p.params.method, HttpMethod::GET);
    assert!(p.params.headers.is_none());
    assert_eq!(p.params.body, None);
    assert_eq!(p.params.timeout_ms, Some(10000));
}

#[test]
fn request_takes_its_headers_from_json() {
    let mut lib = running(1);
    let p = prepared(http_post(
        &mut lib,
        "http://example.test/".to_string(),
        "data".to_string(),
        "{\"X-A\": \"1\"}",
        5,
    ));
    assert_eq!(p.params.method, HttpMethod::POST);
    assert_eq!(p.params.body, Some("data".to_string()));
    let headers = p.params.headers.unwrap();
    assert_eq!(headers.len(), 1);
    assert_eq!(headers.name_at(0), "X-A");
    assert_eq!(headers.value_at(0), "1");
    let p = prepared(http_put(&mut lib, "u".to_string(), String::new(), "{}", 5));
    assert_eq!(p.params.method, HttpMethod::PUT);
    assert_eq!(p.params.body, None);
    assert_eq!(p.params.headers.unwrap().len(), 0);
}

#[test]
fn each_method_has_its_function() {
    let mut lib = running(1);
    let url = || "http://example.test/".to_string();
    assert_eq!(prepared(http_get(&mut lib, url(), "", 1)).params.method, HttpMethod::GET);
    assert_eq!(prepared(http_delete(&mut lib, url(), "", 1)).params.method, HttpMethod::DELETE);
    assert_eq!(prepared(http_head(&mut lib, url(), "", 1)).params.method, HttpMethod::HEAD);
    assert_eq!(prepared(http_options(&mut lib, url(), "", 1)).params.method, HttpMethod::OPTIONS);
    let p = prepared(make_tor_http_request(
        &mut lib,
        url(),
        HttpMethod::OPTIONS,
        "",
        "b".to_string(),
        1,
    ));
    assert_eq!(p.params.body, Some("b".to_string()));
    assert!(prepared(http_delete(&mut lib, url(), "", 1)).params.body.is_none());
}

#[test]
fn request_with_headers_keeps_them() {
    let mut lib = running(8);
    let mut headers = Headers::new();
    headers.insert("A".to_string(), "1".to_string());
    let p = prepared(request_with_headers(
        &mut lib,
        "u".to_string(),
        HttpMethod::HEAD,
        Some(headers),
        String::new(),
        7,
    ));
    assert_eq!(p.socks_proxy, "127.0.0.1:8");
    assert_eq!(p.params.headers.unwrap().len(), 1);
    let mut lib: Library = TorLibrary::new();
    let r = request_with_headers(&mut lib, "u".to_string(), HttpMethod::HEAD, None, String::new(), 7);
    assert_eq!(refused(r), no_response("Tor library not initialized"));
}

#[test]
fn flat_response_has_every_field_set() {
    assert_eq!(failure("why"), no_response("why"));
    assert_eq!(
        flatten(HttpResponse { status_code: 200, body: "hello".to_string(), error: None }),
        CHttpResponse { status_code: 200, body: "hello".to_string(), error: String::new() }
    );
    assert_eq!(
        flatten(HttpResponse {
            status_code: 0,
            body: String::new(),
            error: Some("Operation timed out".to_string()),
        }),
        no_response("Operation timed out")
    );
}

#[test]
fn status_and_shutdown_in_either_order() {
    let mut lib = running(1);
    assert_eq!(get_service_status(&mut lib, Some(Ok(BootstrapPhase::Done))), 1);
    assert!(begin_shutdown_service(&mut lib).is_some());
    assert!(lib.handle().is_none());

    let mut lib = running(1);
    assert!(begin_shutdown_service(&mut lib).is_some());
    assert_eq!(get_service_status(&mut lib, None), 2);
    assert!(lib.handle().is_none());
}
