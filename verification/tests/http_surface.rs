//! Tests of the HTTP-facing shapes: route bodies, status codes, the JSON
//! error shape, the url-parameter gate, and the configuration defaults.

use driver_supervisor::cli::Opts;
use driver_supervisor::cli::TracingOpts;
use driver_supervisor::http::error_body;
use driver_supervisor::http::missing_param_message;
use driver_supervisor::http::require_url;
use driver_supervisor::http::root_body;
use driver_supervisor::http::ServerError;
use driver_supervisor::http::CONTROL_PORT;
use driver_supervisor::http::DRIVER_PORT;
use driver_supervisor::http::DRIVER_PROGRAM;
use driver_supervisor::http::STATUS_INTERNAL_ERROR;
use driver_supervisor::http::STATUS_OK;
use driver_supervisor::http::STATUS_UNPROCESSABLE;
use driver_supervisor::webdriver::ChromeDriver;
use driver_supervisor::State;

#[test]
fn root_answers_the_greeting() {
    assert_eq!(root_body(), "Hello, World!");
    assert_eq!(STATUS_OK, 200);
}

#[test]
fn missing_url_is_reported_as_a_caller_error() {
    let r = require_url(None);
    match r {
        Err(ServerError::MissingParameter(p)) => assert_eq!(p, "url"),
        _ => panic!("expected the missing-parameter error"),
    }
}

#[test]
fn missing_url_response_shape_is_exact() {
    let e = require_url(None).unwrap_err();
    let (status, body) = e.response_parts();
    assert_eq!(status, STATUS_UNPROCESSABLE);
    assert_eq!(status, 422);
    assert_eq!(body, "{\"error\": \"Missing parameter 'url'\"}");
}

#[test]
fn present_url_passes_through_unchanged() {
    let r = require_url(Some("http://example.com".to_string()));
    assert_eq!(r.unwrap(), "http://example.com");
}

#[test]
fn driver_failure_response_shape_is_exact() {
    let (status, body) = ServerError::WebDriverError.response_parts();
    assert_eq!(status, STATUS_INTERNAL_ERROR);
    assert_eq!(status, 500);
    assert_eq!(body, "{\"error\": \"WebDriver failed\"}");
}

#[test]
fn error_body_wraps_the_message() {
    assert_eq!(error_body("WebDriver failed"), "{\"error\": \"WebDriver failed\"}");
    assert_eq!(missing_param_message("url"), "Missing parameter 'url'");
}

#[test]
fn fixed_ports_and_program_path() {
    assert_eq!(CONTROL_PORT, 3000);
    assert_eq!(DRIVER_PORT, 4444);
    assert_eq!(DRIVER_PROGRAM, "/usr/bin/chromedriver");
}

#[test]
fn configuration_defaults() {
    let o = Opts::default();
    assert_eq!(o.namespace, "meta");
    assert!(o.tracing_opts.enabled);
    assert_eq!(o.tracing_opts.service_name, "driver_supervisor");
    let t = TracingOpts::default();
    assert!(t.enabled);
}

#[test]
fn state_shares_the_driver_handle() {
    let state = State { driver: ChromeDriver::new(DRIVER_PORT) };
    assert!(state.driver.is_alive());
    assert_eq!(state.driver.port, 4444);
}
