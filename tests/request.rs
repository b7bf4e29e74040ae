use ngx::request::MethodInner;
use ngx::{
    async_phase, ngx_make_opt, HTTPStatus, HandlerFuture, InvalidMethod, Method, NgxHttpPhases,
    Request, Status, NGX_AGAIN, NGX_DECLINED, NGX_ERROR, NGX_HTTP_CONNECT, NGX_HTTP_GET,
    NGX_HTTP_HEAD, NGX_HTTP_PATCH, NGX_HTTP_POST, NGX_OK,
};

fn request() -> Request {
    Request {
        id: 100,
        main: 100,
        connection: 7,
        status: 0,
        count: 1,
        content_length_n: -1,
        header_only: false,
        method: NGX_HTTP_GET,
        subrequests: 51,
    }
}

#[test]
fn status_is_ok() {
    assert!(Status(NGX_OK).is_ok());
    assert!(!Status(NGX_AGAIN).is_ok());
    assert_eq!(Status(NGX_DECLINED).code(), -5);
}

#[test]
fn make_opt_maps_error_to_none() {
    assert_eq!(ngx_make_opt(NGX_ERROR), None);
    assert_eq!(ngx_make_opt(NGX_OK), Some(0));
    assert_eq!(ngx_make_opt(NGX_AGAIN), Some(-2));
}

#[test]
fn method_names() {
    assert_eq!(Method::from_ngx(NGX_HTTP_GET).as_str(), "GET");
    assert_eq!(Method::from_ngx(NGX_HTTP_HEAD).as_str(), "HEAD");
    assert_eq!(Method::from_ngx(NGX_HTTP_POST).as_str(), "POST");
    assert_eq!(Method::from_ngx(NGX_HTTP_PATCH).as_str(), "PATCH");
    assert_eq!(Method::from_ngx(NGX_HTTP_CONNECT).as_str(), "CONNECT");
    assert_eq!(Method::from_ngx(3).as_str(), "UNKNOWN");
    assert_eq!(InvalidMethod::new().message(), "invalid HTTP method");
}

#[test]
fn request_fields() {
    let mut r = request();
    assert!(r.is_main());
    assert_eq!(r.connection(), 7);
    r.set_status(HTTPStatus(404));
    assert_eq!(r.get_status(), HTTPStatus(404));
    r.set_content_length_n(12);
    assert_eq!(r.content_length_n, 12);
    assert!(!r.header_only());
    assert_eq!(r.method().as_str(), "GET");
    assert_eq!(r.subrequests_available(), 50);
}

#[test]
fn subrequest_is_not_main() {
    let mut r = request();
    r.id = 101;
    assert!(!r.is_main());
}

#[test]
fn cycle_count_wraps_at_16_bits() {
    let mut r = request();
    r.increment_cycle_count();
    assert_eq!(r.count, 2);
    r.count = 0xffff;
    r.increment_cycle_count();
    assert_eq!(r.count, 0);
}

#[test]
fn async_phase_keeps_phase() {
    assert_eq!(async_phase(NgxHttpPhases::Access), NgxHttpPhases::Access);
    assert_eq!(async_phase(NgxHttpPhases::Log), NgxHttpPhases::Log);
    assert_eq!(NgxHttpPhases::Access.index(), 6);
    assert_eq!(NgxHttpPhases::Log.index(), 10);
}

#[test]
fn write_event_posted_only_on_completion() {
    let f = HandlerFuture { connection: 9 };
    assert_eq!(f.post_target(&None), None);
    assert_eq!(f.post_target(&Some(0)), Some(9));
}

#[test]
fn method_from_bytes_names() {
    assert_eq!(Method::from_bytes(b"GET").ok(), Some(Method::from_ngx(NGX_HTTP_GET)));
    assert_eq!(Method::from_bytes(b"CONNECT").ok(), Some(Method::from_ngx(NGX_HTTP_CONNECT)));
    assert_eq!(Method::from_bytes(b"PATCH").ok().map(|m| m.as_str()), Some("PATCH"));
    assert!(Method::from_bytes(b"get").is_err());
    assert!(Method::from_bytes(b"UNKNOWN").is_err());
    assert!(Method::from_bytes(b"").is_err());
    assert!(Method::from_bytes(b"GETS").is_err());
}

#[test]
fn method_constants_by_name() {
    assert_eq!(Method::from_ngx(NGX_HTTP_GET), Method(MethodInner::Get));
    assert_eq!(Method::from_ngx(0), Method(MethodInner::Unknown));
    assert_eq!(Method(MethodInner::Proppatch).as_str(), "PROPPATCH");
}
