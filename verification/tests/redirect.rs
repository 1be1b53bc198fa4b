use http::header::HeaderValue;
use pingora_reverse_proxy::app::{ProxyApp, RedirectApp, UpstreamSelectionError};
use pingora_reverse_proxy::response::{Redirect, RedirectError};
use pingora_reverse_proxy::service::HostConfigPlain;

fn redirect(location: &str) -> Redirect {
    Redirect {
        status: 301,
        content_type: "text/html".to_owned(),
        content_length: 47,
        location: location.to_owned(),
        body: b"<html><body>301 Moved Permanently</body></html>".to_vec(),
    }
}

fn header(bytes: &[u8]) -> HeaderValue {
    HeaderValue::from_bytes(bytes).expect("a header value")
}

fn field<'a>(response: &'a http::Response<Vec<u8>>, name: &str) -> &'a [u8] {
    response.headers().get(name).expect("the field").as_bytes()
}

#[test]
fn redirect_for_example_com() {
    let built = RedirectApp.build_redirect(Some("example.com")).expect("a redirect");
    assert_eq!(built.status, 301);
    assert_eq!(built.location, "https://example.com");
    assert_eq!(built.content_type, "text/html");
    assert_eq!(
        built.body,
        b"<html><body>301 Moved Permanently</body></html>".to_vec()
    );
    assert_eq!(built.content_length, built.body.len());
    assert_eq!(built.content_length, 47);
    assert_eq!(built, redirect("https://example.com"));
}

#[test]
fn redirect_without_a_host_is_refused() {
    assert_eq!(
        RedirectApp.build_redirect(None),
        Err(RedirectError::MissingHost)
    );
    assert_eq!(
        RedirectApp.response(None).err(),
        Some(RedirectError::MissingHost)
    );
}

#[test]
fn redirect_reuses_the_host_as_presented() {
    for host in ["example.com:8080", "EXAMPLE.com", "", "bücher.test", "a b"] {
        let built = RedirectApp.build_redirect(Some(host)).expect("a redirect");
        assert_eq!(built, redirect(&format!("https://{host}")));
    }
}

#[test]
fn response_for_example_com() {
    let host = header(b"example.com");
    let response = RedirectApp.response(Some(&host)).expect("a response");
    assert_eq!(response.status(), http::StatusCode::MOVED_PERMANENTLY);
    assert_eq!(response.status().as_u16(), 301);
    assert_eq!(field(&response, "location"), b"https://example.com");
    assert_eq!(field(&response, "content-type"), b"text/html");
    assert_eq!(field(&response, "content-length"), b"47");
    assert_eq!(
        response.body().as_slice(),
        b"<html><body>301 Moved Permanently</body></html>"
    );
    assert_eq!(response.body().len(), 47);
    let names: Vec<&str> = response.headers().keys().map(|k| k.as_str()).collect();
    assert_eq!(names, vec!["content-type", "content-length", "location"]);
    assert_eq!(response.headers().len(), 3);
}

#[test]
fn response_keeps_tabs_and_spaces_of_the_host() {
    let host = header(b"a\tb c~");
    let response = RedirectApp.response(Some(&host)).expect("a response");
    assert_eq!(field(&response, "location"), b"https://a\tb c~");
}

#[test]
fn response_to_a_host_that_is_not_text_is_refused() {
    for bytes in [&b"caf\xe9.test"[..], &b"\xff"[..], &b"b\xc3\xbccher.test"[..]] {
        let host = header(bytes);
        assert_eq!(
            RedirectApp.response(Some(&host)).err(),
            Some(RedirectError::MissingHost)
        );
    }
}

#[test]
fn a_redirect_is_written_as_a_response() {
    let response = redirect("https://example.com/").into_response().expect("a response");
    assert_eq!(response.status().as_u16(), 301);
    assert_eq!(field(&response, "location"), b"https://example.com/");
    assert_eq!(field(&response, "content-length"), b"47");
    let mut other = redirect("https://b\u{fc}cher.test");
    other.status = 308;
    other.content_length = 1234567;
    other.body = vec![1, 2, 3];
    let response = other.into_response().expect("a response");
    assert_eq!(response.status().as_u16(), 308);
    assert_eq!(field(&response, "location"), "https://b\u{fc}cher.test".as_bytes());
    assert_eq!(field(&response, "content-length"), b"1234567");
    assert_eq!(response.body(), &vec![1u8, 2, 3]);
    let mut empty = redirect("https://a.test");
    empty.content_length = 0;
    let response = empty.into_response().expect("a response");
    assert_eq!(field(&response, "content-length"), b"0");
}

#[test]
fn a_redirect_with_a_line_break_in_its_location_is_unrepresentable() {
    for location in ["https://a.test\r\nSet-Cookie: x", "https://a\n", "https://\u{7f}", "\0"] {
        assert_eq!(
            redirect(location).into_response().err(),
            Some(RedirectError::Unrepresentable)
        );
    }
    let mut bad_type = redirect("https://a.test");
    bad_type.content_type = "text/html\n".to_owned();
    assert_eq!(
        bad_type.into_response().err(),
        Some(RedirectError::Unrepresentable)
    );
}

#[test]
fn a_redirect_with_a_status_out_of_range_is_unrepresentable() {
    for status in [0u16, 1, 99, 1000, 65535] {
        let mut bad = redirect("https://a.test");
        bad.status = status;
        assert_eq!(
            bad.into_response().err(),
            Some(RedirectError::Unrepresentable),
            "{status}"
        );
    }
    for status in [100u16, 200, 301, 999] {
        let mut good = redirect("https://a.test");
        good.status = status;
        let response = good.into_response().expect("a response");
        assert_eq!(response.status().as_u16(), status);
    }
}

#[test]
fn upstream_for_a_host_header() {
    let app = ProxyApp::new(vec![HostConfigPlain {
        proxy_addr: "127.0.0.1:9000".to_owned(),
        proxy_tls: false,
        proxy_hostname: "a.test".to_owned(),
    }])
    .expect("a table");
    let decision = app
        .upstream_peer(Some(&header(b"a.test")))
        .expect("a decision");
    assert_eq!(decision.backend_address, "127.0.0.1:9000");
    assert!(!decision.backend_uses_tls);
    assert_eq!(decision.backend_verification_name, "a.test");
    assert_eq!(
        app.upstream_peer(Some(&header(b"b.test"))),
        Err(UpstreamSelectionError::NoSuchHost)
    );
    assert_eq!(
        app.upstream_peer(None),
        Err(UpstreamSelectionError::MissingHost)
    );
    assert_eq!(
        app.upstream_peer(Some(&header(b"a.test\xff"))),
        Err(UpstreamSelectionError::MissingHost)
    );
    assert_eq!(
        app.upstream_peer(Some(&header(b""))),
        Err(UpstreamSelectionError::NoSuchHost)
    );
}

#[test]
fn a_failed_redirect_has_its_status() {
    assert_eq!(RedirectError::MissingHost.status(), 400);
    assert_eq!(RedirectError::Unrepresentable.status(), 500);
}
