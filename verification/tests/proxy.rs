use prisma_desktop::services::proxy::{
    cors_headers, forwarded_response, route_request, ProxyRoute, ProxyServerManager, ResponseBody,
    Upstream,
};

#[test]
fn paths_outside_vlc_are_not_found() {
    match route_request("/other", false) {
        ProxyRoute::Respond(resp) => {
            assert_eq!(resp.status, 404);
            assert!(!resp.cors);
            assert!(matches!(resp.body,
                ResponseBody::Text(ref t) if t == "Not Found. Use /vlc path for VLC proxy."));
        }
        ProxyRoute::Forward { .. } => panic!("not proxied"),
    }
    assert!(matches!(route_request("", false), ProxyRoute::Respond(_)));
}

#[test]
fn options_requests_get_cors_preflight() {
    match route_request("/vlc/x", true) {
        ProxyRoute::Respond(resp) => {
            assert_eq!(resp.status, 200);
            assert!(resp.cors);
            assert!(matches!(resp.body, ResponseBody::Empty));
        }
        ProxyRoute::Forward { .. } => panic!("answered directly"),
    }
}

#[test]
fn requests_are_forwarded_without_prefix() {
    let target = |url: &str| match route_request(url, false) {
        ProxyRoute::Forward { target_url } => target_url,
        ProxyRoute::Respond(_) => panic!("forwarded"),
    };
    assert_eq!(target("/vlc"), "http://127.0.0.1:3999/");
    assert_eq!(target("/vlc/requests/status.json?x=1"), "http://127.0.0.1:3999/requests/status.json?x=1");
    assert_eq!(target("/vlcx"), "http://127.0.0.1:3999x");
    assert_eq!(target("/vlc/é"), "http://127.0.0.1:3999/é");
}

#[test]
fn upstream_answers_are_passed_on_with_cors() {
    let resp = forwarded_response(Ok(Upstream {
        status: 201,
        content_type: Some("text/xml".to_string()),
        body: vec![1, 2, 3],
    }));
    assert_eq!(resp.status, 201);
    assert!(resp.cors);
    assert_eq!(resp.content_type, Some("text/xml".to_string()));
    assert!(matches!(resp.body, ResponseBody::Data(ref b) if b == &vec![1u8, 2, 3]));

    let resp = forwarded_response(Err("connection refused".to_string()));
    assert_eq!(resp.status, 502);
    assert!(resp.cors);
    assert!(matches!(resp.body, ResponseBody::Text(ref t) if t == "Proxy error: connection refused"));
}

#[test]
fn cors_header_list() {
    let headers = cors_headers();
    assert_eq!(
        headers,
        vec![
            ("Access-Control-Allow-Origin".to_string(), "*".to_string()),
            ("Access-Control-Allow-Methods".to_string(), "GET, POST, OPTIONS".to_string()),
            ("Access-Control-Allow-Headers".to_string(), "Content-Type, Authorization".to_string()),
        ]
    );
}

#[test]
fn proxy_start_and_stop() {
    let mut proxy = ProxyServerManager::new();
    assert!(proxy.needs_start());
    assert_eq!(
        proxy.start(Err("address in use".to_string())),
        Err("failed to start proxy on 127.0.0.1:4000: address in use".to_string())
    );
    assert!(proxy.needs_start());
    assert_eq!(proxy.start(Ok(())), Ok(()));
    assert!(!proxy.needs_start());
    assert_eq!(proxy.start(Err("not asked".to_string())), Ok(()));
    assert!(!proxy.needs_start());
    assert!(proxy.stop());
    assert!(!proxy.stop());
    assert!(proxy.needs_start());
}
