use axum_proxy::{
    builder, forward, Authority, HeaderField, Identity, OneshotService, PendingCall, ProxyRequest,
    Reject, ReplacePrefix, Scheme, Static, UriFault,
};

fn sample_request(path_and_query: &str) -> ProxyRequest<Vec<u8>> {
    ProxyRequest {
        method: "GET".to_string(),
        headers: vec![
            HeaderField { name: "host".to_string(), value: b"myserver.com".to_vec() },
            HeaderField { name: "x-trace".to_string(), value: b"abc".to_vec() },
            HeaderField { name: "x-trace".to_string(), value: b"def".to_vec() },
        ],
        path_and_query: path_and_query.to_string(),
        body: b"payload".to_vec(),
    }
}

#[test]
fn static_policy_maps_every_path_to_the_fixed_path() {
    let mut svc =
        OneshotService::from((), "http", "backend:8080", Static::new("/bar".to_string())).unwrap();
    for inbound in ["/foo", "/api/users?x=1", "/", "/a/b/c?q=2&r=3"] {
        let out = svc.call(sample_request(inbound)).unwrap();
        assert_eq!(out.path_and_query, "/bar");
        assert_eq!(out.scheme, Scheme::Http);
        assert_eq!(out.authority.as_str(), "backend:8080");
        assert_eq!(out.method, "GET");
        assert_eq!(out.headers, sample_request(inbound).headers);
        assert_eq!(out.body, b"payload".to_vec());
    }
}

#[test]
fn identity_policy_preserves_path_and_query() {
    let mut svc = OneshotService::from((), "https", "example.com", Identity).unwrap();
    let out = svc.call(sample_request("/api/users?x=1")).unwrap();
    assert_eq!(out.path_and_query, "/api/users?x=1");
    assert_eq!(out.scheme, Scheme::Https);
    assert_eq!(out.authority.as_str(), "example.com");
}

#[test]
fn post_method_and_body_are_preserved() {
    let mut svc =
        OneshotService::from((), "http", "backend:8080", Identity).unwrap();
    let req = ProxyRequest {
        method: "POST".to_string(),
        headers: vec![HeaderField { name: "content-type".to_string(), value: b"text/plain".to_vec() }],
        path_and_query: "/submit".to_string(),
        body: b"hello".to_vec(),
    };
    let out = svc.call(req).unwrap();
    assert_eq!(out.method, "POST");
    assert_eq!(out.body, b"hello".to_vec());
    assert_eq!(out.headers.len(), 1);
    assert_eq!(out.headers[0].name, "content-type");
    assert_eq!(out.headers[0].value, b"text/plain".to_vec());
}

#[test]
fn invalid_method_is_reported_before_the_policy_runs() {
    let mut svc =
        OneshotService::from((), "http", "backend:8080", Static::new("/bar".to_string())).unwrap();
    let mut req = sample_request("/foo");
    req.method = "GE T".to_string();
    assert_eq!(svc.call(req).err(), Some(UriFault::BadMethod));
}

#[test]
fn invalid_header_name_is_reported() {
    let mut svc =
        OneshotService::from((), "http", "backend:8080", Static::new("/bar".to_string())).unwrap();
    let mut req = sample_request("/foo");
    req.headers.push(HeaderField { name: "bad name".to_string(), value: b"v".to_vec() });
    assert_eq!(svc.call(req).err(), Some(UriFault::BadHeader));
}

#[test]
fn invalid_header_value_is_reported() {
    let mut svc =
        OneshotService::from((), "http", "backend:8080", Static::new("/bar".to_string())).unwrap();
    let mut req = sample_request("/foo");
    req.headers.push(HeaderField { name: "x-ok".to_string(), value: b"bad\nvalue".to_vec() });
    assert_eq!(svc.call(req).err(), Some(UriFault::BadHeader));
}

#[test]
fn policy_rejection_is_reported() {
    let mut svc = OneshotService::from((), "http", "backend:8080", Reject).unwrap();
    assert_eq!(svc.call(sample_request("/foo")).err(), Some(UriFault::PolicyRejected));
}

#[test]
fn invalid_rewritten_path_never_reaches_the_client() {
    // A policy whose output is no valid URI component: the call resolves to
    // an InvalidUri fault and the mock client counts zero dispatches.
    let mut svc =
        OneshotService::from((), "http", "backend:8080", Static::new("bad path".to_string()))
            .unwrap();
    let mut dispatches: u32 = 0;
    let call: PendingCall<&'static str> = match svc.call(sample_request("/foo")) {
        Ok(_outbound) => {
            dispatches += 1;
            PendingCall::delegated("handle")
        }
        Err(fault) => PendingCall::failing(fault),
    };
    assert_eq!(dispatches, 0);
    assert!(!call.is_spent());
    match call.activate() {
        axum_proxy::Activation::Captured(f) => assert_eq!(f, UriFault::BadPathAndQuery),
        axum_proxy::Activation::Live(_) => panic!("the client must not be invoked"),
    }
}

#[test]
fn replace_prefix_rewrites_a_matching_path() {
    let mut svc = OneshotService::from(
        (),
        "http",
        "backend:8080",
        ReplacePrefix::new("/api".to_string(), "/v2".to_string()),
    )
    .unwrap();
    let out = svc.call(sample_request("/api/users?x=1")).unwrap();
    assert_eq!(out.path_and_query, "/v2/users?x=1");
    assert_eq!(out.scheme, Scheme::Http);
    assert_eq!(out.authority.as_str(), "backend:8080");
    assert_eq!(out.method, "GET");
}

#[test]
fn replace_prefix_leaves_other_paths_alone() {
    let mut svc = OneshotService::from(
        (),
        "http",
        "backend:8080",
        ReplacePrefix::new("/api".to_string(), "/v2".to_string()),
    )
    .unwrap();
    let out = svc.call(sample_request("/static/app.js")).unwrap();
    assert_eq!(out.path_and_query, "/static/app.js");
    let out = svc.call(sample_request("/a")).unwrap();
    assert_eq!(out.path_and_query, "/a");
}

#[test]
fn identity_policy_reports_an_invalid_inbound_path() {
    // The inbound path is forwarded unchanged, so an inbound path that is
    // no valid URI component is exactly what an invalid policy output is.
    let mut svc = OneshotService::from((), "http", "backend:8080", Identity).unwrap();
    assert_eq!(svc.call(sample_request("not a path")).err(), Some(UriFault::BadPathAndQuery));
}

#[test]
fn duplicated_builder_shares_the_same_client() {
    let b = builder(5u64, "http", "backend:8080").unwrap();
    let b2 = b.dup();
    assert!(std::sync::Arc::ptr_eq(&b.client, &b2.client));
    assert_eq!(b.scheme, b2.scheme);
    assert_eq!(b.authority.as_str(), b2.authority.as_str());
    let svc1 = b.build(Static::new("/a".to_string()));
    let svc2 = b2.build(Static::new("/b".to_string()));
    assert!(std::sync::Arc::ptr_eq(&svc1.client, &svc2.client));
}

#[test]
fn forwarders_from_one_builder_are_independent() {
    let b = builder("shared-client".to_string(), "http", "backend:8080").unwrap();
    let mut svc1 = b.build(Static::new("/bar".to_string()));
    let mut svc2 = b.build(Static::new("/baz".to_string()));

    // Interleaved calls: each forwarder observes only its own policy.
    let out1a = svc1.call(sample_request("/foo?x=1")).unwrap();
    let out2a = svc2.call(sample_request("/foo?x=1")).unwrap();
    let out1b = svc1.call(sample_request("/other")).unwrap();
    let out2b = svc2.call(sample_request("/other")).unwrap();
    assert_eq!(out1a.path_and_query, "/bar");
    assert_eq!(out1b.path_and_query, "/bar");
    assert_eq!(out2a.path_and_query, "/baz");
    assert_eq!(out2b.path_and_query, "/baz");

    // Both dispatch through the one shared client, against the one target.
    assert_eq!(*svc1.client, "shared-client");
    assert_eq!(*svc2.client, "shared-client");
    assert!(std::sync::Arc::ptr_eq(&svc1.client, &svc2.client));
    assert_eq!(svc1.authority.as_str(), svc2.authority.as_str());
    assert_eq!(svc1.scheme, svc2.scheme);
}

#[test]
fn forward_applies_the_policy_to_the_given_target() {
    let authority = Authority::parse("backend:8080").unwrap();
    let mut policy = Static::new("/v2/users".to_string());
    let out = forward(&mut policy, Scheme::Http, &authority, sample_request("/api/users?x=1"))
        .unwrap();
    assert_eq!(out.path_and_query, "/v2/users");
    assert_eq!(out.scheme, Scheme::Http);
    assert_eq!(out.authority.as_str(), "backend:8080");
}
