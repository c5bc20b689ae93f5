use crowsong::canary_view::{
    aggregate_tag_requests, parse_range, quality_from_name, raw_tag_requests, CallError,
    CanaryView,
};
use crowsong::credential::{
    can_stand_in_value, ApiKeyInterceptor, CredentialError, MAX_METADATA_LEN, TOKEN_KEY,
};
use crowsong::endpoint::{
    choose_transport, is_encrypted_scheme, transport_for, ConnectError, Transport, UriParts,
};
use crowsong::requests::{
    BrowseRequest, Duration, GetRawDataRequest, GetTagCurrentValueRequest, GetViewsRequest,
    Quality, Request, SubscribeToLiveDataRequest,
};
use crowsong::timestamp::{ParseError, Timestamp};
use crowsong::trust::{handshake_for, Checkpoint, TrustPolicy, Verdict};
use crowsong::views_client::{SessionError, SetupError, ViewsClient};
use tonic::metadata::MetadataMap;

fn parts(scheme: Option<&str>, host: Option<&str>, port: Option<u16>) -> UriParts {
    UriParts { scheme: scheme.map(String::from), host: host.map(String::from), port }
}

fn session(cci: i32) -> ViewsClient {
    ViewsClient::connect(
        "https://historian.example.com:55321",
        "secret-token".to_string(),
        "crowsong".to_string(),
        "python".to_string(),
    )
    .unwrap()
    .established(cci)
}

fn active(cci: i32) -> CanaryView {
    let mut view = CanaryView::new();
    assert!(view.establish(session(cci)));
    view
}

#[test]
fn plain_scheme_selects_the_plain_stream() {
    assert_eq!(transport_for("http://localhost:55321"), Ok(Transport::Plaintext));
    assert_eq!(transport_for("http://10.0.0.7:8080/path"), Ok(Transport::Plaintext));
    let t = transport_for("http://localhost:55321").unwrap();
    assert_eq!(handshake_for(&t, TrustPolicy::AcceptAny), None);
}

#[test]
fn encrypted_scheme_selects_a_handshake() {
    let t = transport_for("https://historian.example.com:55321").unwrap();
    assert_eq!(t, Transport::Encrypted { server_name: "historian.example.com".to_string() });
    let h = handshake_for(&t, TrustPolicy::AcceptAny).unwrap();
    assert_eq!(h.server_name, "historian.example.com");
    assert_eq!(h.alpn, b"h2".to_vec());
    assert_eq!(h.policy, TrustPolicy::AcceptAny);
    assert_eq!(
        transport_for("https://192.168.1.20:55321"),
        Ok(Transport::Encrypted { server_name: "192.168.1.20".to_string() })
    );
}

#[test]
fn addresses_that_are_no_uri() {
    assert_eq!(transport_for(""), Err(ConnectError::InvalidUri));
    assert_eq!(transport_for("https://exa mple.com"), Err(ConnectError::InvalidUri));
    assert_eq!(transport_for("http://[::1"), Err(ConnectError::InvalidUri));
}

#[test]
fn encrypted_scheme_needs_a_server_name() {
    assert_eq!(transport_for("https://exa_mple..com:1"), Err(ConnectError::InvalidServerName));
    assert_eq!(
        choose_transport(parts(Some("https"), None, None), false),
        Err(ConnectError::MissingHost)
    );
    assert_eq!(
        choose_transport(parts(Some("https"), None, None), true),
        Err(ConnectError::MissingHost)
    );
    assert_eq!(
        choose_transport(parts(Some("https"), Some("a.example"), Some(1)), false),
        Err(ConnectError::InvalidServerName)
    );
    assert_eq!(
        choose_transport(parts(Some("https"), Some("a.example"), Some(1)), true),
        Ok(Transport::Encrypted { server_name: "a.example".to_string() })
    );
}

#[test]
fn other_schemes_stay_plain() {
    for scheme in [Some("http"), Some("HTTPS"), Some("ftp"), Some("httpss"), Some(""), None] {
        for accepted in [false, true] {
            assert_eq!(
                choose_transport(parts(scheme, Some("a.example"), None), accepted),
                Ok(Transport::Plaintext)
            );
            assert_eq!(
                choose_transport(parts(scheme, None, None), accepted),
                Ok(Transport::Plaintext)
            );
        }
    }
    assert!(is_encrypted_scheme(&Some("https".to_string())));
    assert!(!is_encrypted_scheme(&Some("http".to_string())));
    assert!(!is_encrypted_scheme(&None));
}

#[test]
fn permissive_policy_accepts_everywhere() {
    for checkpoint in
        [Checkpoint::CertificateChain, Checkpoint::Tls12Signature, Checkpoint::Tls13Signature]
    {
        assert_eq!(TrustPolicy::AcceptAny.verdict(checkpoint), Verdict::Accepted);
    }
}

#[test]
fn credential_must_be_visible_text() {
    assert!(ApiKeyInterceptor::new("abc-DEF 123~".to_string()).is_ok());
    assert!(ApiKeyInterceptor::new("".to_string()).is_ok());
    assert!(ApiKeyInterceptor::new("tab\tinside".to_string()).is_ok());
    assert_eq!(
        ApiKeyInterceptor::new("line\nbreak".to_string()).unwrap_err(),
        CredentialError::InvalidToken
    );
    assert!(ApiKeyInterceptor::new("del\u{7f}".to_string()).is_err());
    assert!(ApiKeyInterceptor::new("caf\u{e9}".to_string()).is_ok());
    assert!(ApiKeyInterceptor::new("nul\u{0}".to_string()).is_err());
    assert!(can_stand_in_value(' '));
    assert!(can_stand_in_value('~'));
    assert!(!can_stand_in_value('\u{1f}'));
    assert_eq!(ApiKeyInterceptor::new("k".to_string()).unwrap().api_key(), "k");
}

#[test]
fn credential_validity_agrees_with_the_metadata_parser() {
    for code in 0u32..300 {
        let c = char::from_u32(code).unwrap();
        let token = format!("a{}b", c);
        let parsed = token.parse::<tonic::metadata::MetadataValue<tonic::metadata::Ascii>>();
        assert_eq!(ApiKeyInterceptor::new(token).is_ok(), parsed.is_ok());
    }
}

#[test]
fn interceptor_puts_the_token_into_the_metadata() {
    let interceptor = ApiKeyInterceptor::new("secret-token".to_string()).unwrap();
    let mut metadata = MetadataMap::new();
    metadata.insert("x-other", "kept".parse().unwrap());
    metadata.insert(TOKEN_KEY, "forged".parse().unwrap());
    metadata.append(TOKEN_KEY, "forged-too".parse().unwrap());
    assert!(interceptor.try_call(&mut metadata));
    let values: Vec<_> = metadata.get_all(TOKEN_KEY).iter().collect();
    assert_eq!(values.len(), 1);
    assert_eq!(values[0], "secret-token");
    assert_eq!(metadata.get("x-other").unwrap(), "kept");
    assert_eq!(metadata.len(), 2);
    interceptor.clone().call(&mut metadata);
    assert_eq!(metadata.get(TOKEN_KEY).unwrap(), "secret-token");
    assert_eq!(TOKEN_KEY, "canary-api-token");
    let accented = ApiKeyInterceptor::new("caf\u{e9}".to_string()).unwrap();
    accented.call(&mut metadata);
    assert_eq!(metadata.get(TOKEN_KEY).unwrap().as_bytes(), "caf\u{e9}".as_bytes());
}

#[test]
fn interceptor_leaves_a_full_map_alone() {
    let interceptor = ApiKeyInterceptor::new("secret-token".to_string()).unwrap();
    let mut metadata = MetadataMap::new();
    for _ in 0..MAX_METADATA_LEN {
        metadata.append("x-fill", "v".parse().unwrap());
    }
    assert!(!interceptor.try_call(&mut metadata));
    assert!(metadata.get(TOKEN_KEY).is_none());
    assert_eq!(metadata.len(), MAX_METADATA_LEN);
}

#[test]
fn connect_plans_a_session() {
    let plan = ViewsClient::connect(
        "https://historian.example.com:55321",
        "secret-token".to_string(),
        "crowsong-test".to_string(),
        "alice".to_string(),
    )
    .unwrap();
    assert_eq!(
        plan.transport,
        Transport::Encrypted { server_name: "historian.example.com".to_string() }
    );
    assert_eq!(plan.interceptor.api_key(), "secret-token");
    assert_eq!(plan.setup.app, "crowsong-test");
    assert_eq!(plan.setup.user_id, "alice");
    assert_eq!(plan.established(42).cci(), 42);
    assert!(!plan.established(42).is_released());
    let plain = ViewsClient::connect(
        "http://localhost:55321",
        "t".to_string(),
        "a".to_string(),
        "u".to_string(),
    )
    .unwrap();
    assert_eq!(plain.transport, Transport::Plaintext);
}

#[test]
fn connect_reports_the_first_fault() {
    let connect = |endpoint: &str, key: &str| {
        ViewsClient::connect(endpoint, key.to_string(), "a".to_string(), "u".to_string())
            .map(|plan| plan.transport)
    };
    assert_eq!(connect("", "bad\nkey"), Err(SetupError::InvalidUri));
    assert_eq!(connect("https://exa_mple..com:1", "bad\nkey"), Err(SetupError::InvalidCredential));
    assert_eq!(connect("http://localhost:1", "bad\nkey"), Err(SetupError::InvalidCredential));
    assert_eq!(connect("https://exa_mple..com:1", "key"), Err(SetupError::InvalidServerName));
    assert_eq!(connect("http://localhost:1", "key"), Ok(Transport::Plaintext));
}

#[test]
fn call_overrides_the_session_field() {
    let view = active(7);
    let client = session(7);
    for forged in [0, -1, 8, i32::MAX, i32::MIN] {
        let sent = view.call(Request::GetViews(GetViewsRequest { cci: forged })).unwrap();
        assert_eq!(sent, Request::GetViews(GetViewsRequest { cci: 7 }));
        let sent = client.call(Request::GetViews(GetViewsRequest { cci: forged })).unwrap();
        assert_eq!(sent, Request::GetViews(GetViewsRequest { cci: 7 }));
        let raw = GetRawDataRequest {
            view: "v".to_string(),
            requests: vec![],
            max_count_per_tag: 3,
            return_bounds: true,
            return_annotations: true,
            cci: forged,
        };
        let sent = client.get_raw_data(raw.clone());
        assert_eq!(sent, Ok(GetRawDataRequest { cci: 7, ..raw }));
        let live = client.subscribe_to_live_data(SubscribeToLiveDataRequest { cci: forged });
        assert_eq!(live.unwrap().cci, 7);
        let current = GetTagCurrentValueRequest {
            view: "v".to_string(),
            tag_names: vec!["t".to_string()],
            use_time_extension: Some(true),
            quality: Quality::Good,
            cci: forged,
        };
        assert_eq!(
            client.get_tag_current_value(current.clone()),
            Ok(GetTagCurrentValueRequest { cci: 7, ..current })
        );
    }
    let browse = Request::Browse(BrowseRequest { node_id_path: "a.b".to_string(), force_reload: true });
    assert_eq!(view.call(browse.clone()), Ok(browse));
    assert_eq!(view.call(Request::Test), Ok(Request::Test));
}

#[test]
fn client_builds_requests_with_its_identifier() {
    let client = session(11);
    assert_eq!(client.cci(), 11);
    assert_eq!(client.get_views().unwrap().cci, 11);
    assert_eq!(client.keepalive().unwrap().cci, 11);
    let list = client.get_dataset_list("v".to_string(), true).unwrap();
    assert_eq!((list.view.as_str(), list.include_hidden, list.cci), ("v", true, 11));
    let info = client.get_dataset_info("v".to_string(), "d".to_string()).unwrap();
    assert_eq!((info.view.as_str(), info.dataset_name.as_str(), info.cci), ("v", "d", 11));
    let tags = client.get_tag_list("v".to_string(), "d".to_string(), 5, 100).unwrap();
    assert_eq!((tags.starting_offset, tags.max_count, tags.cci), (5, 100, 11));
    let names = vec!["a".to_string(), "b".to_string()];
    assert_eq!(client.get_tag_info("v".to_string(), names.clone()).unwrap().tag_names, names);
    assert_eq!(client.get_tag_data_context("v".to_string(), names.clone()).unwrap().cci, 11);
    assert_eq!(client.browse_path(names.clone()).unwrap().tree_path, names);
    assert_eq!(client.browse("n".to_string(), false).unwrap().node_id_path, "n");
    assert_eq!(client.test(), Ok(Request::Test));
    assert_eq!(client.get_version(), Ok(Request::GetWebServiceVersion));
    assert_eq!(client.get_aggregate_list(), Ok(Request::GetAggregateList));
}

#[test]
fn released_client_gives_no_request() {
    let mut client = session(11);
    let release = client.disconnect().unwrap();
    assert_eq!(release.cci, 11);
    assert!(client.is_released());
    assert_eq!(client.cci(), 11);
    assert_eq!(client.disconnect(), None);
    assert_eq!(client.disconnect(), None);
    let gone = SessionError::Disconnected;
    assert_eq!(client.get_views(), Err(gone));
    assert_eq!(client.keepalive(), Err(gone));
    assert_eq!(client.test(), Err(gone));
    assert_eq!(client.get_version(), Err(gone));
    assert_eq!(client.get_aggregate_list(), Err(gone));
    assert_eq!(client.call(Request::Test), Err(gone));
    assert_eq!(client.call(Request::GetViews(GetViewsRequest { cci: 11 })), Err(gone));
    assert_eq!(client.get_dataset_list("v".to_string(), false), Err(gone));
    assert_eq!(client.get_dataset_info("v".to_string(), "d".to_string()), Err(gone));
    assert_eq!(client.get_tag_list("v".to_string(), "d".to_string(), 0, 1), Err(gone));
    assert_eq!(client.get_tag_info("v".to_string(), vec![]), Err(gone));
    assert_eq!(client.get_tag_data_context("v".to_string(), vec![]), Err(gone));
    assert_eq!(client.browse("n".to_string(), false), Err(gone));
    assert_eq!(client.browse_path(vec![]), Err(gone));
    assert_eq!(
        client.subscribe_to_live_data(SubscribeToLiveDataRequest { cci: 11 }),
        Err(gone)
    );
    let raw = GetRawDataRequest {
        view: "v".to_string(),
        requests: vec![],
        max_count_per_tag: 3,
        return_bounds: true,
        return_annotations: true,
        cci: 11,
    };
    assert_eq!(client.get_raw_data(raw), Err(gone));
}

#[test]
fn released_session_rejects_calls() {
    let mut view = active(7);
    assert_eq!(view.cci(), Ok(7));
    assert_eq!(view.repr(), "CanaryView(cci=7)");
    assert_eq!(view.get_views(), Ok(GetViewsRequest { cci: 7 }));
    let release = view.disconnect().unwrap();
    assert_eq!(release.cci, 7);
    assert_eq!(view.cci(), Err(SessionError::Disconnected));
    assert_eq!(view.client().err(), Some(SessionError::Disconnected));
    assert_eq!(view.repr(), "CanaryView(disconnected)");
    assert_eq!(view.call(Request::Test), Err(SessionError::Disconnected));
    assert_eq!(
        view.call(Request::GetViews(GetViewsRequest { cci: 7 })),
        Err(SessionError::Disconnected)
    );
    assert_eq!(view.get_views(), Err(SessionError::Disconnected));
    assert_eq!(view.keepalive(), Err(SessionError::Disconnected));
    assert_eq!(view.test(), Err(SessionError::Disconnected));
    assert_eq!(view.get_version(), Err(SessionError::Disconnected));
    assert_eq!(view.browse_path(vec![]), Err(SessionError::Disconnected));
    assert_eq!(view.disconnect(), None);
    assert!(!view.establish(session(8)));
    assert_eq!(view.call(Request::Test), Err(SessionError::Disconnected));
    assert_eq!(
        view.get_tag_current_value("v".to_string(), vec![], "good"),
        Err(SessionError::Disconnected)
    );
    assert_eq!(
        view.search_tags(vec![], vec![]),
        Err(SessionError::Disconnected)
    );
    assert_eq!(
        view.get_raw_data("v".to_string(), vec![], "1970-01-01", "1970-01-02", 1, false),
        Err(CallError::Session(SessionError::Disconnected))
    );
}

#[test]
fn unestablished_session_rejects_calls() {
    let mut view = CanaryView::new();
    assert_eq!(view.call(Request::Test), Err(SessionError::NotEstablished));
    assert_eq!(view.cci(), Err(SessionError::NotEstablished));
    assert_eq!(view.get_views(), Err(SessionError::NotEstablished));
    assert_eq!(view.repr(), "CanaryView(disconnected)");
    assert_eq!(view.disconnect(), None);
    assert_eq!(view.call(Request::Test), Err(SessionError::NotEstablished));
    assert!(view.establish(session(3)));
    assert!(!view.establish(session(4)));
    assert_eq!(view.cci(), Ok(3));
    assert_eq!(CanaryView::new(), CanaryView::new());
    let mut late = CanaryView::new();
    let mut released = session(5);
    assert!(released.disconnect().is_some());
    assert!(late.establish(released));
    assert_eq!(late.cci(), Err(SessionError::Disconnected));
}

#[test]
fn handle_builds_requests_with_its_identifier() {
    let view = active(6);
    assert_eq!(view.keepalive().unwrap().cci, 6);
    assert_eq!(view.test(), Ok(Request::Test));
    assert_eq!(view.get_version(), Ok(Request::GetWebServiceVersion));
    assert_eq!(view.get_aggregate_list(), Ok(Request::GetAggregateList));
    let list = view.get_dataset_list("v".to_string(), true).unwrap();
    assert_eq!((list.view.as_str(), list.include_hidden, list.cci), ("v", true, 6));
    let info = view.get_dataset_info("v".to_string(), "d".to_string()).unwrap();
    assert_eq!((info.view.as_str(), info.dataset_name.as_str(), info.cci), ("v", "d", 6));
    let tags = view.get_tag_list("v".to_string(), "d".to_string(), 5, 100).unwrap();
    assert_eq!((tags.starting_offset, tags.max_count, tags.cci), (5, 100, 6));
    let names = vec!["a".to_string()];
    assert_eq!(view.get_tag_info("v".to_string(), names.clone()).unwrap().cci, 6);
    assert_eq!(view.get_tag_data_context("v".to_string(), names.clone()).unwrap().tag_names, names);
    assert_eq!(view.browse("n".to_string(), true).unwrap().force_reload, true);
    assert_eq!(view.browse_path(names.clone()).unwrap().tree_path, names);
}

#[test]
fn negative_identifier_in_repr() {
    let view = active(-12);
    assert_eq!(view.repr(), "CanaryView(cci=-12)");
    let view = active(i32::MIN);
    assert_eq!(view.repr(), "CanaryView(cci=-2147483648)");
}

#[test]
fn quality_names() {
    assert_eq!(quality_from_name("non_bad"), Quality::NonBad);
    assert_eq!(quality_from_name("good"), Quality::Good);
    assert_eq!(quality_from_name("any"), Quality::Any);
    assert_eq!(quality_from_name("GOOD"), Quality::Any);
    assert_eq!(quality_from_name(""), Quality::Any);
    let view = active(5);
    let sent = view
        .get_tag_current_value("v".to_string(), vec!["t".to_string()], "non_bad")
        .unwrap();
    assert_eq!(
        sent,
        GetTagCurrentValueRequest {
            view: "v".to_string(),
            tag_names: vec!["t".to_string()],
            use_time_extension: None,
            quality: Quality::NonBad,
            cci: 5,
        }
    );
}

#[test]
fn raw_data_request_covers_each_tag() {
    let view = active(9);
    let names = vec!["a".to_string(), "b".to_string(), "c".to_string()];
    let request = view
        .get_raw_data(
            "v".to_string(),
            names.clone(),
            "2024-01-15T10:30:00Z",
            "2024-01-15 10:50:00.5",
            1000,
            true,
        )
        .unwrap();
    let start = Timestamp { seconds: 1_705_314_600, nanos: 0 };
    let end = Timestamp { seconds: 1_705_315_800, nanos: 500_000_000 };
    assert_eq!(request.cci, 9);
    assert_eq!(request.view, "v");
    assert_eq!(request.max_count_per_tag, 1000);
    assert!(request.return_bounds);
    assert!(!request.return_annotations);
    assert_eq!(request.requests.len(), 3);
    for (i, tag) in request.requests.iter().enumerate() {
        assert_eq!(tag.tag_name, names[i]);
        assert_eq!(tag.start_time, Some(start));
        assert_eq!(tag.end_time, Some(end));
        assert_eq!(tag.client_data, 0);
        assert!(tag.continuation_point.is_empty());
    }
    assert_eq!(raw_tag_requests(&names, start, end), request.requests);
    assert!(raw_tag_requests(&vec![], start, end).is_empty());
}

#[test]
fn times_are_read_before_the_session_is_asked() {
    let mut view = CanaryView::new();
    let bad_start = view.get_raw_data("v".to_string(), vec![], "2024-13-01", "x", 1, false);
    assert_eq!(
        bad_start,
        Err(CallError::Time(ParseError::InvalidMonth("13".to_string())))
    );
    let bad_end = view.get_raw_data("v".to_string(), vec![], "2024-01-01", "x", 1, false);
    assert_eq!(bad_end, Err(CallError::Time(ParseError::InvalidDate("x".to_string()))));
    let no_session = view.get_raw_data("v".to_string(), vec![], "2024-01-01", "2024-01-02", 1, false);
    assert_eq!(no_session, Err(CallError::Session(SessionError::NotEstablished)));
    assert_eq!(view.disconnect(), None);
    assert_eq!(
        parse_range("2024-01-01", "2024-01-02"),
        Ok((
            Timestamp { seconds: 1_704_067_200, nanos: 0 },
            Timestamp { seconds: 1_704_153_600, nanos: 0 }
        ))
    );
    assert_eq!(
        parse_range("2024-01-32", "nonsense"),
        Err(ParseError::InvalidDay("32".to_string()))
    );
}

#[test]
fn aggregate_and_statistics_requests() {
    let view = active(4);
    let names = vec!["a".to_string(), "b".to_string()];
    let request = view
        .get_aggregate_data(
            "v".to_string(),
            names.clone(),
            "2024-01-01",
            "2024-01-02",
            3600,
            "TimeAverage",
        )
        .unwrap();
    assert_eq!(request.cci, 4);
    assert_eq!(request.start_time, Some(Timestamp { seconds: 1_704_067_200, nanos: 0 }));
    assert_eq!(request.end_time, Some(Timestamp { seconds: 1_704_153_600, nanos: 0 }));
    assert_eq!(request.interval, Some(Duration { seconds: 3600, nanos: 0 }));
    assert!(!request.return_annotations);
    assert_eq!(request.requests, aggregate_tag_requests(&names, "TimeAverage"));
    assert_eq!(request.requests.len(), 2);
    assert_eq!(request.requests[1].tag_name, "b");
    assert_eq!(request.requests[1].aggregate_name, "TimeAverage");
    assert_eq!(request.requests[1].aggregate_configuration, None);
    assert!(!request.requests[1].sloped);
    assert_eq!(request.requests[1].client_data, 0);
    let stats = view
        .get_tag_statistics(
            "v".to_string(),
            "tag".to_string(),
            "2024-01-01",
            "2024-01-02",
            60,
            "Max".to_string(),
            true,
            false,
        )
        .unwrap();
    assert_eq!(stats.view_name, "v");
    assert_eq!(stats.tag_id, "tag");
    assert_eq!(stats.interval, Some(Duration { seconds: 60, nanos: 0 }));
    assert_eq!(stats.aggregate_name, "Max");
    assert!(stats.include_std_dev);
    assert!(!stats.include_percentiles);
    assert_eq!(stats.cci, 4);
    assert_eq!(
        view.get_tag_statistics(
            "v".to_string(), "t".to_string(), "bad", "2024-01-02", 60, "Max".to_string(), true, true
        ),
        Err(CallError::Time(ParseError::InvalidDate("bad".to_string())))
    );
}

#[test]
fn browse_and_search_requests() {
    let view = active(4);
    let r = view.browse_tags("node".to_string(), "ctx".to_string(), 50, true).unwrap();
    assert_eq!(r.node_id_browse, "node");
    assert_eq!(r.search_context, "ctx");
    assert_eq!(r.max_count, 50);
    assert!(r.include_sub_nodes);
    assert!(!r.include_properties);
    let search = view.search_tags(vec!["a".to_string()], vec!["b".to_string()]).unwrap();
    assert_eq!(search.tag_and, vec!["a".to_string()]);
    assert_eq!(search.tag_or, vec!["b".to_string()]);
    assert!(search.description_and.is_empty() && search.description_or.is_empty());
    assert!(search.eng_units_and.is_empty() && search.eng_units_or.is_empty());
    assert!(!search.include_properties);
}
