use signal_relay::store::{rocket, ChannelData, Method, Request, Response};

#[test]
fn test_save_load() {
    let data = ChannelData {
        description: "v=0
            o=- 3294530454 0 IN IP4 127.0.0.1
            s=-
            t=0 0
            a=group:BUNDLE 0
            m=application 9 UDP/DTLS/SCTP webrtc-datachannel
            c=IN IP4 0.0.0.0
            a=ice-ufrag:ntAX
            a=ice-pwd:H59OKuJgItlvJZR5E78QYo
            a=ice-options:trickle
            a=mid:0
            a=setup:actpass
            a=dtls-id:1
            a=fingerprint:sha-256 72:0E:8D:8C:9F:A2:E4:40:E7:2E:23:EF:F6:E7:89:94:0F:6B:78:9A:36:61:43:2C:6A:45:30:62:CB:68:B3:73
            a=sctp-port:5000
            a=max-message-size:262144".to_owned(),
        candidate: "a=candidate:1 1 UDP 2122317823 10.0.1.83 55100 typ host".to_owned(),
    };
    println!("{:?}", data);
    let mut client = rocket();

    let res = client.dispatch(Request {
        method: Method::Post,
        path: "/state/json".to_owned(),
        payload: Some(data.clone()),
    });
    assert_eq!(res.status_code(), 200);

    let res = client.dispatch(Request {
        method: Method::Get,
        path: "/state/json".to_owned(),
        payload: None,
    });
    assert_eq!(res.status_code(), 200);

    match res {
        Response::Loaded(body) => {
            println!("{:?}", body);
            assert_eq!(body.description, data.description);
            assert_eq!(body.candidate, data.candidate);
        }
        _ => panic!("the slot was not returned"),
    }
}

#[test]
fn store_starts_empty() {
    let service = rocket();
    assert_eq!(service.state, ChannelData::default());
    assert_eq!(service.state.description, "");
    assert_eq!(service.state.candidate, "");
    assert_eq!(service.mount, "/state");
    assert_eq!(service.cors, signal_relay::store::make_cors());
}

#[test]
fn cors_policy_values() {
    let policy = signal_relay::store::make_cors();
    assert_eq!(
        policy.allowed_origins,
        vec![
            "http://localhost:8080".to_string(),
            "http://127.0.0.1:8080".to_string(),
            "http://localhost:8000".to_string(),
            "http://0.0.0.0:8000".to_string(),
        ]
    );
    assert_eq!(policy.allowed_methods, vec![Method::Get, Method::Post]);
    assert_eq!(
        policy.allowed_headers,
        vec![
            "Authorization".to_string(),
            "Accept".to_string(),
            "Content-Type".to_string(),
            "User-Agent".to_string(),
            "Access-Control-Allow-Origin".to_string(),
        ]
    );
    assert!(policy.allow_credentials);
}

#[test]
fn unknown_requests_are_not_found() {
    let mut service = rocket();
    let data = ChannelData { description: "d".to_owned(), candidate: "c".to_owned() };
    for (method, path, payload) in [
        (Method::Get, "/state", None),
        (Method::Get, "/json", None),
        (Method::Get, "/state/json/", None),
        (Method::Post, "/state/other", Some(data.clone())),
        (Method::Post, "/state/json", None),
    ] {
        let res = service.dispatch(Request { method, path: path.to_owned(), payload });
        assert_eq!(res.status_code(), 404);
        match res {
            Response::NotFound(reply) => {
                assert_eq!(reply.status, "error");
                assert_eq!(reply.reason, Some("Resource was not found.".to_owned()));
            }
            other => panic!("unexpected answer: {:?}", other),
        }
        assert_eq!(service.state, ChannelData::default());
    }
}

#[test]
fn save_replaces_the_slot() {
    let mut state = ChannelData::default();
    let first = ChannelData { description: "d1".to_owned(), candidate: "c1".to_owned() };
    let second = ChannelData { description: "d2".to_owned(), candidate: "c2".to_owned() };
    let reply = signal_relay::store::new(first.clone(), &mut state);
    assert_eq!(reply.status, "ok");
    assert_eq!(reply.reason, None);
    assert_eq!(signal_relay::store::get(&state), Some(first));
    signal_relay::store::new(second.clone(), &mut state);
    assert_eq!(signal_relay::store::get(&state), Some(second.clone()));
    assert_eq!(state, second);
    let reply = signal_relay::store::not_found();
    assert_eq!(reply.status, "error");
    assert_eq!(reply.reason, Some("Resource was not found.".to_owned()));
}
