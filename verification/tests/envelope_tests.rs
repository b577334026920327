use camellia::body::Body;
use camellia::context::ServerContext;
use camellia::error::Error;
use camellia::request::{Builder, Request};
use camellia::response::Response;

#[test]
fn service_path_is_slash_service_slash_method() {
    let cx = ServerContext {
        service: "Greeter".to_string(),
        method: "SayHello".to_string(),
    };
    assert_eq!(cx.service_path(), "/Greeter/SayHello");
}

#[test]
fn service_path_of_empty_names() {
    let cx = ServerContext {
        service: String::new(),
        method: String::new(),
    };
    assert_eq!(cx.service_path(), "//");
}

#[test]
fn request_new_owns_its_payload() {
    let req = Request::new(Body::Number(42));
    assert!(matches!(req.body(), Body::Number(42)));
}

#[test]
fn builder_chain_finalizes_into_a_request() {
    let req = Request::<Body>::builder()
        .service("Greeter")
        .method("SayHello")
        .body(Body::String("hi".to_string()));
    assert!(matches!(req.body(), Body::String(s) if s == "hi"));
}

#[test]
fn builder_default_is_empty() {
    let b: Builder = Default::default();
    let req = b.body(Body::Null);
    assert!(matches!(req.body(), Body::Null));
}

#[test]
fn response_round_trips_its_payload() {
    let resp = Response::new(Body::Bulk(vec![0u8, 255]));
    assert!(matches!(resp.body(), Body::Bulk(b) if *b == vec![0u8, 255]));
    match resp.into_body() {
        Body::Bulk(b) => assert_eq!(b, vec![0u8, 255]),
        _ => panic!("wrong frame variant"),
    }
}

#[test]
fn body_clone_copies_every_variant() {
    let frames = vec![
        Body::String("s".to_string()),
        Body::Error("e".to_string()),
        Body::Number(7),
        Body::Bulk(vec![1u8, 2]),
        Body::Null,
    ];
    for frame in &frames {
        let copy = frame.clone();
        match (frame, &copy) {
            (Body::String(a), Body::String(b)) => assert_eq!(a, b),
            (Body::Error(a), Body::Error(b)) => assert_eq!(a, b),
            (Body::Number(a), Body::Number(b)) => assert_eq!(a, b),
            (Body::Bulk(a), Body::Bulk(b)) => assert_eq!(a, b),
            (Body::Null, Body::Null) => {},
            _ => panic!("clone changed the variant"),
        }
    }
}

#[test]
fn io_error_wraps_a_transport_failure_verbatim() {
    let inner = std::io::Error::new(std::io::ErrorKind::Other, "boom");
    let err = Error::IOError(inner);
    match err {
        Error::IOError(e) => assert_eq!(e.kind(), std::io::ErrorKind::Other),
        _ => panic!("wrong variant"),
    }
}
