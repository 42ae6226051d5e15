//! The requests that the client sends.

use domain_fronting::header::HttpError;
use domain_fronting::message::Method;
use domain_fronting::request::{
    create_read_request, create_write_request, read_request, write_request,
};
use domain_fronting::session_id::Uuid;
use domain_fronting::uri::Uri;
use domain_fronting::DomainFronting;

const SESSION: Uuid = Uuid { bits: 0x67e55044_10b1_426f_9247_bb680e5fe0c8 };
const PATH: Uuid = Uuid { bits: 0x0000000a_000b_4000_8000_00000000000c };

fn fronting(front: &str, host: &str) -> DomainFronting {
    DomainFronting::new(Uri::parse(front).unwrap(), host.to_owned())
}

#[test]
fn a_write_request() {
    let df = fronting("https://cdn.example.com", "api.example.com");
    let request = write_request(&df, SESSION, PATH, b"data".to_vec(), true).unwrap();
    assert_eq!(request.method, Method::Post);
    assert_eq!(
        request.uri,
        "https://api.example.com/0000000a-000b-4000-8000-00000000000c"
    );
    assert_eq!(request.headers.len(), 3);
    assert_eq!(request.headers["host"], "api.example.com");
    assert_eq!(request.headers["content-type"], "application/octet-stream");
    assert_eq!(request.headers["x-session"], "67e55044-10b1-426f-9247-bb680e5fe0c8");
    assert_eq!(request.body, b"data");

    let request = write_request(&df, SESSION, PATH, Vec::new(), false).unwrap();
    assert_eq!(request.method, Method::Patch);
}

#[test]
fn a_read_request() {
    let df = fronting("http://cdn.example.com", "api.example.com")
        .with_session_key("X-Tunnel".to_owned());
    let request = read_request(&df, SESSION, PATH).unwrap();
    assert_eq!(request.method, Method::Get);
    assert_eq!(
        request.uri,
        "http://api.example.com/0000000a-000b-4000-8000-00000000000c"
    );
    assert_eq!(request.headers.len(), 3);
    assert_eq!(request.headers["host"], "api.example.com");
    assert_eq!(request.headers["accept"], "*/*");
    assert_eq!(request.headers["x-tunnel"], "67e55044-10b1-426f-9247-bb680e5fe0c8");
    assert!(request.body.is_empty());
}

#[test]
fn paths_are_random() {
    let df = fronting("https://cdn.example.com", "api.example.com");
    let a = create_read_request(&df, SESSION).unwrap();
    let b = create_read_request(&df, SESSION).unwrap();
    let c = create_write_request(&df, SESSION, b"x".to_vec(), true).unwrap();
    assert_ne!(a.uri, b.uri);
    assert_ne!(a.uri, c.uri);
    for request in [a, b, c] {
        let path = request.uri.strip_prefix("https://api.example.com/").unwrap();
        let path = uuid::Uuid::parse_str(path).unwrap();
        assert_eq!(path.get_version_num(), 4);
        assert_eq!(request.headers["x-session"], "67e55044-10b1-426f-9247-bb680e5fe0c8");
    }
}

#[test]
fn requests_that_cannot_be_built() {
    let host = "api.example.com";
    let front = "https://cdn.example.com";
    for (df, error) in [
        (fronting(front, "not a host"), HttpError::InvalidUri),
        (fronting(front, ""), HttpError::InvalidUri),
        (
            fronting(front, host).with_session_key("no name".to_owned()),
            HttpError::InvalidHeaderName,
        ),
        (fronting(front, host).with_session_key(String::new()), HttpError::InvalidHeaderName),
    ] {
        assert_eq!(read_request(&df, SESSION, PATH).unwrap_err(), error);
        assert_eq!(
            write_request(&df, SESSION, PATH, Vec::new(), true).unwrap_err(),
            error
        );
    }
}

#[test]
fn a_session_key_of_another_header_is_added_behind_it() {
    let df = fronting("https://cdn.example.com", "api.example.com")
        .with_session_key("Host".to_owned());
    let request = read_request(&df, SESSION, PATH).unwrap();
    let values: Vec<_> = request.headers.get_all("host").iter().collect();
    assert_eq!(values, ["api.example.com", "67e55044-10b1-426f-9247-bb680e5fe0c8"]);
}

#[test]
fn methods_are_found_by_their_names() {
    for method in [Method::Get, Method::Post, Method::Patch] {
        assert_eq!(Method::from_name(method.as_str()), Some(method));
    }
    assert_eq!(Method::Get.as_str(), "GET");
    for other in ["get", "PUT", "", "GET "] {
        assert_eq!(Method::from_name(other), None);
    }
}
