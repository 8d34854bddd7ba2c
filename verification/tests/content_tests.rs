use keyboard_capture::content::{file_response, Asset, Header, Lookup, Reply, Resolution, STATUS_OK};

fn line(name: &str, value: &str) -> Header {
    Header { name: name.to_string(), value: value.to_string() }
}

fn page() -> Asset {
    Asset { bytes: b"<html></html>".to_vec(), mime_type: "text/html".to_string() }
}

#[test]
fn requested_path_is_served_with_its_content_type() {
    let expected = Reply {
        status: 200,
        headers: vec![
            line("accept-ranges", "bytes"),
            line("access-control-allow-origin", "*"),
            line("content-type", "text/html"),
            line("content-security-policy", "frame-ancestors *"),
            line("x-frame-options", "ALLOW-FROM *"),
        ],
        body: b"<html></html>".to_vec(),
    };
    assert_eq!(file_response(Lookup::Requested, Some(page())), Resolution::Serve(expected));
    assert_eq!(STATUS_OK, 200);
}

#[test]
fn absent_path_falls_back_to_the_index() {
    assert_eq!(
        file_response(Lookup::Requested, None),
        Resolution::Retry { lookup: Lookup::Fallback, path: "/index.html".to_string() }
    );
}

#[test]
fn fallback_is_served_with_the_permissive_headers() {
    let expected = Reply {
        status: 200,
        headers: vec![
            line("accept-ranges", "bytes"),
            line("access-control-allow-origin", "*"),
            line("content-security-policy", "frame-ancestors *"),
            line("x-frame-options", "ALLOW-FROM *"),
        ],
        body: b"<html></html>".to_vec(),
    };
    assert_eq!(file_response(Lookup::Fallback, Some(page())), Resolution::Serve(expected));
}

#[test]
fn absent_fallback_is_not_found() {
    assert_eq!(file_response(Lookup::Fallback, None), Resolution::NotFound);
}

#[test]
fn empty_asset_is_served() {
    let empty = Asset { bytes: Vec::new(), mime_type: String::new() };
    match file_response(Lookup::Requested, Some(empty)) {
        Resolution::Serve(reply) => {
            assert_eq!(reply.status, 200);
            assert!(reply.body.is_empty());
            assert_eq!(reply.headers.len(), 5);
            assert_eq!(reply.headers[2], line("content-type", ""));
        }
        other => panic!("served reply expected, got {:?}", other),
    }
}

#[test]
fn lookup_takes_at_most_two_steps() {
    let mut lookups = 0;
    let mut lookup = Lookup::Requested;
    let outcome = loop {
        lookups += 1;
        match file_response(lookup, None) {
            Resolution::Retry { lookup: next, .. } => lookup = next,
            other => break other,
        }
    };
    assert_eq!(lookups, 2);
    assert_eq!(outcome, Resolution::NotFound);
}
