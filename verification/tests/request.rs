use part_upload::error::ErrorKind;
use part_upload::request::{build, create_upload_part_request, Header, Method, Mode};

fn header(name: &str, value: &str) -> Header {
    Header { name: name.to_string(), value: value.to_string() }
}

#[test]
fn request_is_a_cross_origin_put() {
    let r = create_upload_part_request("https://x/y?partNumber=1", &[1, 2, 3]).unwrap();
    assert_eq!(r.method(), Method::Put);
    assert_eq!(r.method().name(), "PUT");
    assert_eq!(r.mode(), Mode::CrossOrigin);
    assert_eq!(r.url(), "https://x/y?partNumber=1");
}

#[test]
fn request_has_the_two_fixed_headers() {
    let r = create_upload_part_request("https://x/y?partNumber=1", &[]).unwrap();
    assert_eq!(
        r.headers(),
        &vec![
            header("Access-Control-Allow-Credentials", "true"),
            header("Access-Control-Expose-Headers", "ETag"),
        ]
    );
}

#[test]
fn body_is_the_bytes_as_they_are() {
    let bytes: Vec<u8> = vec![0x00, 0xff, 0xfe, 0x80, 0xc3, 0x28, 0x0a, 0x0d, 0x7f];
    let r = create_upload_part_request("https://x/y", &bytes).unwrap();
    assert_eq!(r.body(), &bytes);
    let all: Vec<u8> = (0..=255u8).collect();
    let r = build("https://x/y", all.clone(), None, None).unwrap();
    assert_eq!(r.body(), &all);
}

#[test]
fn empty_body_is_kept_empty() {
    let r = create_upload_part_request("https://x/y", &[]).unwrap();
    assert!(r.body().is_empty());
}

#[test]
fn content_type_and_file_name_add_headers() {
    let r = build("https://x/y", vec![1], Some("report.pdf"), Some("application/pdf")).unwrap();
    assert_eq!(
        r.headers(),
        &vec![
            header("Access-Control-Allow-Credentials", "true"),
            header("Access-Control-Expose-Headers", "ETag"),
            header("Content-Type", "application/pdf"),
            header("Content-Disposition", "attachment; filename=\"report.pdf\""),
        ]
    );
}

#[test]
fn content_type_alone_adds_one_header() {
    let r = build("https://x/y", vec![], None, Some("text/plain")).unwrap();
    assert_eq!(
        r.headers(),
        &vec![
            header("Access-Control-Allow-Credentials", "true"),
            header("Access-Control-Expose-Headers", "ETag"),
            header("Content-Type", "text/plain"),
        ]
    );
}

#[test]
fn file_name_alone_adds_one_header() {
    let r = build("https://x/y", vec![], Some("a b.bin"), None).unwrap();
    assert_eq!(
        r.headers(),
        &vec![
            header("Access-Control-Allow-Credentials", "true"),
            header("Access-Control-Expose-Headers", "ETag"),
            header("Content-Disposition", "attachment; filename=\"a b.bin\""),
        ]
    );
}

#[test]
fn url_is_passed_through_unchanged() {
    let url = "https://bucket.example/key%20name?uploadId=u&partNumber=2&X-Sig=a%2Fb%3D";
    let r = create_upload_part_request(url, &[9]).unwrap();
    assert_eq!(r.url(), url);
    let r = create_upload_part_request("/relative/path", &[9]).unwrap();
    assert_eq!(r.url(), "/relative/path");
    let r = create_upload_part_request("https://x/\u{e9}", &[9]).unwrap();
    assert_eq!(r.url(), "https://x/\u{e9}");
}

#[test]
fn url_that_cannot_be_parsed_is_refused() {
    assert_eq!(create_upload_part_request("", &[1]), Err(ErrorKind::InvalidRequest));
    assert_eq!(create_upload_part_request("?partNumber=1", &[1]), Err(ErrorKind::InvalidRequest));
    assert_eq!(create_upload_part_request("https://x/a b", &[1]), Err(ErrorKind::InvalidRequest));
    assert_eq!(create_upload_part_request(" https://x/y", &[1]), Err(ErrorKind::InvalidRequest));
    assert_eq!(create_upload_part_request("https://x/y\n", &[1]), Err(ErrorKind::InvalidRequest));
    assert_eq!(
        create_upload_part_request("https://x/y?a=\r\nHost: z", &[1]),
        Err(ErrorKind::InvalidRequest)
    );
    assert_eq!(create_upload_part_request("https://x/\ty", &[1]), Err(ErrorKind::InvalidRequest));
    assert_eq!(create_upload_part_request("https://x/\0", &[1]), Err(ErrorKind::InvalidRequest));
    assert_eq!(
        create_upload_part_request("https://x/\u{7f}", &[1]),
        Err(ErrorKind::InvalidRequest)
    );
    assert_eq!(
        build("https://x/a b", vec![1], Some("f"), Some("t")),
        Err(ErrorKind::InvalidRequest)
    );
}
