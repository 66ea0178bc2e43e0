use iron_test::request::{
    MultipartBody, MultipartEntry, MultipartFileEntry, MultipartTextEntry, RequestBody,
    StringBody, BOUNDARY_LENGTH,
};

fn body_with(boundary: &str) -> MultipartBody {
    MultipartBody::with_boundary(boundary.to_owned())
}

#[test]
fn empty_body_is_closing_marker_alone() {
    let body = body_with("abc");
    assert_eq!(body.for_request(), "--abc--");
}

#[test]
fn text_field_layout() {
    let mut body = body_with("abc");
    body.write("key".to_owned(), "my value".to_owned());
    assert_eq!(
        body.for_request(),
        "--abc\r\nContent-Disposition: form-data; name=\"key\"\r\n\r\nmy value\r\n--abc--"
    );
}

#[test]
fn text_field_header_followed_by_value() {
    let mut body = MultipartBody::new();
    body.write("key".to_owned(), "my value".to_owned());
    let payload = body.for_request();
    let header = "Content-Disposition: form-data; name=\"key\"";
    let at = payload.find(header).expect("header line");
    let value_at = payload.find("my value").expect("value");
    assert!(at < value_at);
}

#[test]
fn file_field_layout() {
    let mut body = body_with("b0");
    body.upload("key".to_owned(), "/tmp/file.txt".to_owned(), "Hello, world!".to_owned());
    assert_eq!(
        body.for_request(),
        "--b0\r\nContent-Disposition: form-data; name=\"key\"; filename=\"file.txt\"\r\n\r\nHello, world!\r\n--b0--"
    );
}

#[test]
fn entries_keep_call_order() {
    let mut body = body_with("XY");
    body.write("first".to_owned(), "1".to_owned());
    body.upload("second".to_owned(), "dir/two.bin".to_owned(), "2".to_owned());
    body.write("third".to_owned(), "3".to_owned());
    let payload = body.for_request();
    let a = payload.find("name=\"first\"").unwrap();
    let b = payload.find("name=\"second\"; filename=\"two.bin\"").unwrap();
    let c = payload.find("name=\"third\"").unwrap();
    assert!(a < b && b < c);
    assert_eq!(payload.matches("--XY\r\n").count(), 3);
    assert!(payload.ends_with("\r\n--XY--"));
}

#[test]
fn payload_ends_with_closing_marker() {
    let mut body = MultipartBody::new();
    let closing = format!("--{}--", body.boundary());
    body.write("a".to_owned(), "b".to_owned());
    assert!(body.for_request().ends_with(&closing));
}

#[test]
fn generated_boundary_has_fixed_length_and_alphabet() {
    let body = MultipartBody::new();
    assert_eq!(BOUNDARY_LENGTH, 32);
    assert_eq!(body.boundary().len(), 32);
    assert!(body.boundary().chars().all(|c| c.is_ascii_alphanumeric()));
}

#[test]
fn two_bodies_draw_different_boundaries() {
    let a = MultipartBody::new();
    let b = MultipartBody::new();
    assert_ne!(a.boundary(), b.boundary());
}

#[test]
fn full_boundary_and_content_type() {
    let body = body_with("q1");
    assert_eq!(body.full_boundary(), "--q1");
    assert_eq!(body.content_type(), "multipart/form-data; boundary=q1");
}

#[test]
fn set_headers_advertises_the_boundary() {
    let mut body = body_with("zz9");
    body.write("k".to_owned(), "v".to_owned());
    let mut headers = hyper::header::Headers::new();
    body.set_headers(&mut headers);
    let raw = headers.get_raw("Content-Type").expect("content type set");
    assert_eq!(raw, &[b"multipart/form-data; boundary=zz9".to_vec()][..]);
    let payload = body.for_request();
    assert!(payload.starts_with("--zz9\r\n"));
    assert!(payload.ends_with("--zz9--"));
}

#[test]
fn set_headers_replaces_content_type_and_keeps_others() {
    let body = body_with("bb");
    let mut headers = hyper::header::Headers::new();
    headers.set_raw("Content-Type", vec![b"text/plain".to_vec()]);
    headers.set_raw("x-other", vec![b"1".to_vec()]);
    body.set_headers(&mut headers);
    assert_eq!(headers.len(), 2);
    assert_eq!(
        headers.get_raw("content-type").unwrap(),
        &[b"multipart/form-data; boundary=bb".to_vec()][..]
    );
    assert_eq!(headers.get_raw("x-other").unwrap(), &[b"1".to_vec()][..]);
}

#[test]
fn string_body_is_sent_as_given() {
    let body = StringBody::new("first_name=Example&last_name=User");
    let mut headers = hyper::header::Headers::new();
    body.set_headers(&mut headers);
    assert_eq!(headers.len(), 0);
    assert_eq!(body.for_request(), "first_name=Example&last_name=User");
}

#[test]
fn text_entry_parts() {
    let entry = MultipartTextEntry::new("key".to_owned(), "my value".to_owned());
    assert_eq!(entry.headers(), "Content-Disposition: form-data; name=\"key\"\r\n");
    assert_eq!(entry.value(), "my value");
}

#[test]
fn file_entry_parts() {
    let entry = MultipartFileEntry::new(
        "upload".to_owned(),
        "/tmp/dir/report.txt".to_owned(),
        "contents".to_owned(),
    );
    assert_eq!(
        entry.headers(),
        "Content-Disposition: form-data; name=\"upload\"; filename=\"report.txt\"\r\n"
    );
    assert_eq!(entry.value(), "contents");
}

#[test]
fn entry_writes_marker_header_then_value() {
    let mut body = body_with("m");
    let entry = MultipartEntry::Text(MultipartTextEntry::new("k".to_owned(), "v".to_owned()));
    entry.write_headers(&mut body);
    entry.write_value(&mut body);
    assert_eq!(
        body.for_request(),
        "--m\r\nContent-Disposition: form-data; name=\"k\"\r\n\r\nv\r\n--m--"
    );
}

#[test]
fn value_is_not_escaped() {
    let mut body = body_with("b");
    body.write("k\"x".to_owned(), "line1\r\nline2 ü".to_owned());
    assert_eq!(
        body.for_request(),
        "--b\r\nContent-Disposition: form-data; name=\"k\"x\"\r\n\r\nline1\r\nline2 ü\r\n--b--"
    );
}
