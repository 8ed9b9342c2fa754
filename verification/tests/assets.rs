use web_pty::assets::embedded_file_reply;

#[test]
fn embedded_file_is_served_with_its_type() {
    let r = embedded_file_reply("index.html", Some(b"<html></html>".to_vec()));
    assert_eq!(r.status, 200);
    assert_eq!(r.content_type.as_deref(), Some("text/html"));
    assert_eq!(r.body, b"<html></html>".to_vec());
    let css = embedded_file_reply("static/app.css", Some(vec![1]));
    assert_eq!(css.content_type.as_deref(), Some("text/css"));
    let js = embedded_file_reply("app.js", Some(vec![]));
    assert_eq!(js.status, 200);
    assert!(js.content_type.unwrap().contains("javascript"));
}

#[test]
fn unknown_types_are_octet_streams() {
    let r = embedded_file_reply("LICENSE", Some(vec![0]));
    assert_eq!(r.content_type.as_deref(), Some("application/octet-stream"));
    let r = embedded_file_reply("data.unknownext", Some(vec![0]));
    assert_eq!(r.content_type.as_deref(), Some("application/octet-stream"));
}

#[test]
fn missing_file_is_404() {
    let r = embedded_file_reply("nope.html", None);
    assert_eq!(r.status, 404);
    assert!(r.content_type.is_none());
    assert_eq!(r.body, b"404 Not Found".to_vec());
}
