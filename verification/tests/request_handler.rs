use telemetry_relay::buffer::RecencyBuffer;
use telemetry_relay::gate::WriteGate;
use telemetry_relay::reading::Payload;
use telemetry_relay::request_handler::{
    DbWritesEnableCommand, Method, RequestHandler, RequestHead, Response, Routed, MAX_BODY_BYTES,
};

fn reading(n: i64) -> Payload {
    Payload::new(
        f64::to_bits(400.0 + n as f64),
        f64::to_bits(12.5),
        f64::to_bits(55.0),
        f64::to_bits(21.25),
        f64::to_bits(3.0),
        n,
    )
}

fn head(method: Method, path: &str, body_upper: Option<u64>) -> RequestHead {
    RequestHead { method, path: path.to_string(), body_upper }
}

fn command(writes_enabled: bool, password: &str) -> Option<DbWritesEnableCommand> {
    Some(DbWritesEnableCommand { writes_enabled, password: password.to_string() })
}

fn parts() -> (RequestHandler, WriteGate, RecencyBuffer) {
    (
        RequestHandler::new("http://graphs.example/d/1".to_string()),
        WriteGate::new("secret".to_string()),
        RecencyBuffer::new(),
    )
}

const INDENT: &str = "                            ";

#[test]
fn body_limit_is_2048_bytes() {
    assert_eq!(MAX_BODY_BYTES, 2048);
}

#[test]
fn get_root_with_empty_buffer_shows_no_reading() {
    let (handler, gate, buffer) = parts();
    let routed = handler.route(&head(Method::Get, "/", Some(0)), &gate, &buffer);
    assert_eq!(routed, Routed::Reply(Response::Status { writes_enabled: true, last: None }));
}

#[test]
fn get_root_shows_the_newest_reading() {
    let (handler, gate, mut buffer) = parts();
    for n in 0..15 {
        buffer.append(reading(n));
        let routed = handler.route(&head(Method::Get, "/", None), &gate, &buffer);
        assert_eq!(
            routed,
            Routed::Reply(Response::Status { writes_enabled: true, last: Some(reading(n)) })
        );
    }
}

#[test]
fn get_root_shows_the_gate_as_it_reads() {
    let (handler, mut gate, buffer) = parts();
    gate.set(false, &"secret".to_string());
    let routed = handler.route(&head(Method::Get, "/", None), &gate, &buffer);
    assert_eq!(routed, Routed::Reply(Response::Status { writes_enabled: false, last: None }));
}

#[test]
fn get_ignores_the_body_bound() {
    let (handler, gate, buffer) = parts();
    for bound in [None, Some(0), Some(2048), Some(2049), Some(u64::MAX)] {
        let routed = handler.route(&head(Method::Get, "/", bound), &gate, &buffer);
        assert_eq!(routed, Routed::Reply(Response::Status { writes_enabled: true, last: None }));
    }
}

#[test]
fn post_root_within_the_limit_asks_for_the_body() {
    let (handler, gate, buffer) = parts();
    for bound in [0, 1, 2047, 2048] {
        let routed = handler.route(&head(Method::Post, "/", Some(bound)), &gate, &buffer);
        assert_eq!(routed, Routed::ReadBody, "{}", bound);
    }
}

#[test]
fn post_root_over_the_limit_is_413_and_changes_nothing() {
    let (handler, gate, mut buffer) = parts();
    buffer.append(reading(1));
    for bound in [Some(2049), Some(4096), Some(u64::MAX), None] {
        let before = (gate.read(), buffer.readings());
        let routed = handler.route(&head(Method::Post, "/", bound), &gate, &buffer);
        assert_eq!(routed, Routed::Reply(Response::BodyTooLarge), "{:?}", bound);
        assert_eq!(Response::BodyTooLarge.status_code(), 413);
        assert_eq!((gate.read(), buffer.readings()), before);
    }
}

#[test]
fn oversized_post_leaves_a_closed_gate_closed() {
    let (handler, mut gate, buffer) = parts();
    gate.set(false, &"secret".to_string());
    let routed = handler.route(&head(Method::Post, "/", Some(1 << 20)), &gate, &buffer);
    assert_eq!(routed, Routed::Reply(Response::BodyTooLarge));
    assert!(!gate.read());
}

#[test]
fn other_methods_and_paths_are_not_found() {
    let (handler, gate, buffer) = parts();
    let cases = [
        head(Method::Other, "/", Some(0)),
        head(Method::Get, "/status", Some(0)),
        head(Method::Get, "", Some(0)),
        head(Method::Get, "//", Some(0)),
        head(Method::Post, "/x", Some(10)),
        head(Method::Post, "/x", None),
        head(Method::Other, "/x", None),
    ];
    for request in cases {
        let routed = handler.route(&request, &gate, &buffer);
        assert_eq!(routed, Routed::Reply(Response::NotFound), "{:?}", request);
    }
    assert_eq!(Response::NotFound.status_code(), 404);
}

#[test]
fn command_with_the_secret_sets_the_gate() {
    let (handler, mut gate, _) = parts();
    assert_eq!(handler.command(command(false, "secret"), &mut gate), Response::WritesSet(false));
    assert!(!gate.read());
    assert_eq!(handler.command(command(true, "secret"), &mut gate), Response::WritesSet(true));
    assert!(gate.read());
}

#[test]
fn command_with_a_wrong_password_changes_nothing() {
    let (handler, mut gate, _) = parts();
    for password in ["", "Secret", "secret ", "secre", "secrets"] {
        assert_eq!(handler.command(command(false, password), &mut gate), Response::WrongPassword);
        assert!(gate.read());
    }
    gate.set(false, &"secret".to_string());
    assert_eq!(handler.command(command(true, "guess"), &mut gate), Response::WrongPassword);
    assert!(!gate.read());
}

#[test]
fn body_that_is_no_command_changes_nothing() {
    let (handler, mut gate, _) = parts();
    assert_eq!(handler.command(None, &mut gate), Response::InvalidData);
    assert!(gate.read());
    gate.set(false, &"secret".to_string());
    assert_eq!(handler.command(None, &mut gate), Response::InvalidData);
    assert!(!gate.read());
}

#[test]
fn status_codes() {
    assert_eq!(Response::Status { writes_enabled: true, last: None }.status_code(), 200);
    assert_eq!(Response::Status { writes_enabled: false, last: Some(reading(1)) }.status_code(), 200);
    assert_eq!(Response::BodyTooLarge.status_code(), 413);
    assert_eq!(Response::WritesSet(true).status_code(), 200);
    assert_eq!(Response::WritesSet(false).status_code(), 200);
    assert_eq!(Response::WrongPassword.status_code(), 200);
    assert_eq!(Response::InvalidData.status_code(), 200);
    assert_eq!(Response::NotFound.status_code(), 404);
}

#[test]
fn only_the_status_view_names_a_content_type() {
    let html = Some("text/html; charset=utf-8");
    assert_eq!(Response::Status { writes_enabled: true, last: None }.content_type(), html);
    assert_eq!(Response::Status { writes_enabled: false, last: Some(reading(1)) }.content_type(), html);
    for reply in [
        Response::BodyTooLarge,
        Response::WritesSet(true),
        Response::WrongPassword,
        Response::InvalidData,
        Response::NotFound,
    ] {
        assert_eq!(reply.content_type(), None);
    }
}

#[test]
fn plain_text_bodies() {
    assert_eq!(Response::Status { writes_enabled: true, last: None }.text(), None);
    assert_eq!(Response::BodyTooLarge.text(), Some("Body too large".to_string()));
    assert_eq!(Response::WritesSet(true).text(), Some("Writes enabled: true".to_string()));
    assert_eq!(Response::WritesSet(false).text(), Some("Writes enabled: false".to_string()));
    assert_eq!(Response::WrongPassword.text(), Some("Wrong password".to_string()));
    assert_eq!(Response::InvalidData.text(), Some("Invalid POST data".to_string()));
    assert_eq!(Response::NotFound.text(), Some(String::new()));
}

#[test]
fn status_page_without_a_reading() {
    let (handler, _, _) = parts();
    let page = handler.status_page(true, None);
    let expected = format!(
        "<!DOCTYPE html>\n{i}<html>\n{i}<p>Database writes enabled: true </p\n{i}<p><a href=\"http://graphs.example/d/1\">View graphs</a><p>\n{i}</html>",
        i = INDENT
    );
    assert_eq!(page, expected);
    assert!(!page.to_lowercase().contains("last measurement"));
}

#[test]
fn status_page_with_a_reading() {
    let (handler, _, _) = parts();
    let page = handler.status_page(false, Some("time: then, T: 1 C"));
    let expected = format!(
        "<!DOCTYPE html>\n{i}<html>\n{i}<p>Database writes enabled: false </p>\n{i}<p><a href=\"http://graphs.example/d/1\">View graphs</a><p>\n{i}<p>Last measurement: time: then, T: 1 C </p>\n{i}</html>",
        i = INDENT
    );
    assert_eq!(page, expected);
}

#[test]
fn status_page_takes_url_and_summary_as_they_are() {
    let handler = RequestHandler::new(String::new());
    let page = handler.status_page(true, Some(""));
    assert!(page.contains("<a href=\"\">View graphs</a>"));
    assert!(page.contains("<p>Last measurement:  </p>"));
    let odd = RequestHandler::new("a\"b<c>".to_string());
    assert!(odd.status_page(true, None).contains("<a href=\"a\"b<c>\">"));
}
