use connect_error::error::ConnectError;

#[test]
fn transport_display_is_the_given_text() {
    let e = ConnectError::transport_failure(String::from("tonic::transport::Error(Transport)"));
    assert_eq!(e.display_text(), "tonic::transport::Error(Transport)");
}

#[test]
fn connect_display_has_address_and_message() {
    let e = ConnectError::connect_failure(
        String::from("10.0.0.5:10009"),
        String::from("timed out"),
    );
    assert_eq!(e.display_text(), "failed to connect to 10.0.0.5:10009 timed out");
}

#[test]
fn read_file_display_has_the_path_only() {
    let e = ConnectError::read_file_failure(
        String::from("/etc/certs/tls.cert"),
        String::from("permission denied"),
    );
    assert_eq!(e.display_text(), "failed to read file /etc/certs/tls.cert");
}

#[test]
fn parse_cert_display_has_the_path_only() {
    let e = ConnectError::certificate_parse_failure(
        String::from("/etc/certs/tls.cert"),
        String::from("bad certificate"),
    );
    assert_eq!(e.display_text(), "failed to parse certificate /etc/certs/tls.cert");
}

#[test]
fn invalid_address_display_has_the_address() {
    let e = ConnectError::invalid_address_failure(
        String::from("bad::addr"),
        String::from("unparseable"),
    );
    assert_eq!(e.display_text(), "invalid address bad::addr");
}

#[test]
fn other_display_has_the_message() {
    let e = ConnectError::other_failure(String::from("boom"));
    assert_eq!(e.display_text(), "unknown error: boom");
}

#[test]
fn source_reproduces_the_underlying_message_for_every_variant() {
    let transport = ConnectError::transport_failure(String::from("t"));
    assert_eq!(transport.source_text(), "t");
    let connect = ConnectError::connect_failure(String::from("a"), String::from("m1"));
    assert_eq!(connect.source_text(), "m1");
    let read = ConnectError::read_file_failure(String::from("f"), String::from("m2"));
    assert_eq!(read.source_text(), "m2");
    let parse = ConnectError::certificate_parse_failure(String::from("f"), String::from("m3"));
    assert_eq!(parse.source_text(), "m3");
    let addr = ConnectError::invalid_address_failure(String::from("a"), String::from("m4"));
    assert_eq!(addr.source_text(), "m4");
    let other = ConnectError::other_failure(String::from("m5"));
    assert_eq!(other.source_text(), "m5");
}

#[test]
fn read_file_from_io_error_keeps_path_and_message() {
    let io = std::io::Error::new(std::io::ErrorKind::PermissionDenied, "permission denied");
    let e = ConnectError::from_read_file(String::from("/etc/certs/tls.cert"), &io);
    assert_eq!(e.display_text(), "failed to read file /etc/certs/tls.cert");
    assert!(e.source_text().contains("permission denied"));
}

#[test]
fn transport_error_converts_to_its_debug_rendering() {
    let err = tonic::transport::Endpoint::from_shared("no scheme here")
        .expect_err("a string without a scheme is not a valid endpoint");
    let expected = format!("{:?}", err);
    let e = ConnectError::from_transport(&err);
    assert_eq!(e.display_text(), expected);
    assert_eq!(e.source_text(), expected);
}

#[test]
fn empty_context_still_renders_the_fixed_part() {
    let e = ConnectError::read_file_failure(String::new(), String::new());
    assert_eq!(e.display_text(), "failed to read file ");
    assert_eq!(e.source_text(), "");
}
