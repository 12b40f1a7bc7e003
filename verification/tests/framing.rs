use personal_mcp_server::{
    decode_line, encode_line, read_message, strip_line, validate, write_message, IoErrorKind,
    MemorySink, MemoryStream, ServerConfig, ServerError, StdioError, StdioTransport,
    TransportError, ValidationError,
};

#[test]
fn validate_rejects_empty() {
    assert_eq!(validate(""), Err(ValidationError::Empty));
}

#[test]
fn validate_rejects_embedded_newline() {
    assert_eq!(validate("a\nb"), Err(ValidationError::ContainsNewline));
}

#[test]
fn validate_accepts_carriage_return() {
    assert_eq!(validate("a\rb"), Ok(()));
}

#[test]
fn validate_accepts_plain_text() {
    assert_eq!(validate("hello"), Ok(()));
}

#[test]
fn strip_line_removes_lf() {
    assert_eq!(strip_line("hello\n"), "hello");
}

#[test]
fn strip_line_removes_crlf() {
    assert_eq!(strip_line("hello\r\n"), "hello");
}

#[test]
fn strip_line_keeps_unterminated_line_whole() {
    assert_eq!(strip_line("hello"), "hello");
}

#[test]
fn strip_line_keeps_bare_trailing_cr() {
    assert_eq!(strip_line("hello\r"), "hello\r");
}

#[test]
fn strip_line_keeps_embedded_cr() {
    assert_eq!(strip_line("a\rb\n"), "a\rb");
}

#[test]
fn encode_appends_one_terminator() {
    assert_eq!(encode_line("hello"), Ok(String::from("hello\n")));
}

#[test]
fn encode_rejects_empty() {
    assert_eq!(encode_line(""), Err(StdioError::EmptyMessage));
}

#[test]
fn encode_rejects_embedded_newline() {
    assert_eq!(encode_line("a\nb"), Err(StdioError::ContainsNewline));
}

#[test]
fn decode_yields_stripped_body() {
    assert_eq!(decode_line("hello\n"), Ok(String::from("hello")));
}

#[test]
fn decode_of_bare_terminator_is_empty_failure() {
    assert_eq!(decode_line("\n"), Err(StdioError::EmptyMessage));
}

#[test]
fn decode_of_crlf_only_is_empty_failure() {
    assert_eq!(decode_line("\r\n"), Err(StdioError::EmptyMessage));
}

#[test]
fn round_trip_lf() {
    let line = encode_line("hello world").unwrap();
    assert_eq!(decode_line(&line), Ok(String::from("hello world")));
}

#[test]
fn round_trip_crlf_read_side() {
    assert_eq!(decode_line("hello world\r\n"), Ok(String::from("hello world")));
}

#[test]
fn round_trip_through_sink_and_stream() {
    let mut sink = MemorySink::new();
    write_message(&mut sink, "first").unwrap();
    write_message(&mut sink, "second").unwrap();
    let mut stream = MemoryStream::new(sink.data);
    assert_eq!(read_message(&mut stream), Ok(Some(String::from("first"))));
    assert_eq!(read_message(&mut stream), Ok(Some(String::from("second"))));
    assert_eq!(read_message(&mut stream), Ok(None));
}

#[test]
fn immediate_end_of_stream_is_no_message() {
    let mut stream = MemoryStream::new(String::new());
    assert_eq!(read_message(&mut stream), Ok(None));
}

#[test]
fn lone_terminator_is_empty_failure_not_a_skip() {
    let mut stream = MemoryStream::new(String::from("\n"));
    assert_eq!(read_message(&mut stream), Err(StdioError::EmptyMessage));
}

#[test]
fn truncated_final_line_is_a_message() {
    let mut stream = MemoryStream::new(String::from("last"));
    assert!(!stream.at_end());
    assert_eq!(read_message(&mut stream), Ok(Some(String::from("last"))));
    assert!(stream.at_end());
    assert_eq!(read_message(&mut stream), Ok(None));
}

#[test]
fn failed_write_leaves_sink_untouched() {
    let mut sink = MemorySink::new();
    write_message(&mut sink, "ok").unwrap();
    assert_eq!(write_message(&mut sink, "a\nb"), Err(StdioError::ContainsNewline));
    assert_eq!(sink.data, "ok\n");
}

#[test]
fn write_always_flushes() {
    let mut sink = MemorySink::new();
    write_message(&mut sink, "ok").unwrap();
    assert!(sink.flushed);
}

#[test]
fn stdio_read_of_empty_line_buffer_is_end_of_stream() {
    let mut t = StdioTransport::new();
    assert_eq!(t.read_message(""), Ok(None));
}

#[test]
fn stdio_read_strips_and_validates() {
    let mut t = StdioTransport::new();
    assert_eq!(t.read_message("hello\r\n"), Ok(Some(String::from("hello"))));
    assert_eq!(t.read_message("\n"), Err(StdioError::EmptyMessage));
}

#[test]
fn stdio_write_frames_the_message() {
    let mut t = StdioTransport::new();
    assert_eq!(t.write_message("hello"), Ok(String::from("hello\n")));
    assert_eq!(t.write_message("a\nb"), Err(StdioError::ContainsNewline));
}

#[test]
fn stdio_close_is_idempotent() {
    let mut t = StdioTransport::new();
    assert_eq!(t.close(), Ok(()));
    assert_eq!(t.close(), Ok(()));
}

#[test]
fn stdio_transport_default_matches_new() {
    let t = StdioTransport::default();
    assert!(!t.closed);
}

#[test]
fn server_config_constructs() {
    let _ = ServerConfig::new();
    let _ = ServerConfig::default();
}

#[test]
fn error_text_is_descriptive() {
    assert_eq!(StdioError::EmptyMessage.describe(), "message cannot be empty");
    assert_eq!(
        StdioError::ContainsNewline.describe(),
        "message contains newline character"
    );
    assert_eq!(
        StdioError::Io(IoErrorKind::BrokenPipe).describe(),
        "io error: broken pipe"
    );
    assert_eq!(
        TransportError::Stdio(StdioError::EmptyMessage).describe(),
        "stdio error: message cannot be empty"
    );
    assert_eq!(
        TransportError::InvalidMessage(String::from("bad")).describe(),
        "invalid message: bad"
    );
    assert_eq!(
        TransportError::Io(IoErrorKind::InvalidData).describe(),
        "io error: invalid data"
    );
    assert_eq!(
        ServerError::Io(IoErrorKind::Other).describe(),
        "io error: other error"
    );
    assert_eq!(
        ServerError::Transport(TransportError::Io(IoErrorKind::BrokenPipe)).describe(),
        "transport error: io error: broken pipe"
    );
    assert_eq!(ValidationError::Empty.describe(), "message cannot be empty");
}

#[test]
fn errors_convert_upward() {
    assert_eq!(
        TransportError::from(StdioError::EmptyMessage),
        TransportError::Stdio(StdioError::EmptyMessage)
    );
    assert_eq!(
        TransportError::from(IoErrorKind::BrokenPipe),
        TransportError::Io(IoErrorKind::BrokenPipe)
    );
    assert_eq!(
        StdioError::from(IoErrorKind::Other),
        StdioError::Io(IoErrorKind::Other)
    );
    assert_eq!(
        StdioError::from(ValidationError::Empty),
        StdioError::EmptyMessage
    );
    assert_eq!(
        StdioError::from(ValidationError::ContainsNewline),
        StdioError::ContainsNewline
    );
    assert_eq!(
        ServerError::from(TransportError::Io(IoErrorKind::Other)),
        ServerError::Transport(TransportError::Io(IoErrorKind::Other))
    );
    assert_eq!(
        ServerError::from(IoErrorKind::Other),
        ServerError::Io(IoErrorKind::Other)
    );
}
