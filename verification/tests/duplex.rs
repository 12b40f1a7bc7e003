use personal_mcp_server::{
    run_reader_loop, run_writer_loop, IoErrorKind, LoopOutcome, MemorySink, MemoryStream,
    MemoryTransport, MessageQueue, StdioError, Transport, TransportError,
};

#[test]
fn queue_is_fifo() {
    let mut q = MessageQueue::new();
    q.enqueue(String::from("a")).unwrap();
    q.enqueue(String::from("b")).unwrap();
    q.enqueue(String::from("c")).unwrap();
    assert_eq!(q.len(), 3);
    assert_eq!(q.dequeue(), Some(String::from("a")));
    assert_eq!(q.dequeue(), Some(String::from("b")));
    assert_eq!(q.dequeue(), Some(String::from("c")));
    q.close_producer();
    assert_eq!(q.dequeue(), None);
}

#[test]
fn enqueue_after_consumer_drop_is_broken_pipe() {
    let mut q = MessageQueue::new();
    q.enqueue(String::from("kept")).unwrap();
    q.close_consumer();
    assert_eq!(
        q.enqueue(String::from("lost")),
        Err(TransportError::Io(IoErrorKind::BrokenPipe))
    );
    assert_eq!(q.len(), 1);
}

#[test]
fn reader_loop_drains_stream_in_order() {
    let mut source = MemoryStream::new(String::from("one\ntwo\nthree\n"));
    let mut inbound = MessageQueue::new();
    let out = run_reader_loop(&mut source, &mut inbound);
    assert_eq!(out, LoopOutcome::Clean);
    inbound.close_producer();
    assert_eq!(inbound.dequeue(), Some(String::from("one")));
    assert_eq!(inbound.dequeue(), Some(String::from("two")));
    assert_eq!(inbound.dequeue(), Some(String::from("three")));
    assert_eq!(inbound.dequeue(), None);
}

#[test]
fn reader_loop_stops_on_invalid_line() {
    let mut source = MemoryStream::new(String::from("one\n\ntwo\n"));
    let mut inbound = MessageQueue::new();
    let out = run_reader_loop(&mut source, &mut inbound);
    assert_eq!(
        out,
        LoopOutcome::Failed(TransportError::Stdio(StdioError::EmptyMessage))
    );
    assert_eq!(inbound.len(), 1);
    assert_eq!(source.pos, 5);
}

#[test]
fn reader_loop_stops_on_dropped_consumer() {
    let mut source = MemoryStream::new(String::from("one\ntwo\n"));
    let mut inbound = MessageQueue::new();
    inbound.close_consumer();
    let out = run_reader_loop(&mut source, &mut inbound);
    assert_eq!(
        out,
        LoopOutcome::Failed(TransportError::Io(IoErrorKind::BrokenPipe))
    );
    assert_eq!(inbound.len(), 0);
}

#[test]
fn writer_loop_drains_queue_in_order() {
    let mut outbound = MessageQueue::new();
    outbound.enqueue(String::from("alpha")).unwrap();
    outbound.enqueue(String::from("beta")).unwrap();
    outbound.close_producer();
    let mut sink = MemorySink::new();
    let out = run_writer_loop(&mut outbound, &mut sink);
    assert_eq!(out, LoopOutcome::Clean);
    assert_eq!(sink.data, "alpha\nbeta\n");
    assert!(sink.flushed);
    assert_eq!(outbound.len(), 0);
}

#[test]
fn writer_loop_stops_on_invalid_message() {
    let mut outbound = MessageQueue::new();
    outbound.enqueue(String::from("ok")).unwrap();
    outbound.enqueue(String::new()).unwrap();
    outbound.enqueue(String::from("later")).unwrap();
    outbound.close_producer();
    let mut sink = MemorySink::new();
    let out = run_writer_loop(&mut outbound, &mut sink);
    assert_eq!(
        out,
        LoopOutcome::Failed(TransportError::Stdio(StdioError::EmptyMessage))
    );
    assert_eq!(sink.data, "ok\n");
    assert_eq!(outbound.len(), 1);
}

#[test]
fn duplex_tolerates_crlf_framing() {
    let transport = MemoryTransport::new(String::from("one\r\ntwo\n"));
    let mut handle = transport.start();
    assert_eq!(handle.reader_outcome(), &LoopOutcome::Clean);
    assert_eq!(handle.receive(), Some(String::from("one")));
    assert_eq!(handle.receive(), Some(String::from("two")));
    assert_eq!(handle.receive(), None);
}

#[test]
fn duplex_inbound_preserves_order() {
    let transport = MemoryTransport::new(String::from("one\ntwo\nthree\n"));
    let mut handle = transport.start();
    assert_eq!(handle.reader_outcome(), &LoopOutcome::Clean);
    assert_eq!(handle.receive(), Some(String::from("one")));
    assert_eq!(handle.receive(), Some(String::from("two")));
    assert_eq!(handle.receive(), Some(String::from("three")));
    assert_eq!(handle.receive(), None);
}

#[test]
fn duplex_outbound_writes_exactly_the_queued_lines() {
    let transport = MemoryTransport::new(String::new());
    let mut handle = transport.start();
    handle.send(String::from("alpha")).unwrap();
    handle.send(String::from("beta")).unwrap();
    let (sink, out) = handle.finish();
    assert_eq!(out, LoopOutcome::Clean);
    assert_eq!(sink.data, "alpha\nbeta\n");
}

#[test]
fn duplex_empty_session() {
    let transport = MemoryTransport::new(String::new());
    let mut handle = transport.start();
    assert_eq!(handle.reader_outcome(), &LoopOutcome::Clean);
    assert_eq!(handle.receive(), None);
    let (sink, out) = handle.finish();
    assert_eq!(out, LoopOutcome::Clean);
    assert_eq!(sink.data, "");
}

#[test]
fn one_shot_send_and_receive() {
    let mut transport = MemoryTransport::new(String::from("ping\n"));
    assert_eq!(transport.receive_message(), Ok(String::from("ping")));
    assert_eq!(transport.send_message("pong"), Ok(()));
    assert_eq!(transport.output.data, "pong\n");
    assert_eq!(
        transport.receive_message(),
        Err(TransportError::Stdio(StdioError::EmptyMessage))
    );
}

#[test]
fn one_shot_send_rejects_invalid_message() {
    let mut transport = MemoryTransport::new(String::new());
    assert_eq!(
        transport.send_message("a\nb"),
        Err(TransportError::Stdio(StdioError::ContainsNewline))
    );
    assert_eq!(
        transport.send_message(""),
        Err(TransportError::Stdio(StdioError::EmptyMessage))
    );
    assert_eq!(transport.output.data, "");
}

#[test]
fn memory_transport_close_is_idempotent() {
    let mut transport = MemoryTransport::new(String::new());
    assert_eq!(transport.close(), Ok(()));
    assert_eq!(transport.close(), Ok(()));
}
