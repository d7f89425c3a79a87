use socks_relay::error::{Error, IoErrorKind};
use socks_relay::pipe::{Pipe, PipeAction, PipeEvent, PipeState};
use socks_relay::socks5::{connect_reply, handshake_step, HandshakeState, SockAddr};

#[test]
fn zero_length_read_shuts_down_exactly_once() {
    let mut pipe = Pipe::new();
    let a = pipe.on_event(PipeEvent::Data { bytes: Vec::new() });
    assert!(matches!(a, PipeAction::ShutdownBoth));
    assert_eq!(pipe.state, PipeState::Finished);
    // further zero-length reads change nothing and shut nothing down again
    let a = pipe.on_event(PipeEvent::Data { bytes: Vec::new() });
    assert!(matches!(a, PipeAction::Continue));
    let a = pipe.on_event(PipeEvent::Data { bytes: Vec::new() });
    assert!(matches!(a, PipeAction::Continue));
    assert_eq!(pipe.state, PipeState::Finished);
}

#[test]
fn read_error_shuts_down() {
    let mut pipe = Pipe::new();
    let a = pipe.on_event(PipeEvent::ReadFailed);
    assert!(matches!(a, PipeAction::ShutdownBoth));
    assert_eq!(pipe.state, PipeState::Finished);
}

#[test]
fn write_error_shuts_down() {
    let mut pipe = Pipe::new();
    let a = pipe.on_event(PipeEvent::Data { bytes: vec![1, 2, 3] });
    assert!(matches!(a, PipeAction::Forward { .. }));
    let a = pipe.on_event(PipeEvent::WriteFailed);
    assert!(matches!(a, PipeAction::ShutdownBoth));
    assert_eq!(pipe.state, PipeState::Finished);
}

#[test]
fn data_is_forwarded_unmodified() {
    let mut pipe = Pipe::new();
    let a = pipe.on_event(PipeEvent::Data { bytes: b"hello".to_vec() });
    match a {
        PipeAction::Forward { bytes } => assert_eq!(bytes, b"hello".to_vec()),
        _ => panic!("expected the bytes to be forwarded"),
    }
    let a = pipe.on_event(PipeEvent::WroteOk);
    assert!(matches!(a, PipeAction::Continue));
    assert_eq!(pipe.state, PipeState::Reading);
    let a = pipe.on_event(PipeEvent::Data { bytes: b" world".to_vec() });
    match a {
        PipeAction::Forward { bytes } => assert_eq!(bytes, b" world".to_vec()),
        _ => panic!("expected the bytes to be forwarded"),
    }
}

/// The full life of one successful connection, with the sockets simulated:
/// negotiation, connection request for 127.0.0.1 with a listener assumed,
/// success reply carrying the local bind, and piping in both directions.
#[test]
fn end_to_end_connect_and_pipe() {
    let input: Vec<u8> = vec![5, 1, 0, 5, 1, 0, 1, 127, 0, 0, 1, 0, 200];
    let mut state = HandshakeState::ExpectVersion1;
    let mut written: Vec<u8> = Vec::new();
    let mut pos: usize = 0;
    while !state.is_terminal() {
        let need = state.bytes_needed();
        assert!(pos + need <= input.len());
        let chunk = input[pos..pos + need].to_vec();
        pos += need;
        let step = handshake_step(state, chunk);
        written.extend_from_slice(&step.write);
        state = step.state;
    }
    assert_eq!(written, vec![5, 0]);
    let request = match state {
        HandshakeState::Connect { request } => request,
        _ => panic!("expected a parsed request"),
    };
    assert_eq!(request.port, 200);
    assert_eq!(request.address.host_bytes(), b"127.0.0.1".to_vec());

    // the connector succeeded and bound a local IPv4 address
    let local = SockAddr::V4 { a: 127, b: 0, c: 0, d: 1, port: 49152 };
    let reply = connect_reply(Ok(local));
    assert_eq!(reply.result, Ok(()));
    assert_eq!(reply.write, vec![5, 0, 0, 1, 127, 0, 0, 1, 192, 0]);

    // client -> remote: bytes pass unmodified; remote -> client likewise
    let mut upstream = Pipe::new();
    match upstream.on_event(PipeEvent::Data { bytes: b"ping".to_vec() }) {
        PipeAction::Forward { bytes } => assert_eq!(bytes, b"ping".to_vec()),
        _ => panic!("expected the bytes to be forwarded"),
    }
    assert!(matches!(upstream.on_event(PipeEvent::WroteOk), PipeAction::Continue));
    let mut downstream = Pipe::new();
    match downstream.on_event(PipeEvent::Data { bytes: b"pong".to_vec() }) {
        PipeAction::Forward { bytes } => assert_eq!(bytes, b"pong".to_vec()),
        _ => panic!("expected the bytes to be forwarded"),
    }
    assert!(matches!(downstream.on_event(PipeEvent::WroteOk), PipeAction::Continue));

    // the client closes: its pipe half-closes once and terminates
    assert!(matches!(
        upstream.on_event(PipeEvent::Data { bytes: Vec::new() }),
        PipeAction::ShutdownBoth
    ));
    assert_eq!(upstream.state, PipeState::Finished);
}

/// Connecting to a port with no listener: the refusal is reported with
/// status five and the connection is then closed.
#[test]
fn end_to_end_connection_refused() {
    let reply = connect_reply(Err(Error::Io(IoErrorKind::ConnectionRefused)));
    assert_eq!(reply.write[1], 5);
    assert!(reply.result.is_err());
}
