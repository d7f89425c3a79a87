use socks_relay::error::{Error, IoErrorKind, ProtocolError};
use socks_relay::socks5::{
    connect_reply, encode_reply, handshake_step, read_socks_version, reply_error, reply_if_error,
    select_remote_addr, DestAddress, HandshakeState, SockAddr,
};
use socks_relay::utils::{ByteCursor, ReadUtils, WriteBuffer};

/// Feed `input` to the handshake engine chunk by chunk, as a caller at a
/// socket would, and collect everything the engine wants written back.
/// Stops on a terminal state or when the input runs dry (premature EOF).
fn run_handshake(input: &[u8]) -> (Vec<u8>, HandshakeState) {
    let mut state = HandshakeState::ExpectVersion1;
    let mut written: Vec<u8> = Vec::new();
    let mut pos: usize = 0;
    loop {
        if state.is_terminal() {
            break;
        }
        let need = state.bytes_needed();
        if pos + need > input.len() {
            break;
        }
        let chunk = input[pos..pos + need].to_vec();
        pos += need;
        let step = handshake_step(state, chunk);
        written.extend_from_slice(&step.write);
        state = step.state;
    }
    (written, state)
}

#[test]
fn negotiation_with_no_auth_method_acks() {
    let (written, state) = run_handshake(&[5, 1, 0]);
    assert_eq!(written, vec![5, 0]);
    assert!(matches!(state, HandshakeState::ExpectVersion2));
}

#[test]
fn negotiation_with_many_methods_acks() {
    let (written, state) = run_handshake(&[5, 3, 2, 0, 1]);
    assert_eq!(written, vec![5, 0]);
    assert!(matches!(state, HandshakeState::ExpectVersion2));
}

#[test]
fn negotiation_without_no_auth_method_naks() {
    let (written, state) = run_handshake(&[5, 2, 1, 2]);
    assert_eq!(written, vec![5, 255]);
    assert!(matches!(
        state,
        HandshakeState::Failed { error: Error::Protocol(ProtocolError::NoSupportedAuth) }
    ));
}

#[test]
fn negotiation_with_zero_methods_naks() {
    let (written, state) = run_handshake(&[5, 0]);
    assert_eq!(written, vec![5, 255]);
    assert!(matches!(
        state,
        HandshakeState::Failed { error: Error::Protocol(ProtocolError::NoSupportedAuth) }
    ));
}

#[test]
fn bad_version_fails_without_reply() {
    let (written, state) = run_handshake(&[4, 1, 0]);
    assert_eq!(written, Vec::<u8>::new());
    assert!(matches!(
        state,
        HandshakeState::Failed { error: Error::Protocol(ProtocolError::UnsupportedVersion) }
    ));
}

#[test]
fn bad_command_gets_status_seven_reply() {
    let (written, state) = run_handshake(&[5, 1, 0, 5, 2]);
    assert_eq!(written, vec![5, 0, 5, 7, 0, 1, 0, 0, 0, 0, 0, 0]);
    assert!(matches!(
        state,
        HandshakeState::Failed { error: Error::Protocol(ProtocolError::CommandNotSupported) }
    ));
}

#[test]
fn ipv4_request_parses_address_and_port() {
    let (written, state) = run_handshake(&[5, 1, 0, 5, 1, 0, 1, 93, 184, 216, 34, 0, 80]);
    assert_eq!(written, vec![5, 0]);
    match state {
        HandshakeState::Connect { request } => {
            assert_eq!(request.port, 80);
            match &request.address {
                DestAddress::Ipv4 { a, b, c, d } => {
                    assert_eq!((*a, *b, *c, *d), (93, 184, 216, 34));
                }
                _ => panic!("expected an IPv4 address"),
            }
            assert_eq!(request.address.host_bytes(), b"93.184.216.34".to_vec());
        }
        _ => panic!("expected a parsed request"),
    }
}

#[test]
fn domain_request_parses_name_and_port() {
    let mut input = vec![5, 1, 0, 5, 1, 0, 3, 11];
    input.extend_from_slice(b"example.com");
    input.extend_from_slice(&[0x1f, 0x90]);
    let (written, state) = run_handshake(&input);
    assert_eq!(written, vec![5, 0]);
    match state {
        HandshakeState::Connect { request } => {
            assert_eq!(request.port, 8080);
            match &request.address {
                DestAddress::Domain { name } => assert_eq!(name, &b"example.com".to_vec()),
                _ => panic!("expected a domain name"),
            }
        }
        _ => panic!("expected a parsed request"),
    }
}

#[test]
fn invalid_utf8_domain_fails_without_reply() {
    let (written, state) = run_handshake(&[5, 1, 0, 5, 1, 0, 3, 2, 0xff, 0xfe, 0, 80]);
    assert_eq!(written, vec![5, 0]);
    assert!(matches!(
        state,
        HandshakeState::Failed { error: Error::Protocol(ProtocolError::AddressTypeNotSupported) }
    ));
}

#[test]
fn unsupported_address_type_fails_without_reply() {
    let (written, state) = run_handshake(&[5, 1, 0, 5, 1, 0, 4, 0, 0]);
    assert_eq!(written, vec![5, 0]);
    assert!(matches!(
        state,
        HandshakeState::Failed { error: Error::Protocol(ProtocolError::AddressTypeNotSupported) }
    ));
}

#[test]
fn premature_end_of_stream_writes_nothing_more() {
    let (written, state) = run_handshake(&[5, 1]);
    assert_eq!(written, Vec::<u8>::new());
    assert!(!state.is_terminal());
}

#[test]
fn success_reply_is_byte_exact() {
    let reply = encode_reply(0, 192, 0, 2, 1, 1080);
    assert_eq!(reply, vec![5, 0, 0, 1, 192, 0, 2, 1, 4, 56]);
}

#[test]
fn socks_codes_follow_the_mapping_table() {
    assert_eq!(Error::Protocol(ProtocolError::HostUnreachable).socks_code(), 4);
    assert_eq!(Error::Protocol(ProtocolError::CommandNotSupported).socks_code(), 7);
    assert_eq!(Error::Protocol(ProtocolError::AddressTypeNotSupported).socks_code(), 8);
    assert_eq!(Error::Io(IoErrorKind::ConnectionRefused).socks_code(), 5);
    assert_eq!(Error::Io(IoErrorKind::ConnectionReset).socks_code(), 5);
    assert_eq!(Error::Io(IoErrorKind::PermissionDenied).socks_code(), 2);
    assert_eq!(Error::Io(IoErrorKind::BrokenPipe).socks_code(), 1);
    assert_eq!(Error::Io(IoErrorKind::Other).socks_code(), 1);
    assert_eq!(Error::Protocol(ProtocolError::UnsupportedVersion).socks_code(), 1);
    assert_eq!(Error::Protocol(ProtocolError::NoSupportedAuth).socks_code(), 1);
    assert_eq!(Error::Protocol(ProtocolError::General).socks_code(), 1);
}

#[test]
fn select_picks_first_ipv4_address() {
    let addrs = vec![
        SockAddr::NotV4,
        SockAddr::V4 { a: 10, b: 0, c: 0, d: 1, port: 80 },
        SockAddr::V4 { a: 10, b: 0, c: 0, d: 2, port: 81 },
    ];
    assert_eq!(
        select_remote_addr(&addrs),
        Ok(SockAddr::V4 { a: 10, b: 0, c: 0, d: 1, port: 80 })
    );
}

#[test]
fn select_without_ipv4_is_host_unreachable() {
    let addrs = vec![SockAddr::NotV4, SockAddr::NotV4];
    assert_eq!(
        select_remote_addr(&addrs),
        Err(Error::Protocol(ProtocolError::HostUnreachable))
    );
    assert_eq!(
        select_remote_addr(&Vec::new()),
        Err(Error::Protocol(ProtocolError::HostUnreachable))
    );
}

#[test]
fn connect_success_reports_local_bind() {
    let r = connect_reply(Ok(SockAddr::V4 { a: 127, b: 0, c: 0, d: 1, port: 8080 }));
    assert_eq!(r.write, vec![5, 0, 0, 1, 127, 0, 0, 1, 31, 144]);
    assert_eq!(r.result, Ok(()));
}

#[test]
fn connect_to_non_ipv4_bind_is_general_failure() {
    let r = connect_reply(Ok(SockAddr::NotV4));
    assert_eq!(r.write, vec![5, 1, 0, 1, 0, 0, 0, 0, 0, 0]);
    assert_eq!(r.result, Err(Error::Protocol(ProtocolError::General)));
}

#[test]
fn refused_connection_reports_status_five() {
    let r = connect_reply(Err(Error::Io(IoErrorKind::ConnectionRefused)));
    assert_eq!(r.write[1], 5);
    assert_eq!(r.write, vec![5, 5, 0, 1, 0, 0, 0, 0, 0, 0]);
    assert_eq!(r.result, Err(Error::Io(IoErrorKind::ConnectionRefused)));
}

#[test]
fn reply_error_writes_the_ten_byte_reply() {
    let mut sink = WriteBuffer::new();
    let r: Result<(), Error> = reply_error(&mut sink, Error::Protocol(ProtocolError::General));
    assert_eq!(sink.data, vec![5, 1, 0, 1, 0, 0, 0, 0, 0, 0]);
    assert_eq!(r, Err(Error::Protocol(ProtocolError::General)));
}

#[test]
fn reply_if_error_passes_success_through() {
    let mut sink = WriteBuffer::new();
    let r = reply_if_error(&mut sink, Ok::<u32, Error>(17));
    assert_eq!(sink.data, Vec::<u8>::new());
    assert_eq!(r, Ok(17));
}

#[test]
fn reply_if_error_reports_failure_first() {
    let mut sink = WriteBuffer::new();
    let r = reply_if_error(
        &mut sink,
        Err::<u32, Error>(Error::Protocol(ProtocolError::HostUnreachable)),
    );
    assert_eq!(sink.data, vec![5, 4, 0, 1, 0, 0, 0, 0, 0, 0]);
    assert_eq!(r, Err(Error::Protocol(ProtocolError::HostUnreachable)));
}

#[test]
fn cursor_reads_exact_counts() {
    let mut cur = ByteCursor::new(vec![1, 2, 3, 4]);
    assert_eq!(cur.read_byte(), Ok(1));
    assert_eq!(cur.read_bytes(2), Ok(vec![2, 3]));
    assert_eq!(cur.read_bytes(2), Err(Error::Io(IoErrorKind::BrokenPipe)));
    assert_eq!(cur.read_bytes(1), Ok(vec![4]));
    assert_eq!(cur.read_byte(), Err(Error::Io(IoErrorKind::BrokenPipe)));
}

#[test]
fn version_check_accepts_five_only() {
    let mut cur = ByteCursor::new(vec![5]);
    assert_eq!(read_socks_version(&mut cur), Ok(()));
    let mut cur = ByteCursor::new(vec![4]);
    assert_eq!(
        read_socks_version(&mut cur),
        Err(Error::Protocol(ProtocolError::UnsupportedVersion))
    );
    let mut cur = ByteCursor::new(Vec::new());
    assert_eq!(
        read_socks_version(&mut cur),
        Err(Error::Io(IoErrorKind::BrokenPipe))
    );
}

#[test]
fn host_bytes_formats_dotted_decimal() {
    let addr = DestAddress::Ipv4 { a: 0, b: 10, c: 100, d: 255 };
    assert_eq!(addr.host_bytes(), b"0.10.100.255".to_vec());
}
