//! The SOCKS5 handshake engine, the reply encoder, and the remote-connector
//! decisions.
//!
//! The handshake is a state machine driven from outside: each state names how
//! many bytes it needs next (`HandshakeState::bytes_needed`), the caller reads
//! exactly that many from the client and hands them to `handshake_step`, which
//! returns the next state together with the bytes owed to the client at that
//! point. A read failure simply abandons the machine: no partial reply is owed
//! before a well-formed request has been parsed. Once the machine reaches
//! `Connect`, the caller resolves and connects, and `connect_reply` turns the
//! outcome into the one final reply.

use vstd::prelude::*;

use crate::error::{socks_code_spec, Error, IoErrorKind, ProtocolError};
use crate::utils::{ByteCursor, ReadUtils, WriteBuffer};

verus! {

/// Whether a byte sequence is well-formed UTF-8.
pub uninterp spec fn is_utf8(bytes: Seq<u8>) -> bool;

/// Relies on std's `str::from_utf8`: whether the bytes decode as UTF-8
/// depends on the bytes alone.
#[verifier::external_body]
fn utf8_valid(bytes: &Vec<u8>) -> (r: bool)
    ensures
        r == is_utf8(bytes@),
{
    std::str::from_utf8(bytes.as_slice()).is_ok()
}

/// A destination address as the client encoded it: a literal IPv4 address or
/// a domain name (whose bytes are well-formed UTF-8 once parsed).
pub enum DestAddress {
    Ipv4 { a: u8, b: u8, c: u8, d: u8 },
    Domain { name: Vec<u8> },
}

/// The mathematical value of a `DestAddress`.
pub enum AddressModel {
    Ipv4 { a: u8, b: u8, c: u8, d: u8 },
    Domain { name: Seq<u8> },
}

impl View for DestAddress {
    type V = AddressModel;

    open spec fn view(&self) -> AddressModel {
        match self {
            DestAddress::Ipv4 { a, b, c, d } => AddressModel::Ipv4 {
                a: *a,
                b: *b,
                c: *c,
                d: *d,
            },
            DestAddress::Domain { name } => AddressModel::Domain { name: name@ },
        }
    }
}

/// A fully parsed connection request: destination address and port. The only
/// supported command, CONNECT, is implied.
pub struct NegotiatedRequest {
    pub address: DestAddress,
    pub port: u16,
}

/// The mathematical value of a `NegotiatedRequest`.
pub struct RequestModel {
    pub address: AddressModel,
    pub port: u16,
}

impl View for NegotiatedRequest {
    type V = RequestModel;

    open spec fn view(&self) -> RequestModel {
        RequestModel { address: self.address@, port: self.port }
    }
}

/// The states of the handshake engine, in protocol order. `Connect` and
/// `Failed` are terminal: the engine asks for no further bytes there.
pub enum HandshakeState {
    /// Expect the version byte of the method-negotiation request.
    ExpectVersion1,
    /// Expect the method count.
    ReadMethodCount,
    /// Expect `count` method identifiers.
    ReadMethods { count: u8 },
    /// Expect the version byte of the connection request.
    ExpectVersion2,
    /// Expect the command byte.
    ReadCommand,
    /// Expect the reserved byte, which is discarded.
    SkipReserved,
    /// Expect the address-type byte.
    ReadAddressType,
    /// Expect the four raw bytes of an IPv4 address.
    ReadIpv4Address,
    /// Expect the length byte of a domain name.
    ReadDomainLength,
    /// Expect `len` bytes of domain name.
    ReadDomainName { len: u8 },
    /// Expect the two big-endian port bytes.
    ReadPort { address: DestAddress },
    /// The request is parsed; the caller should connect to it.
    Connect { request: NegotiatedRequest },
    /// The handshake failed; the connection is to be dropped.
    Failed { error: Error },
}

/// The mathematical value of a `HandshakeState`.
pub enum StateModel {
    ExpectVersion1,
    ReadMethodCount,
    ReadMethods { count: u8 },
    ExpectVersion2,
    ReadCommand,
    SkipReserved,
    ReadAddressType,
    ReadIpv4Address,
    ReadDomainLength,
    ReadDomainName { len: u8 },
    ReadPort { address: AddressModel },
    Connect { request: RequestModel },
    Failed { error: Error },
}

impl View for HandshakeState {
    type V = StateModel;

    open spec fn view(&self) -> StateModel {
        match self {
            HandshakeState::ExpectVersion1 => StateModel::ExpectVersion1,
            HandshakeState::ReadMethodCount => StateModel::ReadMethodCount,
            HandshakeState::ReadMethods { count } => StateModel::ReadMethods { count: *count },
            HandshakeState::ExpectVersion2 => StateModel::ExpectVersion2,
            HandshakeState::ReadCommand => StateModel::ReadCommand,
            HandshakeState::SkipReserved => StateModel::SkipReserved,
            HandshakeState::ReadAddressType => StateModel::ReadAddressType,
            HandshakeState::ReadIpv4Address => StateModel::ReadIpv4Address,
            HandshakeState::ReadDomainLength => StateModel::ReadDomainLength,
            HandshakeState::ReadDomainName { len } => StateModel::ReadDomainName { len: *len },
            HandshakeState::ReadPort { address } => StateModel::ReadPort { address: address@ },
            HandshakeState::Connect { request } => StateModel::Connect { request: request@ },
            HandshakeState::Failed { error } => StateModel::Failed { error: *error },
        }
    }
}

/// How many bytes the engine needs to leave this state.
pub open spec fn state_bytes_needed(s: StateModel) -> nat {
    match s {
        StateModel::ExpectVersion1 => 1,
        StateModel::ReadMethodCount => 1,
        StateModel::ReadMethods { count } => count as nat,
        StateModel::ExpectVersion2 => 1,
        StateModel::ReadCommand => 1,
        StateModel::SkipReserved => 1,
        StateModel::ReadAddressType => 1,
        StateModel::ReadIpv4Address => 4,
        StateModel::ReadDomainLength => 1,
        StateModel::ReadDomainName { len } => len as nat,
        StateModel::ReadPort { .. } => 2,
        StateModel::Connect { .. } => 0,
        StateModel::Failed { .. } => 0,
    }
}

/// Whether the engine has stopped, successfully or not.
pub open spec fn state_is_terminal(s: StateModel) -> bool {
    s is Connect || s is Failed
}

/// The fixed ten-byte SOCKS reply: version, status, reserved, the IPv4
/// address type, four address bytes, and the port in big-endian order.
pub open spec fn reply_model(status: u8, a: u8, b: u8, c: u8, d: u8, port: u16) -> Seq<u8> {
    seq![5u8, status, 0u8, 1u8, a, b, c, d, (port / 256) as u8, (port % 256) as u8]
}

/// The reply reporting `e`: its status code, with address and port all zero.
pub open spec fn error_reply_model(e: Error) -> Seq<u8> {
    reply_model(socks_code_spec(e), 0, 0, 0, 0, 0)
}

/// One step of the engine together with the bytes it owes the client.
pub struct StepModel {
    pub state: StateModel,
    pub write: Seq<u8>,
}

/// The transition function of the handshake engine. `input` is exactly the
/// chunk the state asked for. Failures before command parsing leave the
/// write empty: such connections are dropped without a reply.
pub open spec fn step_model(s: StateModel, input: Seq<u8>) -> StepModel
    recommends
        input.len() == state_bytes_needed(s),
{
    match s {
        StateModel::ExpectVersion1 => if input[0] == 5 {
            StepModel { state: StateModel::ReadMethodCount, write: Seq::empty() }
        } else {
            StepModel {
                state: StateModel::Failed {
                    error: Error::Protocol(ProtocolError::UnsupportedVersion),
                },
                write: Seq::empty(),
            }
        },
        StateModel::ReadMethodCount => StepModel {
            state: StateModel::ReadMethods { count: input[0] },
            write: Seq::empty(),
        },
        StateModel::ReadMethods { count } => if input.contains(0u8) {
            StepModel { state: StateModel::ExpectVersion2, write: seq![5u8, 0u8] }
        } else {
            StepModel {
                state: StateModel::Failed {
                    error: Error::Protocol(ProtocolError::NoSupportedAuth),
                },
                write: seq![5u8, 255u8],
            }
        },
        StateModel::ExpectVersion2 => if input[0] == 5 {
            StepModel { state: StateModel::ReadCommand, write: Seq::empty() }
        } else {
            StepModel {
                state: StateModel::Failed {
                    error: Error::Protocol(ProtocolError::UnsupportedVersion),
                },
                write: Seq::empty(),
            }
        },
        StateModel::ReadCommand => if input[0] == 1 {
            StepModel { state: StateModel::SkipReserved, write: Seq::empty() }
        } else {
            StepModel {
                state: StateModel::Failed {
                    error: Error::Protocol(ProtocolError::CommandNotSupported),
                },
                write: error_reply_model(Error::Protocol(ProtocolError::CommandNotSupported)),
            }
        },
        StateModel::SkipReserved => StepModel {
            state: StateModel::ReadAddressType,
            write: Seq::empty(),
        },
        StateModel::ReadAddressType => if input[0] == 1 {
            StepModel { state: StateModel::ReadIpv4Address, write: Seq::empty() }
        } else if input[0] == 3 {
            StepModel { state: StateModel::ReadDomainLength, write: Seq::empty() }
        } else {
            StepModel {
                state: StateModel::Failed {
                    error: Error::Protocol(ProtocolError::AddressTypeNotSupported),
                },
                write: Seq::empty(),
            }
        },
        StateModel::ReadIpv4Address => StepModel {
            state: StateModel::ReadPort {
                address: AddressModel::Ipv4 { a: input[0], b: input[1], c: input[2], d: input[3] },
            },
            write: Seq::empty(),
        },
        StateModel::ReadDomainLength => StepModel {
            state: StateModel::ReadDomainName { len: input[0] },
            write: Seq::empty(),
        },
        StateModel::ReadDomainName { len } => if is_utf8(input) {
            StepModel {
                state: StateModel::ReadPort { address: AddressModel::Domain { name: input } },
                write: Seq::empty(),
            }
        } else {
            StepModel {
                state: StateModel::Failed {
                    error: Error::Protocol(ProtocolError::AddressTypeNotSupported),
                },
                write: Seq::empty(),
            }
        },
        StateModel::ReadPort { address } => StepModel {
            state: StateModel::Connect {
                request: RequestModel {
                    address,
                    port: ((input[0] as int) * 256 + (input[1] as int)) as u16,
                },
            },
            write: Seq::empty(),
        },
        StateModel::Connect { request } => StepModel {
            state: StateModel::Connect { request },
            write: Seq::empty(),
        },
        StateModel::Failed { error } => StepModel {
            state: StateModel::Failed { error },
            write: Seq::empty(),
        },
    }
}

impl HandshakeState {
    /// How many bytes to read from the client before the next step.
    pub fn bytes_needed(&self) -> (n: usize)
        ensures
            n == state_bytes_needed(self@),
    {
        match self {
            HandshakeState::ExpectVersion1 => 1,
            HandshakeState::ReadMethodCount => 1,
            HandshakeState::ReadMethods { count } => *count as usize,
            HandshakeState::ExpectVersion2 => 1,
            HandshakeState::ReadCommand => 1,
            HandshakeState::SkipReserved => 1,
            HandshakeState::ReadAddressType => 1,
            HandshakeState::ReadIpv4Address => 4,
            HandshakeState::ReadDomainLength => 1,
            HandshakeState::ReadDomainName { len } => *len as usize,
            HandshakeState::ReadPort { .. } => 2,
            HandshakeState::Connect { .. } => 0,
            HandshakeState::Failed { .. } => 0,
        }
    }

    /// Whether the engine has stopped.
    pub fn is_terminal(&self) -> (b: bool)
        ensures
            b == state_is_terminal(self@),
    {
        match self {
            HandshakeState::Connect { .. } => true,
            HandshakeState::Failed { .. } => true,
            _ => false,
        }
    }
}

/// The result of one engine step: the next state and the bytes to send to
/// the client before anything else happens.
pub struct HandshakeStep {
    pub state: HandshakeState,
    pub write: Vec<u8>,
}

/// Read one byte and check it is the SOCKS version, `5`.
pub fn read_socks_version<T: ReadUtils>(conn: &mut T) -> (r: Result<(), Error>)
    ensures
        old(conn).remaining().len() > 0 ==> {
            &&& old(conn).remaining()[0] == 5 ==> r == Ok::<(), Error>(())
            &&& old(conn).remaining()[0] != 5 ==> r == Err::<(), Error>(
                Error::Protocol(ProtocolError::UnsupportedVersion),
            )
            &&& final(conn).remaining() == old(conn).remaining().skip(1)
        },
        old(conn).remaining().len() == 0 ==> {
            &&& r == Err::<(), Error>(Error::Io(IoErrorKind::BrokenPipe))
            &&& final(conn).remaining() == old(conn).remaining()
        },
{
    match conn.read_byte() {
        Ok(5) => Ok(()),
        Ok(_) => Err(Error::Protocol(ProtocolError::UnsupportedVersion)),
        Err(e) => Err(e),
    }
}

/// Whether the client's method list offers "no authentication".
fn contains_zero(v: &Vec<u8>) -> (b: bool)
    ensures
        b == v@.contains(0u8),
{
    let mut i: usize = 0;
    while i < v.len()
        invariant
            i <= v@.len(),
            forall|j: int| 0 <= j < i ==> v@[j] != 0u8,
        decreases v@.len() - i,
    {
        if v[i] == 0 {
            return true;
        }
        i = i + 1;
    }
    false
}

/// Encode the ten-byte SOCKS reply for the given status, bound address and
/// bound port.
pub fn encode_reply(status: u8, a: u8, b: u8, c: u8, d: u8, port: u16) -> (r: Vec<u8>)
    ensures
        r@ == reply_model(status, a, b, c, d, port),
{
    let mut r: Vec<u8> = Vec::new();
    r.push(5);
    r.push(status);
    r.push(0);
    r.push(1);
    r.push(a);
    r.push(b);
    r.push(c);
    r.push(d);
    r.push((port / 256) as u8);
    r.push((port % 256) as u8);
    proof {
        assert(r@ =~= reply_model(status, a, b, c, d, port));
    }
    r
}

/// One step of the handshake engine on exactly the bytes the state asked
/// for. The caller must send `write` to the client before acting on the new
/// state.
pub fn handshake_step(state: HandshakeState, bytes: Vec<u8>) -> (r: HandshakeStep)
    requires
        bytes@.len() == state_bytes_needed(state@),
    ensures
        r.state@ == step_model(state@, bytes@).state,
        r.write@ == step_model(state@, bytes@).write,
{
    match state {
        HandshakeState::ExpectVersion1 => {
            let mut cur = ByteCursor::new(bytes);
            match read_socks_version(&mut cur) {
                Ok(_) => HandshakeStep { state: HandshakeState::ReadMethodCount, write: Vec::new() },
                Err(e) => HandshakeStep {
                    state: HandshakeState::Failed { error: e },
                    write: Vec::new(),
                },
            }
        },
        HandshakeState::ReadMethodCount => HandshakeStep {
            state: HandshakeState::ReadMethods { count: bytes[0] },
            write: Vec::new(),
        },
        HandshakeState::ReadMethods { count: _ } => {
            if contains_zero(&bytes) {
                let mut write: Vec<u8> = Vec::new();
                write.push(5);
                write.push(0);
                proof {
                    assert(write@ =~= seq![5u8, 0u8]);
                }
                HandshakeStep { state: HandshakeState::ExpectVersion2, write }
            } else {
                let mut write: Vec<u8> = Vec::new();
                write.push(5);
                write.push(255);
                proof {
                    assert(write@ =~= seq![5u8, 255u8]);
                }
                HandshakeStep {
                    state: HandshakeState::Failed {
                        error: Error::Protocol(ProtocolError::NoSupportedAuth),
                    },
                    write,
                }
            }
        },
        HandshakeState::ExpectVersion2 => {
            let mut cur = ByteCursor::new(bytes);
            match read_socks_version(&mut cur) {
                Ok(_) => HandshakeStep { state: HandshakeState::ReadCommand, write: Vec::new() },
                Err(e) => HandshakeStep {
                    state: HandshakeState::Failed { error: e },
                    write: Vec::new(),
                },
            }
        },
        HandshakeState::ReadCommand => {
            if bytes[0] == 1 {
                HandshakeStep { state: HandshakeState::SkipReserved, write: Vec::new() }
            } else {
                let error = Error::Protocol(ProtocolError::CommandNotSupported);
                let write = encode_reply(error.socks_code(), 0, 0, 0, 0, 0);
                HandshakeStep { state: HandshakeState::Failed { error }, write }
            }
        },
        HandshakeState::SkipReserved => HandshakeStep {
            state: HandshakeState::ReadAddressType,
            write: Vec::new(),
        },
        HandshakeState::ReadAddressType => {
            if bytes[0] == 1 {
                HandshakeStep { state: HandshakeState::ReadIpv4Address, write: Vec::new() }
            } else if bytes[0] == 3 {
                HandshakeStep { state: HandshakeState::ReadDomainLength, write: Vec::new() }
            } else {
                HandshakeStep {
                    state: HandshakeState::Failed {
                        error: Error::Protocol(ProtocolError::AddressTypeNotSupported),
                    },
                    write: Vec::new(),
                }
            }
        },
        HandshakeState::ReadIpv4Address => HandshakeStep {
            state: HandshakeState::ReadPort {
                address: DestAddress::Ipv4 { a: bytes[0], b: bytes[1], c: bytes[2], d: bytes[3] },
            },
            write: Vec::new(),
        },
        HandshakeState::ReadDomainLength => HandshakeStep {
            state: HandshakeState::ReadDomainName { len: bytes[0] },
            write: Vec::new(),
        },
        HandshakeState::ReadDomainName { len: _ } => {
            if utf8_valid(&bytes) {
                HandshakeStep {
                    state: HandshakeState::ReadPort {
                        address: DestAddress::Domain { name: bytes },
                    },
                    write: Vec::new(),
                }
            } else {
                HandshakeStep {
                    state: HandshakeState::Failed {
                        error: Error::Protocol(ProtocolError::AddressTypeNotSupported),
                    },
                    write: Vec::new(),
                }
            }
        },
        HandshakeState::ReadPort { address } => {
            let port: u16 = (bytes[0] as u16) * 256 + (bytes[1] as u16);
            HandshakeStep {
                state: HandshakeState::Connect {
                    request: NegotiatedRequest { address, port },
                },
                write: Vec::new(),
            }
        },
        HandshakeState::Connect { request } => HandshakeStep {
            state: HandshakeState::Connect { request },
            write: Vec::new(),
        },
        HandshakeState::Failed { error } => HandshakeStep {
            state: HandshakeState::Failed { error },
            write: Vec::new(),
        },
    }
}

/// A socket address as the connector sees it: an IPv4 address with its port,
/// or an address of some other family, which the relay does not support.
#[derive(Clone, Copy, Debug, PartialEq, Eq, Structural)]
pub enum SockAddr {
    V4 { a: u8, b: u8, c: u8, d: u8, port: u16 },
    NotV4,
}

/// The first IPv4 address of the list, or `HostUnreachable` if there is none.
pub open spec fn select_addr_model(addrs: Seq<SockAddr>) -> Result<SockAddr, Error>
    decreases addrs.len(),
{
    if addrs.len() == 0 {
        Err(Error::Protocol(ProtocolError::HostUnreachable))
    } else if addrs[0] is V4 {
        Ok(addrs[0])
    } else {
        select_addr_model(addrs.skip(1))
    }
}

/// Pick the destination to connect to from the resolver's results: the first
/// IPv4 address, every other family being filtered out. An empty remainder
/// fails with `HostUnreachable`.
pub fn select_remote_addr(addrs: &Vec<SockAddr>) -> (r: Result<SockAddr, Error>)
    ensures
        r == select_addr_model(addrs@),
{
    let mut i: usize = 0;
    proof {
        assert(addrs@.skip(0) =~= addrs@);
    }
    while i < addrs.len()
        invariant
            i <= addrs@.len(),
            select_addr_model(addrs@.skip(i as int)) == select_addr_model(addrs@),
        decreases addrs@.len() - i,
    {
        match addrs[i] {
            SockAddr::V4 { .. } => {
                return Ok(addrs[i]);
            },
            SockAddr::NotV4 => {
                proof {
                    assert(addrs@.skip(i as int).skip(1) =~= addrs@.skip(i + 1));
                }
                i = i + 1;
            },
        }
    }
    proof {
        assert(addrs@.skip(i as int) =~= Seq::<SockAddr>::empty());
    }
    Err(Error::Protocol(ProtocolError::HostUnreachable))
}

/// Write the ten-byte reply reporting `error` and fail with it.
pub fn reply_error<U>(conn: &mut WriteBuffer, error: Error) -> (r: Result<U, Error>)
    ensures
        final(conn).data@ == old(conn).data@ + error_reply_model(error),
        r == Err::<U, Error>(error),
{
    let reply = encode_reply(error.socks_code(), 0, 0, 0, 0, 0);
    conn.write_all(reply.as_slice());
    Err(error)
}

/// Pass a success through untouched; report a failure to the client first.
pub fn reply_if_error<U>(conn: &mut WriteBuffer, result: Result<U, Error>) -> (r: Result<
    U,
    Error,
>)
    ensures
        result matches Ok(_) ==> {
            &&& final(conn).data@ == old(conn).data@
            &&& r == result
        },
        result matches Err(e) ==> {
            &&& final(conn).data@ == old(conn).data@ + error_reply_model(e)
            &&& r == Err::<U, Error>(e)
        },
{
    match result {
        Ok(x) => Ok(x),
        Err(err) => reply_error(conn, err),
    }
}

/// The outcome of the connection attempt as reported to the client: the one
/// reply the client is owed, and whether piping may begin.
pub struct ConnectReply {
    pub write: Vec<u8>,
    pub result: Result<(), Error>,
}

/// Turn the connector's outcome into the final reply of the handshake.
/// On success the reply carries the locally bound IPv4 address and port; a
/// bound address of another family is a general failure; an error is
/// reported under its status code with address and port all zero.
pub fn connect_reply(outcome: Result<SockAddr, Error>) -> (r: ConnectReply)
    ensures
        outcome matches Ok(bind) ==> {
            &&& (bind matches SockAddr::V4 { a, b, c, d, port } ==> {
                &&& r.write@ == reply_model(0, a, b, c, d, port)
                &&& r.result == Ok::<(), Error>(())
            })
            &&& (bind is NotV4 ==> {
                &&& r.write@ == error_reply_model(Error::Protocol(ProtocolError::General))
                &&& r.result == Err::<(), Error>(Error::Protocol(ProtocolError::General))
            })
        },
        outcome matches Err(e) ==> {
            &&& r.write@ == error_reply_model(e)
            &&& r.result == Err::<(), Error>(e)
        },
{
    let mut conn = WriteBuffer::new();
    let bind = match reply_if_error(&mut conn, outcome) {
        Ok(b) => b,
        Err(e) => {
            return ConnectReply { write: conn.data, result: Err(e) };
        },
    };
    match bind {
        SockAddr::V4 { a, b, c, d, port } => {
            let reply = encode_reply(0, a, b, c, d, port);
            conn.write_all(reply.as_slice());
            ConnectReply { write: conn.data, result: Ok(()) }
        },
        SockAddr::NotV4 => {
            let result: Result<(), Error> = reply_error(
                &mut conn,
                Error::Protocol(ProtocolError::General),
            );
            ConnectReply { write: conn.data, result }
        },
    }
}

/// The shortest decimal numeral of a byte, in ASCII.
pub open spec fn dec_byte_model(n: u8) -> Seq<u8> {
    if n < 10 {
        seq![(48 + n) as u8]
    } else if n < 100 {
        seq![(48 + n / 10) as u8, (48 + n % 10) as u8]
    } else {
        seq![(48 + n / 100) as u8, (48 + (n / 10) % 10) as u8, (48 + n % 10) as u8]
    }
}

/// The dotted-decimal literal of an IPv4 address, in ASCII.
pub open spec fn ipv4_literal_model(a: u8, b: u8, c: u8, d: u8) -> Seq<u8> {
    dec_byte_model(a) + seq![46u8] + dec_byte_model(b) + seq![46u8] + dec_byte_model(c)
        + seq![46u8] + dec_byte_model(d)
}

/// Append the decimal numeral of `n`.
fn push_dec_byte(out: &mut Vec<u8>, n: u8)
    ensures
        final(out)@ == old(out)@ + dec_byte_model(n),
{
    if n >= 100 {
        out.push(48 + n / 100);
    }
    if n >= 10 {
        out.push(48 + (n / 10) % 10);
    }
    out.push(48 + n % 10);
    proof {
        assert(out@ =~= old(out)@ + dec_byte_model(n));
    }
}

/// The host the request asks for, as the bytes of a resolvable name: the
/// dotted-decimal literal for an IPv4 address, the name itself for a domain.
pub open spec fn host_model(a: AddressModel) -> Seq<u8> {
    match a {
        AddressModel::Ipv4 { a, b, c, d } => ipv4_literal_model(a, b, c, d),
        AddressModel::Domain { name } => name,
    }
}

impl DestAddress {
    /// Format this address for the resolver.
    pub fn host_bytes(&self) -> (h: Vec<u8>)
        ensures
            h@ == host_model(self@),
    {
        match self {
            DestAddress::Ipv4 { a, b, c, d } => {
                let mut out: Vec<u8> = Vec::new();
                push_dec_byte(&mut out, *a);
                out.push(46);
                push_dec_byte(&mut out, *b);
                out.push(46);
                push_dec_byte(&mut out, *c);
                out.push(46);
                push_dec_byte(&mut out, *d);
                proof {
                    assert(out@ =~= host_model(self@));
                }
                out
            },
            DestAddress::Domain { name } => {
                let mut out: Vec<u8> = Vec::new();
                let mut i: usize = 0;
                while i < name.len()
                    invariant
                        i <= name@.len(),
                        out@ == name@.take(i as int),
                    decreases name@.len() - i,
                {
                    out.push(name[i]);
                    i = i + 1;
                    proof {
                        assert(out@ =~= name@.take(i as int));
                    }
                }
                proof {
                    assert(out@ =~= host_model(self@));
                }
                out
            },
        }
    }
}

/// Every well-formed method-negotiation request that offers the
/// "no authentication" method is answered with exactly `[5, 0]`, and the
/// engine then awaits the connection request.
pub proof fn lemma_negotiation_accepts(methods: Seq<u8>)
    requires
        methods.len() <= 255,
        methods.contains(0u8),
    ensures
        ({
            let s1 = step_model(StateModel::ExpectVersion1, seq![5u8]);
            let s2 = step_model(s1.state, seq![methods.len() as u8]);
            let s3 = step_model(s2.state, methods);
            &&& s1.write + s2.write + s3.write =~= seq![5u8, 0u8]
            &&& s3.state is ExpectVersion2
        }),
{
}

/// Every method-negotiation request that omits the "no authentication"
/// method is answered with exactly `[5, 255]`, and the handshake fails with
/// `NoSupportedAuth`.
pub proof fn lemma_negotiation_rejects(methods: Seq<u8>)
    requires
        methods.len() <= 255,
        !methods.contains(0u8),
    ensures
        ({
            let s1 = step_model(StateModel::ExpectVersion1, seq![5u8]);
            let s2 = step_model(s1.state, seq![methods.len() as u8]);
            let s3 = step_model(s2.state, methods);
            &&& s1.write + s2.write + s3.write =~= seq![5u8, 255u8]
            &&& s3.state == StateModel::Failed {
                error: Error::Protocol(ProtocolError::NoSupportedAuth),
            }
        }),
{
}

/// Every connection request carrying a command other than CONNECT is
/// answered with the ten-byte reply whose status is `7` and whose address
/// and port are all zero, and the handshake fails with `CommandNotSupported`.
pub proof fn lemma_command_rejected(cmd: u8)
    requires
        cmd != 1,
    ensures
        ({
            let s1 = step_model(StateModel::ExpectVersion2, seq![5u8]);
            let s2 = step_model(s1.state, seq![cmd]);
            &&& s1.write + s2.write =~= seq![5u8, 7u8, 0u8, 1u8, 0u8, 0u8, 0u8, 0u8, 0u8, 0u8]
            &&& s2.state == StateModel::Failed {
                error: Error::Protocol(ProtocolError::CommandNotSupported),
            }
        }),
{
}

/// Every connection request for an IPv4 destination parses to exactly its
/// four address bytes and its big-endian port, with nothing written to the
/// client on the way.
pub proof fn lemma_connect_request_ipv4(a: u8, b: u8, c: u8, d: u8, rsv: u8, hi: u8, lo: u8)
    ensures
        ({
            let s1 = step_model(StateModel::ExpectVersion2, seq![5u8]);
            let s2 = step_model(s1.state, seq![1u8]);
            let s3 = step_model(s2.state, seq![rsv]);
            let s4 = step_model(s3.state, seq![1u8]);
            let s5 = step_model(s4.state, seq![a, b, c, d]);
            let s6 = step_model(s5.state, seq![hi, lo]);
            &&& s1.write + s2.write + s3.write + s4.write + s5.write + s6.write =~= Seq::<
                u8,
            >::empty()
            &&& s6.state == StateModel::Connect {
                request: RequestModel {
                    address: AddressModel::Ipv4 { a, b, c, d },
                    port: ((hi as int) * 256 + (lo as int)) as u16,
                },
            }
        }),
{
}

} // verus!
