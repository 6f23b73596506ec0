//! Hyperlanes: the frames that carry waves between stars, and the records of the servers and
//! clients that exchange them.
use vstd::prelude::*;
use vstd::utf8::{decode_utf8, encode_utf8, valid_utf8};
use crate::error::MsgErr;
use crate::parse::{parse_semver, semver_parse};
use crate::point::{version_text, Version};

verus! {

/// std's `String::from_utf8`: the text the bytes decode to, where they are UTF-8.
#[verifier::external_body]
fn string_from_utf8(bytes: Vec<u8>) -> (r: Option<String>)
    ensures
        r is Some <==> valid_utf8(bytes@),
        r matches Some(s) ==> s@ == decode_utf8(bytes@),
{
    match String::from_utf8(bytes) {
        Ok(s) => Some(s),
        Err(_) => None,
    }
}

/// The bytes of a string in UTF-8.
fn utf8_bytes(s: &str) -> (r: Vec<u8>)
    ensures
        r@ == encode_utf8(s@),
{
    s.as_bytes_vec()
}

/// A frame of bytes sent over a lane.
pub struct Frame {
    pub data: Vec<u8>,
}

impl Frame {
    /// The frame holding a string's UTF-8 bytes.
    pub fn from_string(string: String) -> (r: Frame)
        ensures
            r.data@ == encode_utf8(string@),
    {
        Frame { data: utf8_bytes(string.as_str()) }
    }

    /// The string the frame holds; an error where its bytes are not UTF-8.
    pub fn to_string(self) -> (r: Result<String, MsgErr>)
        ensures
            r is Ok <==> valid_utf8(self.data@),
            r matches Ok(s) ==> s@ == decode_utf8(self.data@),
    {
        match string_from_utf8(self.data) {
            Some(s) => Ok(s),
            None => Err(MsgErr::from_500("frame is not utf-8")),
        }
    }

    /// The frame holding the text of a version.
    pub fn from_version(version: &Version) -> (r: Frame)
        ensures
            r.data@ == encode_utf8(version_text(version@)),
    {
        let t = version.to_string();
        Frame { data: utf8_bytes(t.as_str()) }
    }

    /// The version the frame's text reads as, by semver.
    pub fn to_version(self) -> (r: Result<Version, MsgErr>)
        ensures
            match (valid_utf8(self.data@), r) {
                (false, r) => r is Err,
                (true, Ok(v)) => semver_parse(decode_utf8(self.data@)) == Some(v@),
                (true, Err(_)) => semver_parse(decode_utf8(self.data@)) is None,
            },
    {
        let s = match string_from_utf8(self.data) {
            Some(s) => s,
            None => {
                return Err(MsgErr::from_500("frame is not utf-8"));
            },
        };
        match parse_semver(s.as_str()) {
            Some(v) => Ok(v),
            None => Err(MsgErr::from_500("frame is not a version")),
        }
    }
}

/// A string sent in a frame comes back unchanged.
pub proof fn law_frame_string_roundtrip(s: Seq<char>)
    ensures
        valid_utf8(encode_utf8(s)),
        decode_utf8(encode_utf8(s)) == s,
{
    vstd::utf8::encode_utf8_valid_utf8(s);
    vstd::utf8::encode_utf8_decode_utf8(s);
}

/// An error of a tcp lane.
#[derive(Debug)]
pub struct Error {
    pub message: String,
}

impl Error {
    pub fn new(m: &str) -> (r: Self)
        ensures
            r.message@ == m@,
    {
        Self { message: m.to_string() }
    }

    pub fn to_string(&self) -> (r: String)
        ensures
            r@ == self.message@,
    {
        self.message.clone()
    }
}

/// A certificate chain and a private key, in PEM.
pub struct CertGenerator {
    certs: String,
    key: String,
}

impl CertGenerator {
    pub closed spec fn certs_text(&self) -> Seq<char> {
        self.certs@
    }

    pub closed spec fn key_text(&self) -> Seq<char> {
        self.key@
    }

    /// The certificates and key read from the bytes of their files; an error where either is
    /// not UTF-8.
    pub fn from_pem_bytes(certs: Vec<u8>, key: Vec<u8>) -> (r: Result<Self, Error>)
        ensures
            r is Ok <==> valid_utf8(certs@) && valid_utf8(key@),
            r matches Ok(g) ==> g.certs_text() == decode_utf8(certs@) && g.key_text()
                == decode_utf8(key@),
    {
        let certs = match string_from_utf8(certs) {
            Some(s) => s,
            None => {
                return Err(Error::new("certificates are not utf-8"));
            },
        };
        let key = match string_from_utf8(key) {
            Some(s) => s,
            None => {
                return Err(Error::new("private key is not utf-8"));
            },
        };
        Ok(Self { certs, key })
    }

    pub fn certs(&self) -> (r: String)
        ensures
            r@ == self.certs_text(),
    {
        self.certs.clone()
    }

    pub fn private_key(&self) -> (r: String)
        ensures
            r@ == self.key_text(),
    {
        self.key.clone()
    }
}

/// The handle of a running tcp server.
pub struct HyperlaneTcpServerApi {}

impl HyperlaneTcpServerApi {
    pub fn new() -> (r: Self) {
        Self {}
    }
}

/// The sum of two numbers.
pub fn add(left: usize, right: usize) -> (r: usize)
    requires
        left + right <= usize::MAX,
    ensures
        r == left + right,
{
    left + right
}

/// An error of a quic lane.
pub struct QuicErr {
    pub message: String,
}

impl QuicErr {
    pub fn new(m: &str) -> (r: Self)
        ensures
            r.message@ == m@,
    {
        Self { message: m.to_string() }
    }
}

/// An error of a connection.
pub struct ConErr {}

impl ConErr {
    pub fn new() -> (r: Self) {
        Self {}
    }
}

/// How a hyperway is attached: mounted, or for one exchange.
#[derive(Debug, Clone, Copy, PartialEq, Eq, Structural)]
pub enum HyperwayKind {
    Mount,
    Ephemeral,
}

/// The state of a client's connection.
#[derive(Debug, Clone, Copy, PartialEq, Eq, Structural)]
pub enum HyperClientStatus {
    Unknown,
    Connecting,
    Ready,
    Panic,
}

/// Where a client's connection runner stands.
#[derive(Debug, Clone, Copy, PartialEq, Eq, Structural)]
pub enum ClientState {
    /// Not started yet.
    Start,
    /// Trying to connect.
    Connecting,
    /// Connected, relaying waves to the connection.
    Relaying,
}

/// What happened to a client's connection runner.
#[derive(Debug, Clone, Copy, PartialEq, Eq, Structural)]
pub enum ClientEvent {
    /// The runner was started.
    Begin,
    /// An attempt to connect succeeded.
    Connected,
    /// An attempt to connect failed or timed out.
    ConnectFailed,
    /// The waves to relay came to an end.
    RelayEnded,
    /// A wave could not be handed to the connection.
    SendFailed,
}

/// What the runner does next, besides announcing statuses.
#[derive(Debug, Clone, Copy, PartialEq, Eq, Structural)]
pub enum ClientOp {
    /// Try to connect, giving up after this many seconds.
    Connect { timeout_secs: u64 },
    /// Wait this many seconds, then try to connect, giving up after `timeout_secs`.
    RetryAfter { wait_secs: u64, timeout_secs: u64 },
    /// Relay waves to the connection.
    Relay,
    /// Drop the connection, put the wave that failed back in the queue, and try to connect.
    Requeue { timeout_secs: u64 },
    /// Nothing: the event does not apply where the runner stands.
    Ignore,
}

/// How long an attempt to connect may take.
pub open spec fn connect_timeout() -> u64 {
    30
}

/// How long the runner waits after a failed attempt to connect.
pub open spec fn retry_wait() -> u64 {
    1
}

/// The next state of a client's runner, the statuses it announces, in order, and what it
/// does next, after `ev` where it stands at `s`.
pub open spec fn client_next(s: ClientState, ev: ClientEvent) -> (
    ClientState,
    Seq<HyperClientStatus>,
    ClientOp,
) {
    match (s, ev) {
        (ClientState::Start, ClientEvent::Begin) => (
            ClientState::Connecting,
            seq![HyperClientStatus::Unknown, HyperClientStatus::Connecting],
            ClientOp::Connect { timeout_secs: connect_timeout() },
        ),
        (ClientState::Connecting, ClientEvent::Connected) => (
            ClientState::Relaying,
            seq![HyperClientStatus::Ready],
            ClientOp::Relay,
        ),
        (ClientState::Connecting, ClientEvent::ConnectFailed) => (
            ClientState::Connecting,
            Seq::empty(),
            ClientOp::RetryAfter { wait_secs: retry_wait(), timeout_secs: connect_timeout() },
        ),
        (ClientState::Relaying, ClientEvent::RelayEnded) => (
            ClientState::Connecting,
            seq![HyperClientStatus::Connecting],
            ClientOp::Connect { timeout_secs: connect_timeout() },
        ),
        (ClientState::Relaying, ClientEvent::SendFailed) => (
            ClientState::Connecting,
            seq![HyperClientStatus::Connecting],
            ClientOp::Requeue { timeout_secs: connect_timeout() },
        ),
        _ => (s, Seq::empty(), ClientOp::Ignore),
    }
}

/// The decisions of a client's connection runner: announce `Unknown` and `Connecting` when
/// started, try to connect for up to 30 seconds, retry a second after each failure, announce
/// `Ready` and relay once connected, and reconnect, announcing `Connecting`, when relaying ends
/// or a wave cannot be handed on (that wave goes back in the queue).
pub fn client_step(s: ClientState, ev: ClientEvent) -> (r: (
    ClientState,
    Vec<HyperClientStatus>,
    ClientOp,
))
    ensures
        r.0 == client_next(s, ev).0,
        r.1@ == client_next(s, ev).1,
        r.2 == client_next(s, ev).2,
{
    let timeout: u64 = 30;
    let wait: u64 = 1;
    let mut statuses: Vec<HyperClientStatus> = Vec::new();
    let r = match (s, ev) {
        (ClientState::Start, ClientEvent::Begin) => {
            statuses.push(HyperClientStatus::Unknown);
            statuses.push(HyperClientStatus::Connecting);
            (ClientState::Connecting, ClientOp::Connect { timeout_secs: timeout })
        },
        (ClientState::Connecting, ClientEvent::Connected) => {
            statuses.push(HyperClientStatus::Ready);
            (ClientState::Relaying, ClientOp::Relay)
        },
        (ClientState::Connecting, ClientEvent::ConnectFailed) => {
            (ClientState::Connecting, ClientOp::RetryAfter { wait_secs: wait, timeout_secs: timeout })
        },
        (ClientState::Relaying, ClientEvent::RelayEnded) => {
            statuses.push(HyperClientStatus::Connecting);
            (ClientState::Connecting, ClientOp::Connect { timeout_secs: timeout })
        },
        (ClientState::Relaying, ClientEvent::SendFailed) => {
            statuses.push(HyperClientStatus::Connecting);
            (ClientState::Connecting, ClientOp::Requeue { timeout_secs: timeout })
        },
        _ => (s, ClientOp::Ignore),
    };
    assert(statuses@ =~= client_next(s, ev).1);
    (r.0, statuses, r.1)
}

} // verus!
