//! One client session of the proxy: method negotiation, the destination
//! request, and what follows from connecting and relaying. The session does no
//! I/O. It says what its driver has to do next, and takes what came of it.

use crate::auth::{Auth, AuthMode, AuthModel};
use crate::text::{ipv4_text, ipv6_text, push_ipv4, push_ipv6, utf8_text};
use vstd::prelude::*;
use vstd::slice::{slice_subrange, slice_to_vec};
use vstd::std_specs::convert::TryFromSpecImpl;
use vstd::utf8::{decode_utf8, valid_utf8};

verus! {

/// The protocol version that every client message starts with.
pub const SOCKET_VERSION: u8 = 0x05;

/// The longest message that is read in one piece.
pub const MAX_MESSAGE_LEN: usize = 257;

/// Why a session ended in failure.
#[derive(Clone, Copy, PartialEq, Eq, Structural, Debug)]
pub enum Sock5Error {
    /// A message did not start with the protocol version and a command.
    ProtocolVersion,
    /// A credential field was cut short or is not UTF-8.
    MalformedCredentials,
    /// The login is unknown or the password is wrong.
    AuthenticationDenied,
    /// The address type of the destination request is none of the three known.
    UnsupportedAddressType,
    /// The destination request was cut short or its domain name is not UTF-8.
    MalformedRequest,
    /// The destination could not be connected to.
    DestinationUnreachable,
    /// The relay met an I/O error that is no sign of a closing connection.
    RelayIo,
}

/// The authentication methods that the server can select.
#[derive(Clone, Copy, PartialEq, Eq, Structural, Debug)]
pub enum Sock5AuthMethods {
    /// No authentication required.
    NoAuth,
    /// Username and password.
    UserPassword,
}

impl Sock5AuthMethods {
    /// The method's identifier on the wire.
    pub open spec fn spec_code(self) -> u8 {
        match self {
            Sock5AuthMethods::NoAuth => 0x00,
            Sock5AuthMethods::UserPassword => 0x02,
        }
    }

    /// The method's identifier on the wire.
    #[verifier::when_used_as_spec(spec_code)]
    pub fn code(self) -> (code: u8)
        ensures
            code == self.spec_code(),
    {
        match self {
            Sock5AuthMethods::NoAuth => 0x00,
            Sock5AuthMethods::UserPassword => 0x02,
        }
    }

    /// The method that a store in `mode` asks of its clients.
    pub open spec fn spec_for_mode(mode: AuthMode) -> Sock5AuthMethods {
        match mode {
            AuthMode::NoAuth => Sock5AuthMethods::NoAuth,
            AuthMode::LoginPassword => Sock5AuthMethods::UserPassword,
        }
    }

    /// The method that a store in `mode` asks of its clients.
    #[verifier::when_used_as_spec(spec_for_mode)]
    pub fn for_mode(mode: AuthMode) -> (method: Sock5AuthMethods)
        ensures
            method == Sock5AuthMethods::spec_for_mode(mode),
    {
        match mode {
            AuthMode::NoAuth => Sock5AuthMethods::NoAuth,
            AuthMode::LoginPassword => Sock5AuthMethods::UserPassword,
        }
    }
}

/// The kinds of destination address.
#[derive(Clone, Copy, PartialEq, Eq, Structural, Debug)]
pub enum Sock5AddressType {
    /// Four raw bytes.
    IPv4,
    /// Sixteen raw bytes.
    IPv6,
    /// A length byte and a host name of that many bytes.
    DOMAIN,
}

/// The kind of address that a tag stands for: `0x01` is IPv4, `0x03` a domain
/// name, `0x04` IPv6, and no other tag is known.
pub open spec fn address_type(tag: u8) -> Option<Sock5AddressType> {
    if tag == 0x01 {
        Some(Sock5AddressType::IPv4)
    } else if tag == 0x03 {
        Some(Sock5AddressType::DOMAIN)
    } else if tag == 0x04 {
        Some(Sock5AddressType::IPv6)
    } else {
        None
    }
}

impl TryFrom<u8> for Sock5AddressType {
    type Error = ();

    /// Reads the address-type tag of a destination request.
    fn try_from(val: u8) -> (kind: Result<Sock5AddressType, ()>) {
        match val {
            0x01 => Ok(Sock5AddressType::IPv4),
            0x03 => Ok(Sock5AddressType::DOMAIN),
            0x04 => Ok(Sock5AddressType::IPv6),
            _ => Err(()),
        }
    }
}

impl TryFromSpecImpl<u8> for Sock5AddressType {
    open spec fn obeys_try_from_spec() -> bool {
        true
    }

    open spec fn try_from_spec(val: u8) -> Result<Sock5AddressType, ()> {
        match address_type(val) {
            Some(kind) => Ok(kind),
            None => Err(()),
        }
    }
}

/// Whether a message may start with these two bytes: the protocol version and
/// a command (or method count) that is not zero.
pub open spec fn version_accepted(version: u8, command: u8) -> bool {
    version == SOCKET_VERSION && command > 0
}

/// The port of a destination request: its last two bytes, big-endian.
pub open spec fn request_port(message: Seq<u8>) -> u16 {
    (message[message.len() - 2] * 256 + message[message.len() - 1]) as u16
}

/// The address and port that a destination request asks for, or why it asks
/// for none. The message holds the version, a command, a reserved byte, the
/// address type, the address, and the port in its last two bytes.
pub open spec fn requested_destination(message: Seq<u8>) -> Result<(Seq<char>, u16), Sock5Error> {
    if message.len() < 2 || !version_accepted(message[0], message[1]) {
        Err(Sock5Error::ProtocolVersion)
    } else if message.len() < 4 {
        Err(Sock5Error::MalformedRequest)
    } else {
        match address_type(message[3]) {
            None => Err(Sock5Error::UnsupportedAddressType),
            Some(Sock5AddressType::IPv4) => if message.len() < 10 {
                Err(Sock5Error::MalformedRequest)
            } else {
                Ok((ipv4_text(message.subrange(4, 8)), request_port(message)))
            },
            Some(Sock5AddressType::IPv6) => if message.len() < 22 {
                Err(Sock5Error::MalformedRequest)
            } else {
                Ok((ipv6_text(message.subrange(4, 20)), request_port(message)))
            },
            Some(Sock5AddressType::DOMAIN) => if message.len() < 5 || message.len() < 7
                + message[4] {
                Err(Sock5Error::MalformedRequest)
            } else {
                let name = message.subrange(5, 5 + message[4]);
                if valid_utf8(name) {
                    Ok((decode_utf8(name), request_port(message)))
                } else {
                    Err(Sock5Error::MalformedRequest)
                }
            },
        }
    }
}

/// The status of a destination reply that reports success.
pub const REPLY_SUCCEEDED: u8 = 0x00;

/// The server's answer to a greeting: the version and the method that the
/// store's mode selects.
pub open spec fn method_reply(mode: AuthMode) -> Seq<u8> {
    seq![SOCKET_VERSION, Sock5AuthMethods::spec_for_mode(mode).spec_code()]
}

/// The server's answer to a destination request: version, `status`, a
/// reserved byte, the IPv4 address type, address 0.0.0.0 and port 0.
pub open spec fn destination_reply(status: u8) -> Seq<u8> {
    seq![SOCKET_VERSION, status, 0x00, 0x01, 0x00, 0x00, 0x00, 0x00, 0x00, 0x00]
}

/// Why the destination could not be connected to.
#[derive(Clone, Copy, PartialEq, Eq, Structural, Debug)]
pub enum ConnectFailure {
    /// No more is known than that it failed.
    General,
    /// No route leads to the host.
    HostUnreachable,
    /// The host refused the connection.
    ConnectionRefused,
}

impl ConnectFailure {
    /// The status that a destination reply carries for this failure.
    pub open spec fn spec_status(self) -> u8 {
        match self {
            ConnectFailure::General => 0x01,
            ConnectFailure::HostUnreachable => 0x04,
            ConnectFailure::ConnectionRefused => 0x05,
        }
    }

    /// The status that a destination reply carries for this failure.
    #[verifier::when_used_as_spec(spec_status)]
    pub fn status(self) -> (status: u8)
        ensures
            status == self.spec_status(),
    {
        match self {
            ConnectFailure::General => 0x01,
            ConnectFailure::HostUnreachable => 0x04,
            ConnectFailure::ConnectionRefused => 0x05,
        }
    }
}

/// How the relay between client and destination ended.
#[derive(Clone, Copy, PartialEq, Eq, Structural, Debug)]
pub enum RelayEnd {
    /// Both directions reached the end of their stream.
    Completed,
    /// An I/O error said that a connection was no longer connected, as on a
    /// write to a peer that has already shut down.
    NotConnected,
    /// Any other I/O error.
    Failed,
}

impl RelayEnd {
    /// What the end of the relay means for the session: an error on a
    /// connection that was closing anyway is a normal end.
    pub open spec fn spec_outcome(self) -> Result<(), Sock5Error> {
        match self {
            RelayEnd::Completed | RelayEnd::NotConnected => Ok(()),
            RelayEnd::Failed => Err(Sock5Error::RelayIo),
        }
    }

    /// What the end of the relay means for the session.
    #[verifier::when_used_as_spec(spec_outcome)]
    pub fn outcome(self) -> (outcome: Result<(), Sock5Error>)
        ensures
            outcome == self.spec_outcome(),
    {
        match self {
            RelayEnd::Completed | RelayEnd::NotConnected => Ok(()),
            RelayEnd::Failed => Err(Sock5Error::RelayIo),
        }
    }
}

/// What came of the driver's work after method negotiation.
pub enum Event<'a> {
    /// The read delivered these bytes.
    Received(&'a [u8]),
    /// The destination is connected.
    Connected,
    /// The destination could not be connected to.
    ConnectFailed(ConnectFailure),
    /// The relay has ended.
    RelayFinished(RelayEnd),
}

/// What the driver of a session has to do next.
#[derive(PartialEq, Eq, Debug)]
pub enum Demand {
    /// Read exactly `len` bytes from the client and hand them to
    /// [`Sock5::select_method`].
    Read { len: usize },
    /// Read one message of at most `max_len` bytes from the client and hand
    /// it to [`Sock5::create_destination_connection`].
    ReadMessage { max_len: usize },
    /// Connect to the destination and report how that went.
    Connect { address: String, port: u16 },
    /// Relay bytes between client and destination until both directions are
    /// done, and report how that ended.
    Relay,
    /// Close the sockets: the session is over, with this outcome.
    Close { result: Result<(), Sock5Error> },
}

/// What a [`Demand`] stands for: the same demands, with the destination's
/// address as the text that it holds.
pub enum DemandModel {
    /// Read exactly `len` bytes.
    Read { len: nat },
    /// Read one message of at most `max_len` bytes.
    ReadMessage { max_len: nat },
    /// Connect to `address` at `port`.
    Connect { address: Seq<char>, port: u16 },
    /// Relay between client and destination.
    Relay,
    /// Close the sockets.
    Close { result: Result<(), Sock5Error> },
}

impl View for Demand {
    type V = DemandModel;

    open spec fn view(&self) -> DemandModel {
        match *self {
            Demand::Read { len } => DemandModel::Read { len: len as nat },
            Demand::ReadMessage { max_len } => DemandModel::ReadMessage { max_len: max_len as nat },
            Demand::Connect { address, port } => DemandModel::Connect { address: address@, port },
            Demand::Relay => DemandModel::Relay,
            Demand::Close { result } => DemandModel::Close { result },
        }
    }
}

/// The states that a session passes through, in this order.
#[derive(Clone, Copy, PartialEq, Eq, Structural, Debug)]
pub enum SessionState {
    /// The method is being negotiated, credentials included.
    AwaitingMethodNegotiation,
    /// Negotiation has succeeded; the destination is not connected yet.
    AwaitingDestinationRequest,
    /// Client and destination are connected and bytes are relayed.
    Relaying,
    /// The session is over, well or not.
    Closed,
}

/// What a [`Sock5`] stands for: the step that the session is at, with what it
/// has to remember there.
pub enum SessionModel {
    /// Waiting for the client's greeting of two bytes.
    Greeting,
    /// Waiting for the two bytes in front of the login.
    LoginLength,
    /// Waiting for a login of `len` bytes.
    Login { len: u8 },
    /// Waiting for the byte in front of the password.
    PasswordLength { login: Seq<u8> },
    /// Waiting for a password of `len` bytes.
    Password { login: Seq<u8>, len: u8 },
    /// Waiting for the destination request.
    DestinationRequest,
    /// Waiting for the connection to the destination.
    Connecting { address: Seq<char>, port: u16 },
    /// Waiting for the relay between client and destination to end.
    Relaying,
    /// Over, with this outcome.
    Closed { result: Result<(), Sock5Error> },
}

impl SessionModel {
    /// The state that the step belongs to.
    pub open spec fn state(self) -> SessionState {
        match self {
            SessionModel::Greeting
            | SessionModel::LoginLength
            | SessionModel::Login { .. }
            | SessionModel::PasswordLength { .. }
            | SessionModel::Password { .. } => SessionState::AwaitingMethodNegotiation,
            SessionModel::DestinationRequest
            | SessionModel::Connecting { .. } => SessionState::AwaitingDestinationRequest,
            SessionModel::Relaying => SessionState::Relaying,
            SessionModel::Closed { .. } => SessionState::Closed,
        }
    }

    /// What the driver has to do for a session at this step.
    pub open spec fn demand(self) -> DemandModel {
        match self {
            SessionModel::Greeting | SessionModel::LoginLength => DemandModel::Read { len: 2 },
            SessionModel::Login { len } => DemandModel::Read { len: len as nat },
            SessionModel::PasswordLength { .. } => DemandModel::Read { len: 1 },
            SessionModel::Password { len, .. } => DemandModel::Read { len: len as nat },
            SessionModel::DestinationRequest => DemandModel::ReadMessage {
                max_len: MAX_MESSAGE_LEN as nat,
            },
            SessionModel::Connecting { address, port } => DemandModel::Connect { address, port },
            SessionModel::Relaying => DemandModel::Relay,
            SessionModel::Closed { result } => DemandModel::Close { result },
        }
    }

    /// A session that has failed with `error`.
    pub open spec fn failed(error: Sock5Error) -> SessionModel {
        SessionModel::Closed { result: Err(error) }
    }

    /// The step after `received` has come in during method negotiation. Bytes
    /// that are not as many as were asked for count as cut short. After
    /// negotiation the session stays as it is.
    pub open spec fn after_received(self, store: AuthModel, received: Seq<u8>) -> SessionModel {
        match self {
            SessionModel::Greeting => if received.len() != 2 || !version_accepted(
                received[0],
                received[1],
            ) {
                SessionModel::failed(Sock5Error::ProtocolVersion)
            } else if store.mode == AuthMode::NoAuth {
                SessionModel::DestinationRequest
            } else {
                SessionModel::LoginLength
            },
            SessionModel::LoginLength => if received.len() != 2 {
                SessionModel::failed(Sock5Error::MalformedCredentials)
            } else {
                SessionModel::Login { len: received[1] }
            },
            SessionModel::Login { len } => if received.len() != len {
                SessionModel::failed(Sock5Error::MalformedCredentials)
            } else {
                SessionModel::PasswordLength { login: received }
            },
            SessionModel::PasswordLength { login } => if received.len() != 1 {
                SessionModel::failed(Sock5Error::MalformedCredentials)
            } else {
                SessionModel::Password { login, len: received[0] }
            },
            SessionModel::Password { login, len } => if received.len() != len || !valid_utf8(login)
                || !valid_utf8(received) {
                SessionModel::failed(Sock5Error::MalformedCredentials)
            } else if store.authorizes(decode_utf8(login), decode_utf8(received)) {
                SessionModel::DestinationRequest
            } else {
                SessionModel::failed(Sock5Error::AuthenticationDenied)
            },
            _ => self,
        }
    }

    /// What the server sends after `received` has come in during method
    /// negotiation: the method selection after a greeting that is accepted,
    /// and nothing otherwise.
    pub open spec fn negotiation_reply(self, store: AuthModel, received: Seq<u8>) -> Seq<u8> {
        if self is Greeting && received.len() == 2 && version_accepted(received[0], received[1]) {
            method_reply(store.mode)
        } else {
            Seq::empty()
        }
    }

    /// The step after `event`, once method negotiation is over. An event that
    /// the session does not wait for leaves it as it is.
    pub open spec fn after_event(self, event: Event) -> SessionModel {
        match (self, event) {
            (SessionModel::DestinationRequest, Event::Received(message)) => {
                match requested_destination(message@) {
                    Ok((address, port)) => SessionModel::Connecting { address, port },
                    Err(error) => SessionModel::failed(error),
                }
            },
            (SessionModel::Connecting { .. }, Event::Connected) => SessionModel::Relaying,
            (SessionModel::Connecting { .. }, Event::ConnectFailed(_)) => SessionModel::failed(
                Sock5Error::DestinationUnreachable,
            ),
            (SessionModel::Relaying, Event::RelayFinished(end)) => SessionModel::Closed {
                result: end.spec_outcome(),
            },
            _ => self,
        }
    }

    /// What the server sends after `event`: the destination reply once the
    /// connection attempt has ended, with the status of its outcome, and
    /// nothing otherwise.
    pub open spec fn event_reply(self, event: Event) -> Seq<u8> {
        match (self, event) {
            (SessionModel::Connecting { .. }, Event::Connected) => destination_reply(
                REPLY_SUCCEEDED,
            ),
            (SessionModel::Connecting { .. }, Event::ConnectFailed(failure)) => destination_reply(
                failure.spec_status(),
            ),
            _ => Seq::empty(),
        }
    }
}

/// The steps of [`SessionModel`], without what is remembered at each.
#[derive(Clone, Copy, PartialEq, Eq, Structural)]
enum Step {
    Greeting,
    LoginLength,
    Login { len: u8 },
    PasswordLength,
    Password { len: u8 },
    DestinationRequest,
    Connecting,
    Relaying,
    Closed,
}

/// One client session. It holds no socket: see [`Sock5::demand`] for what its
/// driver has to do, and [`Sock5::select_method`] and
/// [`Sock5::create_destination_connection`] for where the results go.
pub struct Sock5 {
    step: Step,
    login: Vec<u8>,
    address: String,
    port: u16,
    result: Result<(), Sock5Error>,
}

impl View for Sock5 {
    type V = SessionModel;

    closed spec fn view(&self) -> SessionModel {
        match self.step {
            Step::Greeting => SessionModel::Greeting,
            Step::LoginLength => SessionModel::LoginLength,
            Step::Login { len } => SessionModel::Login { len },
            Step::PasswordLength => SessionModel::PasswordLength { login: self.login@ },
            Step::Password { len } => SessionModel::Password { login: self.login@, len },
            Step::DestinationRequest => SessionModel::DestinationRequest,
            Step::Connecting => SessionModel::Connecting {
                address: self.address@,
                port: self.port,
            },
            Step::Relaying => SessionModel::Relaying,
            Step::Closed => SessionModel::Closed { result: self.result },
        }
    }
}

impl Sock5 {
    /// A session that waits for its client's greeting.
    pub fn new() -> (session: Sock5)
        ensures
            session@ == SessionModel::Greeting,
    {
        Sock5 {
            step: Step::Greeting,
            login: Vec::new(),
            address: String::new(),
            port: 0,
            result: Ok(()),
        }
    }

    /// The state that the session is in.
    pub fn state(&self) -> (state: SessionState)
        ensures
            state == self@.state(),
    {
        match self.step {
            Step::Greeting
            | Step::LoginLength
            | Step::Login { .. }
            | Step::PasswordLength
            | Step::Password { .. } => SessionState::AwaitingMethodNegotiation,
            Step::DestinationRequest | Step::Connecting => SessionState::AwaitingDestinationRequest,
            Step::Relaying => SessionState::Relaying,
            Step::Closed => SessionState::Closed,
        }
    }

    /// Whether a message may start with `version` and `command`.
    pub fn check_client_version(&self, version: u8, command: u8) -> (accepted: bool)
        ensures
            accepted == version_accepted(version, command),
    {
        version == SOCKET_VERSION && command > 0
    }

    /// Reads a destination request: the address as text, and the port. An
    /// IPv4 address comes out in dotted decimal, an IPv6 address in its text
    /// form, a domain name as the UTF-8 text that it is.
    pub fn get_remote_addr_port(&self, message: &[u8]) -> (destination: Result<
        (String, u16),
        Sock5Error,
    >)
        ensures
            match requested_destination(message@) {
                Ok((address, port)) => destination matches Ok(found) && found.0@ == address
                    && found.1 == port,
                Err(error) => destination matches Err(found) && found == error,
            },
    {
        let len = message.len();
        if len < 2 || !self.check_client_version(message[0], message[1]) {
            return Err(Sock5Error::ProtocolVersion);
        }
        if len < 4 {
            return Err(Sock5Error::MalformedRequest);
        }
        let mut address = String::new();
        match Sock5AddressType::try_from(message[3]) {
            Err(_) => {
                return Err(Sock5Error::UnsupportedAddressType);
            },
            Ok(Sock5AddressType::IPv4) => {
                if len < 10 {
                    return Err(Sock5Error::MalformedRequest);
                }
                push_ipv4(&mut address, slice_subrange(message, 4, 8));
            },
            Ok(Sock5AddressType::IPv6) => {
                if len < 22 {
                    return Err(Sock5Error::MalformedRequest);
                }
                push_ipv6(&mut address, slice_subrange(message, 4, 20));
            },
            Ok(Sock5AddressType::DOMAIN) => {
                if len < 5 || len < 7 + message[4] as usize {
                    return Err(Sock5Error::MalformedRequest);
                }
                match utf8_text(slice_subrange(message, 5, 5 + message[4] as usize)) {
                    Some(name) => {
                        address = name.to_owned();
                    },
                    None => {
                        return Err(Sock5Error::MalformedRequest);
                    },
                }
            },
        }
        let port = message[len - 2] as u16 * 256 + message[len - 1] as u16;
        Ok((address, port))
    }

    /// What the driver has to do next.
    pub fn demand(&self) -> (demand: Demand)
        ensures
            demand@ == self@.demand(),
    {
        match self.step {
            Step::Greeting | Step::LoginLength => Demand::Read { len: 2 },
            Step::Login { len } => Demand::Read { len: len as usize },
            Step::PasswordLength => Demand::Read { len: 1 },
            Step::Password { len } => Demand::Read { len: len as usize },
            Step::DestinationRequest => Demand::ReadMessage { max_len: MAX_MESSAGE_LEN },
            Step::Connecting => Demand::Connect { address: self.address.clone(), port: self.port },
            Step::Relaying => Demand::Relay,
            Step::Closed => Demand::Close { result: self.result },
        }
    }

    /// Ends the session with `result`.
    fn close(&mut self, result: Result<(), Sock5Error>)
        ensures
            final(self)@ == (SessionModel::Closed { result }),
    {
        self.step = Step::Closed;
        self.result = result;
    }

    /// Takes the bytes of a read that method negotiation asked for, and
    /// returns what has to be sent to the client, which may be nothing.
    ///
    /// The greeting has to hold the protocol version and a method count that
    /// is not zero. Without authentication the session then waits for the
    /// destination request. Otherwise the client has to send its login and
    /// password, each behind its length, both UTF-8, and the store has to
    /// know the pair.
    pub fn select_method(&mut self, socks_config: &Auth, received: &[u8]) -> (reply: Vec<u8>)
        ensures
            final(self)@ == old(self)@.after_received(socks_config@, received@),
            reply@ == old(self)@.negotiation_reply(socks_config@, received@),
    {
        match self.step {
            Step::Greeting => {
                if received.len() != 2 || !self.check_client_version(received[0], received[1]) {
                    self.close(Err(Sock5Error::ProtocolVersion));
                    return Vec::new();
                }
                self.step =
                match socks_config.mode {
                    AuthMode::NoAuth => Step::DestinationRequest,
                    AuthMode::LoginPassword => Step::LoginLength,
                };
                return vec![SOCKET_VERSION, Sock5AuthMethods::for_mode(socks_config.mode).code()];
            },
            Step::LoginLength => {
                if received.len() != 2 {
                    self.close(Err(Sock5Error::MalformedCredentials));
                } else {
                    self.step = Step::Login { len: received[1] };
                }
            },
            Step::Login { len } => {
                if received.len() != len as usize {
                    self.close(Err(Sock5Error::MalformedCredentials));
                } else {
                    self.login = slice_to_vec(received);
                    self.step = Step::PasswordLength;
                }
            },
            Step::PasswordLength => {
                if received.len() != 1 {
                    self.close(Err(Sock5Error::MalformedCredentials));
                } else {
                    self.step = Step::Password { len: received[0] };
                }
            },
            Step::Password { len } => {
                if received.len() != len as usize {
                    self.close(Err(Sock5Error::MalformedCredentials));
                } else {
                    let granted = match (utf8_text(self.login.as_slice()), utf8_text(received)) {
                        (Some(login), Some(password)) => Some(
                            socks_config.check_auth(login.to_owned(), password.to_owned()),
                        ),
                        _ => None,
                    };
                    match granted {
                        Some(true) => {
                            self.step = Step::DestinationRequest;
                        },
                        Some(false) => {
                            self.close(Err(Sock5Error::AuthenticationDenied));
                        },
                        None => {
                            self.close(Err(Sock5Error::MalformedCredentials));
                        },
                    }
                }
            },
            _ => {},
        }
        Vec::new()
    }

    /// Takes what came of the driver's work after method negotiation, and
    /// returns what has to be sent to the client, which may be nothing.
    ///
    /// A destination request that can be read leads to a connection attempt.
    /// Once that has succeeded the client gets the reply that says so and the
    /// relay starts; once it has failed the client gets a reply with the
    /// failure's status and the session is over. The end of the relay ends
    /// the session.
    pub fn create_destination_connection(&mut self, event: Event) -> (reply: Vec<u8>)
        ensures
            final(self)@ == old(self)@.after_event(event),
            reply@ == old(self)@.event_reply(event),
    {
        match (self.step, event) {
            (Step::DestinationRequest, Event::Received(message)) => {
                match self.get_remote_addr_port(message) {
                    Ok((address, port)) => {
                        self.address = address;
                        self.port = port;
                        self.step = Step::Connecting;
                    },
                    Err(error) => {
                        self.close(Err(error));
                    },
                }
                Vec::new()
            },
            (Step::Connecting, Event::Connected) => {
                self.step = Step::Relaying;
                Sock5::reply_with_status(REPLY_SUCCEEDED)
            },
            (Step::Connecting, Event::ConnectFailed(failure)) => {
                self.close(Err(Sock5Error::DestinationUnreachable));
                Sock5::reply_with_status(failure.status())
            },
            (Step::Relaying, Event::RelayFinished(end)) => {
                self.close(end.outcome());
                Vec::new()
            },
            _ => Vec::new(),
        }
    }

    fn reply_with_status(status: u8) -> (reply: Vec<u8>)
        ensures
            reply@ == destination_reply(status),
    {
        vec![SOCKET_VERSION, status, 0x00, 0x01, 0x00, 0x00, 0x00, 0x00, 0x00, 0x00]
    }
}

} // verus!
