//! What holds of every session, proved over the model of [`Sock5`].

use crate::auth::{AuthMode, AuthModel};
use crate::socks5::{
    address_type, requested_destination, version_accepted, DemandModel, Event, SessionModel,
    SessionState, Sock5Error, MAX_MESSAGE_LEN, SOCKET_VERSION,
};
use crate::text::{ipv4_text, ipv6_text};
use vstd::prelude::*;
use vstd::utf8::{decode_utf8, valid_utf8};

verus! {

/// Whether a greeting is well-formed: the protocol version and a method count
/// that is not zero.
pub open spec fn greeting_accepted(greeting: Seq<u8>) -> bool {
    greeting.len() == 2 && version_accepted(greeting[0], greeting[1])
}

/// How far a session has come.
pub open spec fn progress(state: SessionState) -> nat {
    match state {
        SessionState::AwaitingMethodNegotiation => 0,
        SessionState::AwaitingDestinationRequest => 1,
        SessionState::Relaying => 2,
        SessionState::Closed => 3,
    }
}

/// Without authentication, the answer to every well-formed greeting is the
/// version and the method "no authentication required", and the session goes
/// on to the destination request.
pub proof fn law_no_auth_first_reply(store: AuthModel, greeting: Seq<u8>)
    requires
        store.mode == AuthMode::NoAuth,
        greeting_accepted(greeting),
    ensures
        SessionModel::Greeting.negotiation_reply(store, greeting) == seq![0x05u8, 0x00u8],
        SessionModel::Greeting.after_received(store, greeting) == SessionModel::DestinationRequest,
{
}

/// With authentication, the answer to every well-formed greeting is the
/// version and the method "username/password", and the session asks for the
/// two bytes in front of the login.
pub proof fn law_login_password_first_reply(store: AuthModel, greeting: Seq<u8>)
    requires
        store.mode == AuthMode::LoginPassword,
        greeting_accepted(greeting),
    ensures
        SessionModel::Greeting.negotiation_reply(store, greeting) == seq![0x05u8, 0x02u8],
        SessionModel::Greeting.after_received(store, greeting) == SessionModel::LoginLength,
{
}

/// A greeting that is not well-formed ends the session, and nothing is sent.
pub proof fn law_bad_greeting_ends_session(store: AuthModel, greeting: Seq<u8>)
    requires
        !greeting_accepted(greeting),
    ensures
        SessionModel::Greeting.negotiation_reply(store, greeting) == Seq::<u8>::empty(),
        SessionModel::Greeting.after_received(store, greeting) == SessionModel::failed(
            Sock5Error::ProtocolVersion,
        ),
{
}

/// With authentication, a client that sends a well-formed greeting and then a
/// login and password that the store holds passes negotiation: at each step
/// the session asks for exactly the bytes that come next, and in the end it
/// asks for the destination request. The first byte in front of the login
/// does not matter.
pub proof fn law_known_pair_passes(
    store: AuthModel,
    greeting: Seq<u8>,
    unused: u8,
    login: Seq<u8>,
    password: Seq<u8>,
)
    requires
        store.mode == AuthMode::LoginPassword,
        greeting_accepted(greeting),
        login.len() <= 255,
        password.len() <= 255,
        valid_utf8(login),
        valid_utf8(password),
        store.credentials.contains_pair(decode_utf8(login), decode_utf8(password)),
    ensures
        ({
            let greeted = SessionModel::Greeting.after_received(store, greeting);
            let sized = greeted.after_received(store, seq![unused, login.len() as u8]);
            let named = sized.after_received(store, login);
            let sized_again = named.after_received(store, seq![password.len() as u8]);
            let done = sized_again.after_received(store, password);
            &&& greeted.demand() == DemandModel::Read { len: 2 }
            &&& sized.demand() == DemandModel::Read { len: login.len() }
            &&& named.demand() == DemandModel::Read { len: 1 }
            &&& sized_again.demand() == DemandModel::Read { len: password.len() }
            &&& done == SessionModel::DestinationRequest
            &&& done.demand() == DemandModel::ReadMessage { max_len: 257 }
        }),
{
}

/// A store that asks for login and password turns away every pair that it
/// does not hold.
pub proof fn law_unknown_pair_denied(store: AuthModel, login: Seq<char>, password: Seq<char>)
    requires
        store.mode == AuthMode::LoginPassword,
        !store.credentials.contains_pair(login, password),
    ensures
        !store.authorizes(login, password),
{
}

/// With authentication, a session whose client sends a login and password
/// that the store does not hold is over once the password has come in: it
/// fails with "authentication denied", sends nothing, and asks for nothing but
/// to be closed.
pub proof fn law_unknown_pair_ends_session(store: AuthModel, login: Seq<u8>, password: Seq<u8>)
    requires
        store.mode == AuthMode::LoginPassword,
        password.len() <= 255,
        valid_utf8(login),
        valid_utf8(password),
        !store.credentials.contains_pair(decode_utf8(login), decode_utf8(password)),
    ensures
        ({
            let waiting = SessionModel::Password { login, len: password.len() as u8 };
            let after = waiting.after_received(store, password);
            &&& after == SessionModel::failed(Sock5Error::AuthenticationDenied)
            &&& after.demand() == DemandModel::Close {
                result: Err(Sock5Error::AuthenticationDenied),
            }
            &&& waiting.negotiation_reply(store, password) == Seq::<u8>::empty()
        }),
{
}

/// A destination request with an address type that is not known never leads
/// to a connection attempt: the session fails. Where the request starts with
/// the version and a command, it fails with "unsupported address type".
pub proof fn law_unknown_address_type_fails(message: &[u8])
    requires
        message@.len() >= 4,
        address_type(message@[3]) is None,
    ensures
        requested_destination(message@) is Err,
        SessionModel::DestinationRequest.after_event(Event::Received(message)) is Closed,
        version_accepted(message@[0], message@[1]) ==> {
            &&& requested_destination(message@) == Err::<(Seq<char>, u16), Sock5Error>(
                Sock5Error::UnsupportedAddressType,
            )
            &&& SessionModel::DestinationRequest.after_event(Event::Received(message))
                == SessionModel::failed(Sock5Error::UnsupportedAddressType)
        },
{
}

/// While a session negotiates the method, nothing that belongs to the
/// destination request moves it: no destination is read, connected to or
/// relayed to before negotiation has succeeded.
pub proof fn law_no_destination_before_negotiation(session: SessionModel, event: Event)
    requires
        session.state() == SessionState::AwaitingMethodNegotiation,
    ensures
        session.after_event(event) == session,
        session.event_reply(event) == Seq::<u8>::empty(),
{
}

/// Negotiation ends well in two ways only: a well-formed greeting to a store
/// without authentication, or a password that completes a pair that the store
/// authorizes.
pub proof fn law_negotiation_success(session: SessionModel, store: AuthModel, received: Seq<u8>)
    requires
        session.state() == SessionState::AwaitingMethodNegotiation,
        session.after_received(store, received).state()
            == SessionState::AwaitingDestinationRequest,
    ensures
        session.after_received(store, received) == SessionModel::DestinationRequest,
        match session {
            SessionModel::Greeting => store.mode == AuthMode::NoAuth && greeting_accepted(
                received,
            ),
            SessionModel::Password { login, len } => {
                &&& received.len() == len
                &&& valid_utf8(login)
                &&& valid_utf8(received)
                &&& store.authorizes(decode_utf8(login), decode_utf8(received))
            },
            _ => false,
        },
{
}

/// The relay starts only when the connection to the destination has
/// succeeded.
pub proof fn law_relay_only_after_connect(session: SessionModel, event: Event)
    requires
        !(session is Relaying),
        session.after_event(event) is Relaying,
    ensures
        session is Connecting,
        event is Connected,
{
}

/// A session never goes back: each step leaves it in its state or takes it
/// to a later one.
pub proof fn law_sessions_advance(
    session: SessionModel,
    store: AuthModel,
    received: Seq<u8>,
    event: Event,
)
    ensures
        progress(session.state()) <= progress(session.after_received(store, received).state()),
        progress(session.state()) <= progress(session.after_event(event).state()),
{
}

/// A closed session stays closed, with its outcome, and sends nothing more.
pub proof fn law_closed_is_final(
    session: SessionModel,
    store: AuthModel,
    received: Seq<u8>,
    event: Event,
)
    requires
        session is Closed,
    ensures
        session.after_received(store, received) == session,
        session.after_event(event) == session,
        session.negotiation_reply(store, received) == Seq::<u8>::empty(),
        session.event_reply(event) == Seq::<u8>::empty(),
{
}

/// Every failure closes the session at once: a step that leaves an error
/// leaves nothing for the driver to do but to close the sockets.
pub proof fn law_failure_closes(session: SessionModel)
    ensures
        session.demand() is Close <==> session is Closed,
        session is Closed ==> session.demand() == (DemandModel::Close {
            result: session->result,
        }),
{
}

/// No read is longer than the longest message: a buffer of that size serves
/// every read of a session.
pub proof fn law_reads_fit_one_buffer(session: SessionModel)
    ensures
        session.demand() matches DemandModel::Read { len } ==> len <= MAX_MESSAGE_LEN,
        session.demand() matches DemandModel::ReadMessage { max_len } ==> max_len
            == MAX_MESSAGE_LEN,
{
}

/// A destination request as a client builds it: the version, a command, the
/// reserved byte, the tag of the address type, the address, and the port,
/// high byte first.
pub open spec fn request_message(
    command: u8,
    reserved: u8,
    tag: u8,
    address: Seq<u8>,
    port: u16,
) -> Seq<u8> {
    seq![SOCKET_VERSION, command, reserved, tag] + address + seq![
        (port / 256) as u8,
        (port % 256) as u8,
    ]
}

/// A request for an IPv4 address resolves to that address in dotted decimal
/// and to its port, whatever the command (but zero) and the reserved byte.
pub proof fn law_ipv4_request_resolves(command: u8, reserved: u8, address: Seq<u8>, port: u16)
    requires
        command > 0,
        address.len() == 4,
    ensures
        requested_destination(request_message(command, reserved, 0x01, address, port)) == Ok::<
            (Seq<char>, u16),
            Sock5Error,
        >((ipv4_text(address), port)),
{
}

/// A request for an IPv6 address resolves to that address in its text form
/// and to its port.
pub proof fn law_ipv6_request_resolves(command: u8, reserved: u8, address: Seq<u8>, port: u16)
    requires
        command > 0,
        address.len() == 16,
    ensures
        requested_destination(request_message(command, reserved, 0x04, address, port)) == Ok::<
            (Seq<char>, u16),
            Sock5Error,
        >((ipv6_text(address), port)),
{
    let message = request_message(command, reserved, 0x04, address, port);
    assert(message.subrange(4, 20) =~= address);
}

/// A request for a domain name, sent as its length and its UTF-8 bytes,
/// resolves to that name and to its port.
pub proof fn law_domain_request_resolves(command: u8, reserved: u8, name: Seq<u8>, port: u16)
    requires
        command > 0,
        name.len() <= 255,
        valid_utf8(name),
    ensures
        requested_destination(
            request_message(command, reserved, 0x03, seq![name.len() as u8] + name, port),
        ) == Ok::<(Seq<char>, u16), Sock5Error>((decode_utf8(name), port)),
{
    let message = request_message(command, reserved, 0x03, seq![name.len() as u8] + name, port);
    assert(message.subrange(5, 5 + message[4]) =~= name);
}

} // verus!
