use socks5_proxy::socks5::{
    ConnectFailure, RelayEnd, Sock5, Sock5AddressType, Sock5AuthMethods, Sock5Error,
    MAX_MESSAGE_LEN, REPLY_SUCCEEDED, SOCKET_VERSION,
};

fn resolve(message: &[u8]) -> Result<(String, u16), Sock5Error> {
    Sock5::new().get_remote_addr_port(message)
}

fn request(address_type: u8, address: &[u8], port: u16) -> Vec<u8> {
    let mut message = vec![0x05, 0x01, 0x00, address_type];
    message.extend_from_slice(address);
    message.extend_from_slice(&port.to_be_bytes());
    message
}

fn domain(name: &[u8]) -> Vec<u8> {
    let mut address = vec![name.len() as u8];
    address.extend_from_slice(name);
    address
}

#[test]
fn protocol_constants() {
    assert_eq!(SOCKET_VERSION, 0x05);
    assert_eq!(MAX_MESSAGE_LEN, 257);
    assert_eq!(REPLY_SUCCEEDED, 0x00);
    assert_eq!(Sock5AuthMethods::NoAuth.code(), 0x00);
    assert_eq!(Sock5AuthMethods::UserPassword.code(), 0x02);
    assert_eq!(ConnectFailure::General.status(), 0x01);
    assert_eq!(ConnectFailure::HostUnreachable.status(), 0x04);
    assert_eq!(ConnectFailure::ConnectionRefused.status(), 0x05);
}

#[test]
fn relay_end_decides_the_outcome() {
    assert_eq!(RelayEnd::Completed.outcome(), Ok(()));
    assert_eq!(RelayEnd::NotConnected.outcome(), Ok(()));
    assert_eq!(RelayEnd::Failed.outcome(), Err(Sock5Error::RelayIo));
}

#[test]
fn address_type_tags() {
    assert_eq!(Sock5AddressType::try_from(0x01), Ok(Sock5AddressType::IPv4));
    assert_eq!(Sock5AddressType::try_from(0x03), Ok(Sock5AddressType::DOMAIN));
    assert_eq!(Sock5AddressType::try_from(0x04), Ok(Sock5AddressType::IPv6));
    for tag in 0..=255u8 {
        if tag != 0x01 && tag != 0x03 && tag != 0x04 {
            assert_eq!(Sock5AddressType::try_from(tag), Err(()));
        }
    }
}

#[test]
fn client_version_check() {
    let session = Sock5::new();
    assert!(session.check_client_version(5, 1));
    assert!(session.check_client_version(5, 255));
    assert!(!session.check_client_version(5, 0));
    assert!(!session.check_client_version(4, 1));
    assert!(!session.check_client_version(0, 0));
    assert!(!session.check_client_version(6, 3));
}

#[test]
fn ipv4_request_resolves_to_dotted_decimal_and_port() {
    let message = [0x05, 0x01, 0x00, 0x01, 93, 184, 216, 34, 0x00, 0x50];
    let (address, port) = resolve(&message).expect("a well-formed request");
    assert_eq!(address, "93.184.216.34");
    assert_eq!(port, 80);
    assert_eq!(format!("{}:{}", address, port), "93.184.216.34:80");
}

#[test]
fn domain_request_resolves_to_name_and_port() {
    let message = request(0x03, &domain(b"localhost"), 8080);
    assert_eq!(message[4], 9);
    let (address, port) = resolve(&message).expect("a well-formed request");
    assert_eq!(address, "localhost");
    assert_eq!(port, 8080);
    assert_eq!(format!("{}:{}", address, port), "localhost:8080");
}

#[test]
fn ipv6_request_resolves_to_text_form_and_port() {
    let mut address = [0u8; 16];
    address[15] = 1;
    let (text, port) = resolve(&request(0x04, &address, 443)).expect("a well-formed request");
    assert_eq!(text, "::1");
    assert_eq!(port, 443);
    let address = [0x20, 0x01, 0x0d, 0xb8, 0, 0, 0, 0, 0, 0, 0, 0, 0, 0, 0xab, 0xcd];
    assert_eq!(resolve(&request(0x04, &address, 1)), Ok(("2001:db8::abcd".to_string(), 1)));
}

#[test]
fn unsupported_address_type_fails() {
    for tag in [0x00u8, 0x02, 0x05, 0x7f, 0xff] {
        let message = request(tag, &[93, 184, 216, 34], 80);
        assert_eq!(resolve(&message), Err(Sock5Error::UnsupportedAddressType));
    }
    assert_eq!(resolve(&[0x05, 0x01, 0x00, 0x02]), Err(Sock5Error::UnsupportedAddressType));
    assert_eq!(resolve(&[0x05, 0x01, 0x00, 0x02, 0x00]), Err(Sock5Error::UnsupportedAddressType));
}

#[test]
fn request_has_to_start_with_version_and_command() {
    assert_eq!(resolve(&[]), Err(Sock5Error::ProtocolVersion));
    assert_eq!(resolve(&[0x05]), Err(Sock5Error::ProtocolVersion));
    let mut message = request(0x01, &[127, 0, 0, 1], 80);
    message[0] = 0x04;
    assert_eq!(resolve(&message), Err(Sock5Error::ProtocolVersion));
    let mut message = request(0x01, &[127, 0, 0, 1], 80);
    message[1] = 0x00;
    assert_eq!(resolve(&message), Err(Sock5Error::ProtocolVersion));
    let mut message = request(0x02, &[127, 0, 0, 1], 80);
    message[0] = 0x00;
    assert_eq!(resolve(&message), Err(Sock5Error::ProtocolVersion));
}

#[test]
fn any_command_but_zero_is_taken() {
    for command in 1..=255u8 {
        let mut message = request(0x01, &[10, 1, 2, 3], 22);
        message[1] = command;
        assert_eq!(resolve(&message), Ok(("10.1.2.3".to_string(), 22)));
    }
}

#[test]
fn reserved_byte_is_not_read() {
    let mut message = request(0x01, &[10, 1, 2, 3], 22);
    message[2] = 0xff;
    assert_eq!(resolve(&message), Ok(("10.1.2.3".to_string(), 22)));
}

#[test]
fn request_cut_short_is_malformed() {
    assert_eq!(resolve(&[0x05, 0x01]), Err(Sock5Error::MalformedRequest));
    assert_eq!(resolve(&[0x05, 0x01, 0x00]), Err(Sock5Error::MalformedRequest));
    let ipv4 = request(0x01, &[127, 0, 0, 1], 80);
    for len in 4..ipv4.len() {
        assert_eq!(resolve(&ipv4[..len]), Err(Sock5Error::MalformedRequest));
    }
    let ipv6 = request(0x04, &[0; 16], 80);
    for len in 4..ipv6.len() {
        assert_eq!(resolve(&ipv6[..len]), Err(Sock5Error::MalformedRequest));
    }
    let named = request(0x03, &domain(b"example.org"), 80);
    for len in 4..named.len() {
        assert_eq!(resolve(&named[..len]), Err(Sock5Error::MalformedRequest));
    }
}

#[test]
fn domain_that_is_not_utf8_is_malformed() {
    assert_eq!(resolve(&request(0x03, &domain(&[0xff, 0xfe]), 80)), Err(Sock5Error::MalformedRequest));
    assert_eq!(resolve(&request(0x03, &domain(&[b'a', 0x80]), 80)), Err(Sock5Error::MalformedRequest));
    assert_eq!(resolve(&request(0x03, &domain(&[0xc3]), 80)), Err(Sock5Error::MalformedRequest));
    assert_eq!(resolve(&request(0x03, &domain(&[0xed, 0xa0, 0x80]), 80)), Err(Sock5Error::MalformedRequest));
}

#[test]
fn domain_outside_ascii_is_decoded() {
    let name = "bücher.example";
    assert_eq!(resolve(&request(0x03, &domain(name.as_bytes()), 80)), Ok((name.to_string(), 80)));
    let name = "例え.テスト";
    assert_eq!(resolve(&request(0x03, &domain(name.as_bytes()), 80)), Ok((name.to_string(), 80)));
}

#[test]
fn empty_domain_is_taken_as_it_is() {
    assert_eq!(resolve(&[0x05, 0x01, 0x00, 0x03, 0x00, 0x00, 0x50]), Ok((String::new(), 80)));
}

#[test]
fn longest_domain_of_a_message() {
    let name = vec![b'a'; 250];
    let message = request(0x03, &domain(&name), 65535);
    assert_eq!(message.len(), MAX_MESSAGE_LEN);
    let (address, port) = resolve(&message).expect("a well-formed request");
    assert_eq!(address.as_bytes(), name);
    assert_eq!(port, 65535);
    let name = vec![b'b'; 255];
    let (address, port) = resolve(&request(0x03, &domain(&name), 1)).expect("a well-formed request");
    assert_eq!(address.as_bytes(), name);
    assert_eq!(port, 1);
}

#[test]
fn port_is_big_endian() {
    assert_eq!(resolve(&[5, 1, 0, 1, 1, 2, 3, 4, 0x00, 0x00]), Ok(("1.2.3.4".to_string(), 0)));
    assert_eq!(resolve(&[5, 1, 0, 1, 1, 2, 3, 4, 0x00, 0x01]), Ok(("1.2.3.4".to_string(), 1)));
    assert_eq!(resolve(&[5, 1, 0, 1, 1, 2, 3, 4, 0x01, 0x00]), Ok(("1.2.3.4".to_string(), 256)));
    assert_eq!(resolve(&[5, 1, 0, 1, 1, 2, 3, 4, 0x01, 0xbb]), Ok(("1.2.3.4".to_string(), 443)));
    assert_eq!(resolve(&[5, 1, 0, 1, 1, 2, 3, 4, 0xff, 0xff]), Ok(("1.2.3.4".to_string(), 65535)));
}

#[test]
fn port_is_read_from_the_end_of_the_message() {
    let message = [5, 1, 0, 1, 1, 2, 3, 4, 0x00, 0x50, 0x1f, 0x90];
    assert_eq!(resolve(&message), Ok(("1.2.3.4".to_string(), 8080)));
    let mut message = request(0x03, &domain(b"localhost"), 80);
    message.extend_from_slice(&[0x00, 0x00, 0x01, 0xbb]);
    assert_eq!(resolve(&message), Ok(("localhost".to_string(), 443)));
}
