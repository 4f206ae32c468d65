use vpn_gateway::forward::ForwardRequest;
use vpn_gateway::gateway::{handle_packet, PacketOutcome};
use vpn_gateway::ipv4::{decode, DecodeError, Ipv4Address};
use vpn_gateway::tcp::{extract, ExtractError};

fn tcp_datagram(destination: [u8; 4], destination_port: u16, protocol: u8, extra: &[u8]) -> Vec<u8> {
    let total: usize = 40 + extra.len();
    let mut bytes: Vec<u8> = vec![0u8; 40];
    bytes[0] = 0x45;
    bytes[2] = (total >> 8) as u8;
    bytes[3] = (total & 0xFF) as u8;
    bytes[8] = 64;
    bytes[9] = protocol;
    bytes[12] = 10;
    bytes[13] = 8;
    bytes[14] = 0;
    bytes[15] = 2;
    bytes[16] = destination[0];
    bytes[17] = destination[1];
    bytes[18] = destination[2];
    bytes[19] = destination[3];
    bytes[20] = 0xD4;
    bytes[21] = 0x31;
    bytes[22] = (destination_port >> 8) as u8;
    bytes[23] = (destination_port & 0xFF) as u8;
    bytes[32] = 0x50;
    bytes[33] = 0x02;
    bytes.extend_from_slice(extra);
    bytes
}

#[test]
fn tcp_datagram_is_forwarded_to_its_destination() {
    let bytes: Vec<u8> = tcp_datagram([127, 0, 0, 1], 80, 6, &[]);
    match handle_packet(&bytes) {
        PacketOutcome::Forward(datagram, request) => {
            assert_eq!(datagram, decode(&bytes).unwrap());
            assert_eq!(
                request,
                ForwardRequest {
                    destination_address: Ipv4Address { a: 127, b: 0, c: 0, d: 1 },
                    destination_port: 80,
                    payload: bytes[20..40].to_vec(),
                }
            );
        }
        other => panic!("not forwarded: {:?}", other),
    }
}

#[test]
fn forwarded_payload_is_the_whole_segment() {
    let bytes: Vec<u8> = tcp_datagram([1, 2, 3, 4], 8443, 6, b"hello");
    match handle_packet(&bytes) {
        PacketOutcome::Forward(datagram, request) => {
            assert_eq!(datagram.total_length, 45);
            assert_eq!(request.destination_port, 8443);
            assert_eq!(request.payload.len(), 25);
            assert_eq!(&request.payload[..20], &bytes[20..40]);
            assert_eq!(&request.payload[20..], b"hello");
            assert_eq!(request.payload.as_slice(), datagram.payload);
        }
        other => panic!("not forwarded: {:?}", other),
    }
}

#[test]
fn bare_tcp_header_without_segment_is_dropped() {
    let mut bytes: Vec<u8> = vec![0u8; 20];
    bytes[0] = 0x45;
    bytes[3] = 20;
    bytes[9] = 6;
    let datagram = decode(&bytes).unwrap();
    assert_eq!(datagram.version, 4);
    assert_eq!(datagram.header_length_bytes, 20);
    assert_eq!(datagram.total_length, 20);
    assert_eq!(datagram.protocol, 6);
    assert_eq!(datagram.payload.len(), 0);
    assert_eq!(
        extract(datagram.protocol, datagram.payload),
        Err(ExtractError::NotTcpOrTooShort)
    );
    assert_eq!(handle_packet(&bytes), PacketOutcome::Dropped(datagram));
}

#[test]
fn tcp_payload_of_nineteen_bytes_is_dropped() {
    let mut bytes: Vec<u8> = tcp_datagram([9, 9, 9, 9], 80, 6, &[]);
    bytes.truncate(39);
    bytes[3] = 39;
    let datagram = decode(&bytes).unwrap();
    assert_eq!(datagram.payload.len(), 19);
    assert_eq!(handle_packet(&bytes), PacketOutcome::Dropped(datagram));
}

#[test]
fn udp_datagram_is_dropped() {
    let bytes: Vec<u8> = tcp_datagram([8, 8, 8, 8], 53, 17, &[]);
    let datagram = decode(&bytes).unwrap();
    assert_eq!(datagram.protocol, 17);
    assert_eq!(handle_packet(&bytes), PacketOutcome::Dropped(datagram));
}

#[test]
fn no_other_protocol_is_forwarded() {
    let mut protocol: u8 = 0;
    loop {
        let bytes: Vec<u8> = tcp_datagram([8, 8, 8, 8], 80, protocol, &[1, 2, 3]);
        let forwarded: bool = matches!(handle_packet(&bytes), PacketOutcome::Forward(_, _));
        assert_eq!(forwarded, protocol == 6);
        if protocol == 255 {
            break;
        }
        protocol += 1;
    }
}

#[test]
fn rejected_chunk_keeps_the_decoders_reason() {
    let short: Vec<u8> = vec![0x45, 0, 0, 20];
    assert_eq!(handle_packet(&short), PacketOutcome::Rejected(DecodeError::TooShort));

    let mut other_version: Vec<u8> = tcp_datagram([1, 1, 1, 1], 80, 6, &[]);
    other_version[0] = 0x65;
    assert_eq!(
        handle_packet(&other_version),
        PacketOutcome::Rejected(DecodeError::UnsupportedVersion(6))
    );

    let mut short_header: Vec<u8> = tcp_datagram([1, 1, 1, 1], 80, 6, &[]);
    short_header[0] = 0x42;
    assert_eq!(
        handle_packet(&short_header),
        PacketOutcome::Rejected(DecodeError::InvalidHeaderLength)
    );

    let mut truncated: Vec<u8> = tcp_datagram([1, 1, 1, 1], 80, 6, &[]);
    truncated[2] = 0x05;
    truncated[3] = 0xDC;
    assert_eq!(
        handle_packet(&truncated),
        PacketOutcome::Rejected(DecodeError::Truncated { have: 40, want: 1500 })
    );
}

#[test]
fn only_the_first_datagram_of_a_chunk_is_handled() {
    let first: Vec<u8> = tcp_datagram([10, 0, 0, 1], 80, 6, &[]);
    let second: Vec<u8> = tcp_datagram([10, 0, 0, 2], 443, 6, &[]);
    let mut both: Vec<u8> = first.clone();
    both.extend_from_slice(&second);
    match handle_packet(&both) {
        PacketOutcome::Forward(datagram, request) => {
            assert_eq!(datagram.total_length, 40);
            assert_eq!(request.destination_address, Ipv4Address { a: 10, b: 0, c: 0, d: 1 });
            assert_eq!(request.destination_port, 80);
            assert_eq!(request.payload, first[20..].to_vec());
        }
        other => panic!("not forwarded: {:?}", other),
    }
    assert_eq!(handle_packet(&both), handle_packet(&first));
}

#[test]
fn options_are_not_part_of_the_segment() {
    let mut bytes: Vec<u8> = vec![0u8; 24];
    bytes[0] = 0x46;
    bytes[3] = 44;
    bytes[9] = 6;
    bytes[16] = 172;
    bytes[17] = 16;
    bytes[18] = 0;
    bytes[19] = 9;
    bytes[20] = 0xEE;
    bytes[21] = 0xEE;
    bytes[22] = 0xEE;
    bytes[23] = 0xEE;
    let mut segment: Vec<u8> = vec![0u8; 20];
    segment[2] = 0x00;
    segment[3] = 0x16;
    bytes.extend_from_slice(&segment);
    match handle_packet(&bytes) {
        PacketOutcome::Forward(_, request) => {
            assert_eq!(request.destination_address, Ipv4Address { a: 172, b: 16, c: 0, d: 9 });
            assert_eq!(request.destination_port, 22);
            assert_eq!(request.payload, segment);
        }
        other => panic!("not forwarded: {:?}", other),
    }
}

#[test]
fn each_datagram_gets_a_request_of_its_own() {
    let mut requests: Vec<ForwardRequest> = Vec::new();
    let mut last: u8 = 1;
    while last <= 5 {
        let port: u16 = 8000 + last as u16;
        let bytes: Vec<u8> = tcp_datagram([10, 1, 1, last], port, 6, &[last]);
        match handle_packet(&bytes) {
            PacketOutcome::Forward(_, request) => requests.push(request),
            other => panic!("not forwarded: {:?}", other),
        }
        last += 1;
    }
    assert_eq!(requests.len(), 5);
    let mut index: usize = 0;
    while index < 5 {
        let last_octet: u8 = index as u8 + 1;
        assert_eq!(
            requests[index].destination_address,
            Ipv4Address { a: 10, b: 1, c: 1, d: last_octet }
        );
        assert_eq!(requests[index].destination_port, 8001 + index as u16);
        assert_eq!(requests[index].payload.len(), 21);
        assert_eq!(requests[index].payload[20], last_octet);
        index += 1;
    }
}
