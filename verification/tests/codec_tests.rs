use dynamixel::error::DynamixelError;
use dynamixel::protocol::v2::StatusPacket;
use dynamixel::protocol::{pack, unpack};

fn random_parameters() -> Vec<u8> {
    let size: u8 = rand::random();
    let mut data = Vec::new();
    for _ in 0..size {
        data.push(rand::random());
    }
    data
}

fn random_error() -> Option<u8> {
    let e: u8 = rand::random_range(0u8..8);
    match e {
        0 => None,
        e => Some(e),
    }
}

fn random_status_packet() -> StatusPacket {
    let id: u8 = rand::random();
    let parameters = random_parameters();
    let length = (parameters.len() + 4) as u16;
    let error_code = random_error();
    StatusPacket { id, length, error_code, parameters }
}

#[test]
fn unpack2pack() {
    let x: u16 = rand::random();
    let (l, h) = unpack(x);
    assert_eq!(x, pack(l, h));
}

#[test]
fn pack2unpack() {
    let l: u8 = rand::random();
    let h: u8 = rand::random();
    let x = pack(l, h);
    let (ll, hh) = unpack(x);
    assert_eq!(l, ll);
    assert_eq!(h, hh);
}

#[test]
fn parse_status_packet() {
    let bytes = [0xFF, 0xFF, 0xFD, 0x00, 42, 6, 0, 0x55, 0, 0, 23, 4, 242];
    let sp = StatusPacket::from_bytes(&bytes).unwrap();
    assert_eq!(sp.id, 42, "check id");
    assert_eq!(sp.length, pack(6, 0), "check length");
    assert_eq!(sp.parameters, vec![0, 23], "check parameters");
}

#[test]
fn parse_random_status_packet() {
    let mut rp = random_status_packet();
    rp.error_code = None;
    let bytes = rp.to_bytes();

    let sp = StatusPacket::from_bytes(&bytes).unwrap();
    assert_eq!(sp.id, rp.id, "check id");
    assert_eq!(sp.length, rp.length, "check length");
    assert!(sp.error_code.is_none(), "check error code");
    assert_eq!(sp.parameters, rp.parameters, "check parameters");
}

#[test]
fn status_error() {
    let error: u8 = rand::random();
    let error = if error == 0 { 1 } else { error };
    let rp = StatusPacket { id: 42, length: 6, error_code: Some(error), parameters: vec![0, 23] };
    let bytes = rp.to_bytes();
    let sp = StatusPacket::from_bytes(&bytes).unwrap();

    assert_eq!(sp.error_code, Some(error));
}

#[test]
fn error_descriptions_name_the_kind() {
    assert_eq!(DynamixelError::parsing_error().description(), "Dynamixel Error: Parsing");
    assert_eq!(
        DynamixelError::unsupported_register().description(),
        "Dynamixel Error: UnsupportedRegister"
    );
    assert_eq!(
        DynamixelError::status_error_code(4).description(),
        "Dynamixel Error: StatusError(4)"
    );
    assert_eq!(
        DynamixelError::status_error_code(32).description(),
        "Dynamixel Error: StatusError(32)"
    );
    assert_eq!(
        DynamixelError::status_error_code(147).description(),
        "Dynamixel Error: StatusError(147)"
    );
    assert_eq!(DynamixelError::invalid_checksum().description(), "Dynamixel Error: InvalidChecksum");
    assert_eq!(DynamixelError::timeout().description(), "Dynamixel Error: Timeout");
}
