use rinf::message::{ByteEnvelope, RustOperation, RustRequest, RustResponse, RustResponseUnique, RustSignal};
use rinf::wire::{
    decode_bytes, decode_request, decode_request_unique, encode_request, encode_response,
    encode_response_unique, encode_signal, operation_code, operation_from_code, DecodeError,
    WireValue,
};

fn bin(b: &[u8]) -> WireValue {
    WireValue::Binary(b.to_vec())
}

fn text(s: &str) -> WireValue {
    WireValue::Text(s.to_string())
}

fn envelope_wire(payload: &[u8], binary: &[u8]) -> WireValue {
    WireValue::List(vec![bin(payload), bin(binary)])
}

fn request_wire(address: &str, code: i32) -> WireValue {
    WireValue::List(vec![text(address), WireValue::Int(code), envelope_wire(b"", b"")])
}

#[test]
fn operation_codes_map_in_order() {
    assert_eq!(operation_from_code(0), Ok(RustOperation::Create));
    assert_eq!(operation_from_code(1), Ok(RustOperation::Read));
    assert_eq!(operation_from_code(2), Ok(RustOperation::Update));
    assert_eq!(operation_from_code(3), Ok(RustOperation::Delete));
    assert_eq!(operation_code(RustOperation::Update), 2);
    assert_eq!(operation_code(RustOperation::Delete), 3);
}

#[test]
fn unknown_operation_code_is_refused() {
    assert_eq!(operation_from_code(4), Err(DecodeError::InvalidOperation(4)));
    assert_eq!(operation_from_code(-1), Err(DecodeError::InvalidOperation(-1)));
    assert_eq!(
        decode_request(request_wire("/x", 7)).err(),
        Some(DecodeError::InvalidOperation(7))
    );
}

#[test]
fn request_round_trip_users_1_read() {
    let request = RustRequest {
        address: "/users/1".to_string(),
        operation: RustOperation::Read,
        bytes: ByteEnvelope::new(vec![], vec![]),
    };
    let decoded = decode_request(encode_request(request)).unwrap();
    assert_eq!(decoded.address, "/users/1");
    assert_eq!(decoded.operation, RustOperation::Read);
    assert!(decoded.bytes.payload.is_empty());
    assert!(decoded.bytes.binary.is_empty());
}

#[test]
fn request_round_trip_keeps_bytes() {
    let request = RustRequest {
        address: "/files/9".to_string(),
        operation: RustOperation::Delete,
        bytes: ByteEnvelope::new(vec![1, 2, 3], vec![250, 0]),
    };
    let wire = encode_request(request);
    match &wire {
        WireValue::List(items) => {
            assert_eq!(items.len(), 3);
            assert!(matches!(items[1], WireValue::Int(3)));
        }
        _ => panic!("a request is written as a list"),
    }
    let decoded = decode_request(wire).unwrap();
    assert_eq!(decoded.address, "/files/9");
    assert_eq!(decoded.operation, RustOperation::Delete);
    assert_eq!(decoded.bytes.payload, vec![1, 2, 3]);
    assert_eq!(decoded.bytes.binary, vec![250, 0]);
}

#[test]
fn request_unique_is_decoded() {
    let wire = WireValue::List(vec![WireValue::Int(42), request_wire("/ping", 1)]);
    let envelope = decode_request_unique(wire).unwrap();
    assert_eq!(envelope.id, 42);
    assert_eq!(envelope.request.address, "/ping");
    assert_eq!(envelope.request.operation, RustOperation::Read);
}

#[test]
fn wrong_arity_is_refused() {
    let wire = WireValue::List(vec![text("/a"), WireValue::Int(0)]);
    assert_eq!(
        decode_request(wire).err(),
        Some(DecodeError::WrongArity { expected: 3, found: 2 })
    );
    let wire = WireValue::List(vec![WireValue::Int(1)]);
    assert_eq!(
        decode_request_unique(wire).err(),
        Some(DecodeError::WrongArity { expected: 2, found: 1 })
    );
}

#[test]
fn wrong_type_is_refused() {
    let wire = WireValue::List(vec![WireValue::Int(5), WireValue::Int(0), envelope_wire(b"", b"")]);
    assert_eq!(decode_request(wire).err(), Some(DecodeError::WrongType { position: 0 }));
    let wire = WireValue::List(vec![text("/a"), text("read"), envelope_wire(b"", b"")]);
    assert_eq!(decode_request(wire).err(), Some(DecodeError::WrongType { position: 1 }));
    let wire = WireValue::List(vec![text("id"), request_wire("/a", 0)]);
    assert_eq!(decode_request_unique(wire).err(), Some(DecodeError::WrongType { position: 0 }));
    let wire = WireValue::List(vec![bin(b"a"), WireValue::Null]);
    assert_eq!(decode_bytes(wire).err(), Some(DecodeError::WrongType { position: 1 }));
}

#[test]
fn non_list_is_refused() {
    assert_eq!(decode_request(WireValue::Null).err(), Some(DecodeError::NotAList));
    assert_eq!(decode_request_unique(text("x")).err(), Some(DecodeError::NotAList));
    assert_eq!(decode_bytes(WireValue::Bool(true)).err(), Some(DecodeError::NotAList));
}

#[test]
fn inner_fault_is_reported() {
    let inner = WireValue::List(vec![text("/a"), WireValue::Int(0), bin(b"x")]);
    let wire = WireValue::List(vec![WireValue::Int(1), inner]);
    assert_eq!(decode_request_unique(wire).err(), Some(DecodeError::NotAList));
}

#[test]
fn response_unique_is_written_positionally() {
    let response = RustResponseUnique {
        id: 42,
        response: RustResponse {
            successful: true,
            bytes: ByteEnvelope::new(b"pong".to_vec(), vec![9]),
        },
    };
    let mut items = match encode_response_unique(response) {
        WireValue::List(items) => items,
        _ => panic!("a response envelope is written as a list"),
    };
    assert_eq!(items.len(), 2);
    assert!(matches!(items[0], WireValue::Int(42)));
    let mut inner = match items.pop().unwrap() {
        WireValue::List(inner) => inner,
        _ => panic!("a response is written as a list"),
    };
    assert_eq!(inner.len(), 2);
    let bytes = decode_bytes(inner.pop().unwrap()).unwrap();
    assert!(matches!(inner[0], WireValue::Bool(true)));
    assert_eq!(bytes.payload, b"pong".to_vec());
    assert_eq!(bytes.binary, vec![9]);
}

#[test]
fn failed_response_is_written_with_false() {
    let response = RustResponse { successful: false, bytes: ByteEnvelope::new(vec![], vec![]) };
    match encode_response(response) {
        WireValue::List(items) => assert!(matches!(items[0], WireValue::Bool(false))),
        _ => panic!("a response is written as a list"),
    }
}

#[test]
fn signal_is_written_positionally() {
    let signal = RustSignal {
        address: "/ticks".to_string(),
        bytes: ByteEnvelope::new(vec![7], vec![8, 9]),
    };
    match encode_signal(signal) {
        WireValue::List(mut items) => {
            assert_eq!(items.len(), 2);
            let bytes = decode_bytes(items.pop().unwrap()).unwrap();
            assert_eq!(bytes.payload, vec![7]);
            assert_eq!(bytes.binary, vec![8, 9]);
            match &items[0] {
                WireValue::Text(a) => assert_eq!(a, "/ticks"),
                _ => panic!("the address is written as text"),
            }
        }
        _ => panic!("a signal is written as a list"),
    }
}
