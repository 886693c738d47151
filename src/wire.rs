use vstd::prelude::*;

use crate::message::{
    ByteEnvelope, BytesView, RequestUniqueView, RequestView, ResponseUniqueView, ResponseView,
    RustOperation, RustRequest, RustRequestUnique, RustResponse, RustResponseUnique, RustSignal,
    SignalView,
};

verus! {

/// Why a value from the host could not be read as a message.
#[derive(Clone, Copy, Debug, PartialEq, Eq, Structural)]
pub enum DecodeError {
    /// A list was expected and something else came.
    NotAList,
    /// A list came with the wrong number of elements.
    WrongArity { expected: usize, found: usize },
    /// The element at this position has the wrong kind.
    WrongType { position: usize },
    /// The operation code is none of the four known ones.
    InvalidOperation(i32),
}

/// The operation that a wire code stands for: 0 to 3, in the order
/// create, read, update, delete.
pub open spec fn operation_of_code(code: i32) -> Option<RustOperation> {
    if code == 0 {
        Some(RustOperation::Create)
    } else if code == 1 {
        Some(RustOperation::Read)
    } else if code == 2 {
        Some(RustOperation::Update)
    } else if code == 3 {
        Some(RustOperation::Delete)
    } else {
        None
    }
}

/// The wire code of an operation.
pub open spec fn code_of_operation(op: RustOperation) -> i32 {
    match op {
        RustOperation::Create => 0,
        RustOperation::Read => 1,
        RustOperation::Update => 2,
        RustOperation::Delete => 3,
    }
}

/// Reads an operation code; any code but 0 to 3 is refused.
pub fn operation_from_code(code: i32) -> (r: Result<RustOperation, DecodeError>)
    ensures
        match operation_of_code(code) {
            Some(op) => r == Ok::<RustOperation, DecodeError>(op),
            None => r == Err::<RustOperation, DecodeError>(DecodeError::InvalidOperation(code)),
        },
{
    match code {
        0 => Ok(RustOperation::Create),
        1 => Ok(RustOperation::Read),
        2 => Ok(RustOperation::Update),
        3 => Ok(RustOperation::Delete),
        _ => Err(DecodeError::InvalidOperation(code)),
    }
}

/// The wire code of an operation.
pub fn operation_code(op: RustOperation) -> (r: i32)
    ensures
        r == code_of_operation(op),
        operation_of_code(r) == Some(op),
{
    match op {
        RustOperation::Create => 0,
        RustOperation::Read => 1,
        RustOperation::Update => 2,
        RustOperation::Delete => 3,
    }
}


/// A value as the host hands it over or takes it back: messages travel as
/// positional lists of fixed length.
#[derive(Debug)]
pub enum WireValue {
    Null,
    Bool(bool),
    Int(i32),
    Text(String),
    Binary(Vec<u8>),
    List(Vec<WireValue>),
}

/// A byte envelope on the wire: `[payload, binary]`.
pub open spec fn bytes_of_wire(w: WireValue) -> Result<BytesView, DecodeError> {
    match w {
        WireValue::List(items) => {
            if items@.len() != 2 {
                Err(DecodeError::WrongArity { expected: 2, found: items@.len() as usize })
            } else {
                match items@[0] {
                    WireValue::Binary(p) => match items@[1] {
                        WireValue::Binary(b) => Ok(BytesView { payload: p@, binary: b@ }),
                        _ => Err(DecodeError::WrongType { position: 1 }),
                    },
                    _ => Err(DecodeError::WrongType { position: 0 }),
                }
            }
        },
        _ => Err(DecodeError::NotAList),
    }
}

/// A request on the wire: `[address, operation code, bytes]`.
pub open spec fn request_of_wire(w: WireValue) -> Result<RequestView, DecodeError> {
    match w {
        WireValue::List(items) => {
            if items@.len() != 3 {
                Err(DecodeError::WrongArity { expected: 3, found: items@.len() as usize })
            } else {
                match items@[0] {
                    WireValue::Text(a) => match items@[1] {
                        WireValue::Int(code) => match operation_of_code(code) {
                            Some(op) => match bytes_of_wire(items@[2]) {
                                Ok(b) => Ok(RequestView { address: a@, operation: op, bytes: b }),
                                Err(e) => Err(e),
                            },
                            None => Err(DecodeError::InvalidOperation(code)),
                        },
                        _ => Err(DecodeError::WrongType { position: 1 }),
                    },
                    _ => Err(DecodeError::WrongType { position: 0 }),
                }
            }
        },
        _ => Err(DecodeError::NotAList),
    }
}

/// A request envelope on the wire: `[id, request]`.
pub open spec fn request_unique_of_wire(w: WireValue) -> Result<RequestUniqueView, DecodeError> {
    match w {
        WireValue::List(items) => {
            if items@.len() != 2 {
                Err(DecodeError::WrongArity { expected: 2, found: items@.len() as usize })
            } else {
                match items@[0] {
                    WireValue::Int(id) => match request_of_wire(items@[1]) {
                        Ok(r) => Ok(RequestUniqueView { id, request: r }),
                        Err(e) => Err(e),
                    },
                    _ => Err(DecodeError::WrongType { position: 0 }),
                }
            }
        },
        _ => Err(DecodeError::NotAList),
    }
}

/// `w` is the list `[payload, binary]` of `v`.
pub open spec fn is_wire_of_bytes(w: WireValue, v: BytesView) -> bool {
    match w {
        WireValue::List(items) => items@.len() == 2 && match items@[0] {
            WireValue::Binary(p) => p@ == v.payload,
            _ => false,
        } && match items@[1] {
            WireValue::Binary(b) => b@ == v.binary,
            _ => false,
        },
        _ => false,
    }
}

/// `w` is the list `[address, operation code, bytes]` of `v`.
pub open spec fn is_wire_of_request(w: WireValue, v: RequestView) -> bool {
    match w {
        WireValue::List(items) => items@.len() == 3 && match items@[0] {
            WireValue::Text(a) => a@ == v.address,
            _ => false,
        } && items@[1] == WireValue::Int(code_of_operation(v.operation)) && is_wire_of_bytes(
            items@[2],
            v.bytes,
        ),
        _ => false,
    }
}

/// `w` is the list `[successful, bytes]` of `v`.
pub open spec fn is_wire_of_response(w: WireValue, v: ResponseView) -> bool {
    match w {
        WireValue::List(items) => items@.len() == 2 && items@[0] == WireValue::Bool(v.successful)
            && is_wire_of_bytes(items@[1], v.bytes),
        _ => false,
    }
}

/// `w` is the list `[id, response]` of `v`.
pub open spec fn is_wire_of_response_unique(w: WireValue, v: ResponseUniqueView) -> bool {
    match w {
        WireValue::List(items) => items@.len() == 2 && items@[0] == WireValue::Int(v.id)
            && is_wire_of_response(items@[1], v.response),
        _ => false,
    }
}

/// `w` is the list `[address, bytes]` of `v`.
pub open spec fn is_wire_of_signal(w: WireValue, v: SignalView) -> bool {
    match w {
        WireValue::List(items) => items@.len() == 2 && match items@[0] {
            WireValue::Text(a) => a@ == v.address,
            _ => false,
        } && is_wire_of_bytes(items@[1], v.bytes),
        _ => false,
    }
}

/// Reads a byte envelope, taking ownership of the buffers.
pub fn decode_bytes(w: WireValue) -> (r: Result<ByteEnvelope, DecodeError>)
    ensures
        match r {
            Ok(e) => bytes_of_wire(w) == Ok::<BytesView, DecodeError>(e@),
            Err(e) => bytes_of_wire(w) == Err::<BytesView, DecodeError>(e),
        },
{
    match w {
        WireValue::List(mut items) => {
            if items.len() != 2 {
                return Err(DecodeError::WrongArity { expected: 2, found: items.len() });
            }
            let second = items.pop().unwrap();
            let first = items.pop().unwrap();
            match first {
                WireValue::Binary(payload) => match second {
                    WireValue::Binary(binary) => Ok(ByteEnvelope { payload, binary }),
                    _ => Err(DecodeError::WrongType { position: 1 }),
                },
                _ => Err(DecodeError::WrongType { position: 0 }),
            }
        },
        _ => Err(DecodeError::NotAList),
    }
}


/// Reads a request: `[address, operation code, bytes]`. Each element is
/// checked in order and the first fault is reported.
pub fn decode_request(w: WireValue) -> (r: Result<RustRequest, DecodeError>)
    ensures
        match r {
            Ok(q) => request_of_wire(w) == Ok::<RequestView, DecodeError>(q@),
            Err(e) => request_of_wire(w) == Err::<RequestView, DecodeError>(e),
        },
{
    match w {
        WireValue::List(mut items) => {
            if items.len() != 3 {
                return Err(DecodeError::WrongArity { expected: 3, found: items.len() });
            }
            let third = items.pop().unwrap();
            let second = items.pop().unwrap();
            let first = items.pop().unwrap();
            let address = match first {
                WireValue::Text(a) => a,
                _ => return Err(DecodeError::WrongType { position: 0 }),
            };
            let operation = match second {
                WireValue::Int(code) => operation_from_code(code)?,
                _ => return Err(DecodeError::WrongType { position: 1 }),
            };
            let bytes = decode_bytes(third)?;
            Ok(RustRequest { address, operation, bytes })
        },
        _ => Err(DecodeError::NotAList),
    }
}

/// Reads a request envelope: `[id, request]`.
pub fn decode_request_unique(w: WireValue) -> (r: Result<RustRequestUnique, DecodeError>)
    ensures
        match r {
            Ok(q) => request_unique_of_wire(w) == Ok::<RequestUniqueView, DecodeError>(q@),
            Err(e) => request_unique_of_wire(w) == Err::<RequestUniqueView, DecodeError>(e),
        },
{
    match w {
        WireValue::List(mut items) => {
            if items.len() != 2 {
                return Err(DecodeError::WrongArity { expected: 2, found: items.len() });
            }
            let second = items.pop().unwrap();
            let first = items.pop().unwrap();
            let id = match first {
                WireValue::Int(id) => id,
                _ => return Err(DecodeError::WrongType { position: 0 }),
            };
            let request = decode_request(second)?;
            Ok(RustRequestUnique { id, request })
        },
        _ => Err(DecodeError::NotAList),
    }
}

/// Writes a byte envelope as `[payload, binary]`.
pub fn encode_bytes(e: ByteEnvelope) -> (w: WireValue)
    ensures
        is_wire_of_bytes(w, e@),
{
    WireValue::List(vec![WireValue::Binary(e.payload), WireValue::Binary(e.binary)])
}

/// Writes a request as `[address, operation code, bytes]`.
pub fn encode_request(q: RustRequest) -> (w: WireValue)
    ensures
        is_wire_of_request(w, q@),
{
    let code = operation_code(q.operation);
    WireValue::List(vec![WireValue::Text(q.address), WireValue::Int(code), encode_bytes(q.bytes)])
}

/// Writes a response as `[successful, bytes]`.
pub fn encode_response(p: RustResponse) -> (w: WireValue)
    ensures
        is_wire_of_response(w, p@),
{
    WireValue::List(vec![WireValue::Bool(p.successful), encode_bytes(p.bytes)])
}

/// Writes a response envelope as `[id, response]`.
pub fn encode_response_unique(p: RustResponseUnique) -> (w: WireValue)
    ensures
        is_wire_of_response_unique(w, p@),
{
    WireValue::List(vec![WireValue::Int(p.id), encode_response(p.response)])
}

/// Writes a signal as `[address, bytes]`.
pub fn encode_signal(s: RustSignal) -> (w: WireValue)
    ensures
        is_wire_of_signal(w, s@),
{
    WireValue::List(vec![WireValue::Text(s.address), encode_bytes(s.bytes)])
}

/// A request written to the wire reads back as the same request.
pub proof fn lemma_request_round_trip(w: WireValue, v: RequestView)
    requires
        is_wire_of_request(w, v),
    ensures
        request_of_wire(w) == Ok::<RequestView, DecodeError>(v),
{
    match w {
        WireValue::List(items) => {
            match items@[2] {
                WireValue::List(inner) => {
                    assert(bytes_of_wire(items@[2]) == Ok::<BytesView, DecodeError>(v.bytes));
                },
                _ => {},
            }
            assert(operation_of_code(code_of_operation(v.operation)) == Some(v.operation));
        },
        _ => {},
    }
}

} // verus!
