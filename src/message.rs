use vstd::prelude::*;

verus! {

/// What a request intends to do with the addressed resource.
#[derive(Clone, Copy, Debug, PartialEq, Eq, Structural)]
pub enum RustOperation {
    Create,
    Read,
    Update,
    Delete,
}

/// A payload together with an auxiliary binary blob that travels without
/// being encoded a second time.
#[derive(Clone, Debug)]
pub struct ByteEnvelope {
    pub payload: Vec<u8>,
    pub binary: Vec<u8>,
}

/// The contents of a byte envelope.
pub struct BytesView {
    pub payload: Seq<u8>,
    pub binary: Seq<u8>,
}

impl View for ByteEnvelope {
    type V = BytesView;

    open spec fn view(&self) -> BytesView {
        BytesView { payload: self.payload@, binary: self.binary@ }
    }
}

impl ByteEnvelope {
    /// An envelope that holds the given payload and blob unchanged.
    pub fn new(payload: Vec<u8>, binary: Vec<u8>) -> (r: ByteEnvelope)
        ensures
            r.payload@ == payload@,
            r.binary@ == binary@,
    {
        ByteEnvelope { payload, binary }
    }
}

/// A request from the host against an addressed resource.
#[derive(Clone, Debug)]
pub struct RustRequest {
    pub address: String,
    pub operation: RustOperation,
    pub bytes: ByteEnvelope,
}

pub struct RequestView {
    pub address: Seq<char>,
    pub operation: RustOperation,
    pub bytes: BytesView,
}

impl View for RustRequest {
    type V = RequestView;

    open spec fn view(&self) -> RequestView {
        RequestView { address: self.address@, operation: self.operation, bytes: self.bytes@ }
    }
}

/// A request tagged with the correlation id that its response will carry.
#[derive(Clone, Debug)]
pub struct RustRequestUnique {
    pub id: i32,
    pub request: RustRequest,
}

pub struct RequestUniqueView {
    pub id: i32,
    pub request: RequestView,
}

impl View for RustRequestUnique {
    type V = RequestUniqueView;

    open spec fn view(&self) -> RequestUniqueView {
        RequestUniqueView { id: self.id, request: self.request@ }
    }
}

/// The reply of the application logic to one request.
#[derive(Clone, Debug)]
pub struct RustResponse {
    pub successful: bool,
    pub bytes: ByteEnvelope,
}

pub struct ResponseView {
    pub successful: bool,
    pub bytes: BytesView,
}

impl View for RustResponse {
    type V = ResponseView;

    open spec fn view(&self) -> ResponseView {
        ResponseView { successful: self.successful, bytes: self.bytes@ }
    }
}

/// A response tagged with the id of the request it answers.
#[derive(Clone, Debug)]
pub struct RustResponseUnique {
    pub id: i32,
    pub response: RustResponse,
}

pub struct ResponseUniqueView {
    pub id: i32,
    pub response: ResponseView,
}

impl View for RustResponseUnique {
    type V = ResponseUniqueView;

    open spec fn view(&self) -> ResponseUniqueView {
        ResponseUniqueView { id: self.id, response: self.response@ }
    }
}

impl RustResponseUnique {
    /// The response to `request`: it carries the request's id.
    pub fn reply_to(request: &RustRequestUnique, response: RustResponse) -> (r: RustResponseUnique)
        ensures
            r.id == request.id,
            r.response == response,
    {
        RustResponseUnique { id: request.id, response }
    }
}

/// A message that the logic pushes to the host on its own account; it
/// answers no request.
#[derive(Clone, Debug)]
pub struct RustSignal {
    pub address: String,
    pub bytes: ByteEnvelope,
}

pub struct SignalView {
    pub address: Seq<char>,
    pub bytes: BytesView,
}

impl View for RustSignal {
    type V = SignalView;

    open spec fn view(&self) -> SignalView {
        SignalView { address: self.address@, bytes: self.bytes@ }
    }
}

/// A message from the host, decoded into `T`, with an optional custom blob
/// that skips encoding altogether.
pub struct DartSignal<T> {
    /// The decoded message.
    pub message: T,
    /// Bytes sent along with the message as they are.
    pub binary: Vec<u8>,
}

impl<T> DartSignal<T> {
    pub fn new(message: T, binary: Vec<u8>) -> (r: DartSignal<T>)
        ensures
            r.message == message,
            r.binary@ == binary@,
    {
        DartSignal { message, binary }
    }
}

} // verus!
