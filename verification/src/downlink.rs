//! Downlinks: data frames that the stack received, checked and decrypted.

use lorawan::parser;
use vstd::prelude::*;

verus! {

/// A decrypted data frame over some buffer.
#[verifier::external_type_specification]
#[verifier::external_body]
#[verifier::reject_recursive_types(T)]
pub struct ExDecryptedDataPayload<T>(parser::DecryptedDataPayload<T>);

/// A buffer of fixed capacity, in which the stack keeps a received frame.
#[verifier::external_type_specification]
#[verifier::external_body]
#[verifier::reject_recursive_types(T)]
pub struct ExFrameBuffer<T, const N: usize>(heapless::Vec<T, N>);

/// The bytes that a decrypted data frame holds (its `as_data_bytes`), from its header to its
/// integrity code.
pub uninterp spec fn frame_bytes(
    frame: parser::DecryptedDataPayload<heapless::Vec<u8, 256>>,
) -> Seq<u8>;

/// The payload of a data frame: data for the application, commands for the MAC layer, or neither.
#[derive(Debug, PartialEq, Eq)]
#[verifier::ext_equal]
pub enum FrmPayload<T> {
    Data(T),
    MacCommands,
    Empty,
}

impl FrmPayload<Vec<u8>> {
    /// The payload with its data as a sequence.
    pub open spec fn contents(self) -> FrmPayload<Seq<u8>> {
        match self {
            FrmPayload::Data(data) => FrmPayload::Data(data@),
            FrmPayload::MacCommands => FrmPayload::MacCommands,
            FrmPayload::Empty => FrmPayload::Empty,
        }
    }
}

/// The length of a frame's inner header: seven bytes, and as many options as the low half of the
/// control byte says.
pub open spec fn fhdr_length(frame: Seq<u8>) -> int {
    7 + frame[5] % 16
}

/// The payload that the bytes of a frame carry. A byte with the message type comes before the
/// inner header, and four bytes of integrity code come last. What lies between starts with the
/// port; port zero is the MAC layer's, once something follows it.
pub open spec fn payload_in(frame: Seq<u8>) -> FrmPayload<Seq<u8>> {
    let port = 1 + fhdr_length(frame);
    let end = frame.len() - 4;
    if end <= port {
        FrmPayload::Empty
    } else if end == port + 1 || frame[port] != 0 {
        FrmPayload::Data(frame.subrange(port + 1, end))
    } else {
        FrmPayload::MacCommands
    }
}

/// The bytes of a frame put together from its parts: the message type, the address of the device,
/// the control byte, the counter, the options, and the integrity code last. What is given as the
/// body stands between the options and the code.
pub open spec fn assembled(
    mtype: u8,
    address: Seq<u8>,
    control: u8,
    counter: Seq<u8>,
    options: Seq<u8>,
    body: Seq<u8>,
    code: Seq<u8>,
) -> Seq<u8> {
    seq![mtype] + address + seq![control] + counter + options + body + code
}

/// Whatever a frame is put together from, its payload is what was put in: data behind a port comes
/// out as it went in, whatever the data, the port and the options; commands behind port zero are
/// told from data; and a frame without a port has no payload.
pub proof fn law_payload_is_what_was_put_in(
    mtype: u8,
    address: Seq<u8>,
    control: u8,
    counter: Seq<u8>,
    options: Seq<u8>,
    port: u8,
    data: Seq<u8>,
    code: Seq<u8>,
)
    requires
        address.len() == 4,
        counter.len() == 2,
        options.len() == control % 16,
        code.len() == 4,
    ensures
        payload_in(assembled(mtype, address, control, counter, options, Seq::empty(), code))
            is Empty,
        ({
            let payload = payload_in(
                assembled(mtype, address, control, counter, options, seq![port] + data, code),
            );
            if port == 0 && data.len() > 0 {
                payload is MacCommands
            } else {
                payload == FrmPayload::Data(data)
            }
        }),
{
    let bare = assembled(mtype, address, control, counter, options, Seq::empty(), code);
    assert(bare[5] == control);
    assert(bare.len() == 12 + options.len());
    let frame = assembled(mtype, address, control, counter, options, seq![port] + data, code);
    let start: int = 8 + options.len() as int;
    assert(frame[5] == control);
    assert(frame.len() == 13 + options.len() + data.len());
    assert(frame[start] == port);
    assert(frame.subrange(start + 1, frame.len() - 4) =~= data);
}

/// Reading a payload as a sequence changes neither its kind nor a byte of its data.
pub proof fn law_contents_are_the_payloads(payload: FrmPayload<Vec<u8>>)
    ensures
        payload is MacCommands <==> payload.contents() is MacCommands,
        payload is Empty <==> payload.contents() is Empty,
        payload is Data <==> payload.contents() is Data,
        payload matches FrmPayload::Data(bytes) ==> payload.contents()->Data_0 == bytes@,
{
}

/// Calls `lorawan::parser::DecryptedDataPayload::frm_payload`. It never fails: every decrypted
/// frame has the twelve bytes of the shortest one, and the payload is read off the bytes as
/// `payload_in` says. A frame fits its buffer of 256 bytes, of which the header, the port and the
/// integrity code take at least thirteen.
#[verifier::external_body]
fn frm_payload(
    frame: &parser::DecryptedDataPayload<heapless::Vec<u8, 256>>,
) -> (payload: Result<FrmPayload<Vec<u8>>, ()>)
    ensures
        payload is Ok,
        payload->Ok_0.contents() == payload_in(frame_bytes(*frame)),
        payload matches Ok(FrmPayload::Data(data)) ==> data@.len() <= 243,
{
    match frame.frm_payload() {
        Ok(parser::FRMPayload::Data(data)) => Ok(FrmPayload::Data(data.to_vec())),
        Ok(parser::FRMPayload::MACCommands(_)) => Ok(FrmPayload::MacCommands),
        Ok(parser::FRMPayload::None) => Ok(FrmPayload::Empty),
        Err(_) => Err(()),
    }
}

/// A downlink that the stack hands out.
pub struct Downlink {
    frame: parser::DecryptedDataPayload<heapless::Vec<u8, 256>>,
}

impl View for Downlink {
    type V = Seq<u8>;

    /// The bytes of the frame.
    closed spec fn view(&self) -> Seq<u8> {
        frame_bytes(self.frame)
    }
}

impl Downlink {
    /// The downlink that a frame of the stack is.
    pub fn new(
        frame: parser::DecryptedDataPayload<heapless::Vec<u8, 256>>,
    ) -> (downlink: Downlink)
        ensures
            downlink@ == frame_bytes(frame),
    {
        Downlink { frame }
    }

    /// The payload of the frame. Reading it does not fail for any frame, and its data is at most
    /// 243 bytes long.
    pub fn payload(&self) -> (payload: Result<FrmPayload<Vec<u8>>, ()>)
        ensures
            payload is Ok,
            payload->Ok_0.contents() == payload_in(self@),
            payload matches Ok(FrmPayload::Data(data)) ==> data@.len() <= 243,
    {
        frm_payload(&self.frame)
    }
}

} // verus!
