//! Protocol constants and the recognition of message headers.

use crate::utils::{checksum_spec, lemma_byte_sum_update};
use vstd::prelude::*;

verus! {

/// Identifier of the service that carries the protocol.
pub const SERVICE_UUID: &'static str = "0000ffe0-0000-1000-8000-00805f9b34fb";

/// Identifier of the characteristic that requests are written to and that
/// notifies the responses.
pub const CHARACTERISTIC_UUID: &'static str = "0000ffe1-0000-1000-8000-00805f9b34fb";

/// The bytes that open every frame sent by the host.
pub const REQUEST_HEADER: [u8; 4] = [0xAA, 0x55, 0x90, 0xEB];

/// The bytes that open every frame sent by the device.
pub const RESPONSE_HEADER: [u8; 4] = [0x55, 0xAA, 0xEB, 0x90];

/// Number of bytes in a header, the same in both directions.
pub const HEADER_LEN: usize = 4;

/// Command that asks for the cell data record.
pub const CMD_CELL_DATA: u8 = 0x96;

/// Command that asks for the device information record.
pub const CMD_DEVICE_INFO: u8 = 0x97;

/// Record type of a response that carries cell data.
pub const RECORD_TYPE_CELL_DATA: u8 = 0x02;

/// Record type of a response that carries device information.
pub const RECORD_TYPE_DEVICE_INFO: u8 = 0x03;

/// What a header says of the direction of a message.
#[derive(Clone, Copy, Debug, PartialEq, Eq, Structural)]
pub enum MessageType {
    /// A frame sent by the host.
    Request,
    /// A frame sent by the device.
    Response,
}

/// What the first bytes of a span tell of it.
#[derive(Clone, Copy, Debug, PartialEq, Eq)]
pub enum Classification {
    /// The span is shorter than a header: nothing can be told yet.
    TooShort,
    /// The span is as long as a header and does not open with the response
    /// header.
    NotResponse,
    /// The span opens with the response header. The record type is the byte
    /// behind the header, once the span holds it.
    Response { record_type: Option<u8> },
}

/// The request header as a sequence of bytes.
pub open spec fn request_header() -> Seq<u8> {
    REQUEST_HEADER@
}

/// The response header as a sequence of bytes.
pub open spec fn response_header() -> Seq<u8> {
    RESPONSE_HEADER@
}

/// The frame that asks for `command_code`: the request header, the command,
/// and the checksum of the two.
pub open spec fn request_frame(command_code: u8) -> Seq<u8> {
    let unsigned = request_header().push(command_code);
    unsigned.push(checksum_spec(None, unsigned))
}

/// The frame is long enough to hold a header and a checksum, and its last
/// byte is the checksum of all the bytes before it.
pub open spec fn valid_response(data: Seq<u8>) -> bool {
    data.len() >= HEADER_LEN + 1 && checksum_spec(None, data.drop_last()) == data.last()
}

/// Every request frame carries a checksum that validates.
pub proof fn lemma_request_frame_validates(command_code: u8)
    ensures
        valid_response(request_frame(command_code)),
{
    let unsigned = request_header().push(command_code);
    assert(request_frame(command_code).drop_last() =~= unsigned);
}

/// A span too short to hold a header and a checksum never validates.
pub proof fn lemma_short_span_is_invalid(data: Seq<u8>)
    requires
        data.len() < HEADER_LEN + 1,
    ensures
        !valid_response(data),
{
}

/// Changing any single byte of a frame that validates, the checksum byte
/// included, gives a frame that does not.
pub proof fn lemma_single_byte_change_is_detected(frame: Seq<u8>, at: int, byte: u8)
    requires
        valid_response(frame),
        0 <= at < frame.len(),
        byte != frame[at],
    ensures
        !valid_response(frame.update(at, byte)),
{
    let changed = frame.update(at, byte);
    if at == frame.len() - 1 {
        assert(changed.drop_last() =~= frame.drop_last());
    } else {
        assert(changed.drop_last() =~= frame.drop_last().update(at, byte));
        lemma_byte_sum_update(frame.drop_last(), at, byte);
    }
}

/// The four bytes of `data` from offset `at` on are those of `header`.
pub open spec fn header_at(data: Seq<u8>, at: int, header: Seq<u8>) -> bool {
    &&& 0 <= at
    &&& at + HEADER_LEN <= data.len()
    &&& data[at] == header[0]
    &&& data[at + 1] == header[1]
    &&& data[at + 2] == header[2]
    &&& data[at + 3] == header[3]
}

/// A message starts at offset `at` of `data`: one of the two headers
/// stands there.
pub open spec fn starts_message(data: Seq<u8>, at: int) -> bool {
    header_at(data, at, response_header()) || header_at(data, at, request_header())
}

/// The direction of the message that `data` opens with, if it opens with a
/// header at all.
pub open spec fn message_type_spec(data: Seq<u8>) -> Option<MessageType> {
    if header_at(data, 0, response_header()) {
        Some(MessageType::Response)
    } else if header_at(data, 0, request_header()) {
        Some(MessageType::Request)
    } else {
        None
    }
}

/// The classification of `data` as a response.
pub open spec fn classify_spec(data: Seq<u8>) -> Classification {
    if data.len() < HEADER_LEN {
        Classification::TooShort
    } else if header_at(data, 0, response_header()) {
        Classification::Response {
            record_type: if data.len() > HEADER_LEN {
                Some(data[HEADER_LEN as int])
            } else {
                None
            },
        }
    } else {
        Classification::NotResponse
    }
}

/// The first offset at or behind `from` at which `header` stands in `data`.
pub open spec fn find_header(data: Seq<u8>, from: int, header: Seq<u8>) -> Option<int>
    decreases data.len() - from,
{
    if from < 0 || from + HEADER_LEN > data.len() {
        None
    } else if header_at(data, from, header) {
        Some(from)
    } else {
        find_header(data, from + 1, header)
    }
}

/// The first offset at or behind `from` at which a message starts in `data`.
pub open spec fn next_start(data: Seq<u8>, from: int) -> Option<int>
    decreases data.len() - from,
{
    if from < 0 || from + HEADER_LEN > data.len() {
        None
    } else if starts_message(data, from) {
        Some(from)
    } else {
        next_start(data, from + 1)
    }
}

/// What `find_header` finds is the first occurrence: the header stands
/// there and nowhere between `from` and there; if it finds nothing, the
/// header stands nowhere from `from` on.
pub proof fn lemma_find_header(data: Seq<u8>, from: int, header: Seq<u8>)
    requires
        0 <= from,
    ensures
        match find_header(data, from, header) {
            Some(p) => {
                &&& from <= p
                &&& header_at(data, p, header)
                &&& forall|q: int| from <= q < p ==> !header_at(data, q, header)
            },
            None => forall|q: int| from <= q ==> !header_at(data, q, header),
        },
    decreases data.len() - from,
{
    if from + HEADER_LEN <= data.len() && !header_at(data, from, header) {
        lemma_find_header(data, from + 1, header);
    }
}

/// What `next_start` finds is the first start of a message from `from` on.
pub proof fn lemma_next_start(data: Seq<u8>, from: int)
    requires
        0 <= from,
    ensures
        match next_start(data, from) {
            Some(p) => {
                &&& from <= p
                &&& starts_message(data, p)
                &&& forall|q: int| from <= q < p ==> !starts_message(data, q)
            },
            None => forall|q: int| from <= q ==> !starts_message(data, q),
        },
    decreases data.len() - from,
{
    if from + HEADER_LEN <= data.len() && !starts_message(data, from) {
        lemma_next_start(data, from + 1);
    }
}

/// Tells whether `header` stands at offset `at` of `data`.
pub fn has_header_at(data: &[u8], at: usize, header: &[u8; 4]) -> (found: bool)
    ensures
        found == header_at(data@, at as int, header@),
{
    if at > data.len() || data.len() - at < HEADER_LEN {
        return false;
    }
    data[at] == header[0] && data[at + 1] == header[1] && data[at + 2] == header[2] && data[at
        + 3] == header[3]
}

/// Tells the direction of the message that `data` opens with.
pub fn message_type(data: &[u8]) -> (kind: Option<MessageType>)
    ensures
        kind == message_type_spec(data@),
{
    if has_header_at(data, 0, &RESPONSE_HEADER) {
        Some(MessageType::Response)
    } else if has_header_at(data, 0, &REQUEST_HEADER) {
        Some(MessageType::Request)
    } else {
        None
    }
}

/// Classifies `data` as too short to tell, not a response, or a response
/// with the record type it carries.
pub fn classify(data: &[u8]) -> (class: Classification)
    ensures
        class == classify_spec(data@),
{
    if data.len() < HEADER_LEN {
        Classification::TooShort
    } else if has_header_at(data, 0, &RESPONSE_HEADER) {
        let record_type = if data.len() > HEADER_LEN {
            Some(data[HEADER_LEN])
        } else {
            None
        };
        Classification::Response { record_type }
    } else {
        Classification::NotResponse
    }
}

/// Finds the first offset at or behind `from` at which the response header
/// stands in `data`.
pub fn find_response_header(data: &[u8], from: usize) -> (pos: Option<usize>)
    ensures
        match pos {
            Some(p) => find_header(data@, from as int, response_header()) == Some(p as int),
            None => find_header(data@, from as int, response_header()) is None,
        },
{
    let mut at: usize = from;
    while at <= data.len() && data.len() - at >= HEADER_LEN
        invariant
            from <= at,
            find_header(data@, from as int, response_header()) == find_header(
                data@,
                at as int,
                response_header(),
            ),
        decreases data.len() - at,
    {
        if has_header_at(data, at, &RESPONSE_HEADER) {
            return Some(at);
        }
        at += 1;
    }
    None
}

/// Finds the first offset at or behind `from` at which a message starts in
/// `data`.
pub fn find_next_start(data: &[u8], from: usize) -> (pos: Option<usize>)
    ensures
        match pos {
            Some(p) => next_start(data@, from as int) == Some(p as int),
            None => next_start(data@, from as int) is None,
        },
{
    let mut at: usize = from;
    while at <= data.len() && data.len() - at >= HEADER_LEN
        invariant
            from <= at,
            next_start(data@, from as int) == next_start(data@, at as int),
        decreases data.len() - at,
    {
        if has_header_at(data, at, &RESPONSE_HEADER) || has_header_at(data, at, &REQUEST_HEADER) {
            return Some(at);
        }
        at += 1;
    }
    None
}

} // verus!
