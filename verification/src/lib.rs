//! Wire protocol of a battery-management-system device that reports its
//! telemetry over a single notify characteristic: request frames, checksum
//! validation, reassembly of fragmented notifications, and record decoding.

pub mod decode;
pub mod error;
pub mod layout;
pub mod protocol;
pub mod reassembly;
pub mod types;
pub mod utils;
pub mod wire;

pub use crate::error::Error;
pub use crate::protocol::{
    CHARACTERISTIC_UUID, CMD_CELL_DATA, CMD_DEVICE_INFO, RECORD_TYPE_CELL_DATA,
    RECORD_TYPE_DEVICE_INFO, REQUEST_HEADER, RESPONSE_HEADER, SERVICE_UUID,
};
pub use crate::types::{CellData, DeviceInfo};

use crate::decode::{decode_cell_data, decode_device_info};
use crate::error::ErrorView;
use crate::layout::{CELL_DATA_LEN, DEVICE_INFO_LEN, RECORD_TYPE_AT};
use crate::protocol::{
    classify, find_header, find_next_start, find_response_header, has_header_at,
    lemma_find_header, lemma_next_start, request_frame, response_header, valid_response,
    Classification, HEADER_LEN,
};
use crate::reassembly::{first_terminated_response, reassemble, span_end};
use crate::types::{CellDataView, DeviceInfoView};
use crate::utils::checksum;
use vstd::prelude::*;
use vstd::slice::{slice_subrange, slice_to_vec};

verus! {

/// Builds the frame that asks the device for `command_code`: the request
/// header, the command, and a checksum over both.
pub fn build_request(command_code: u8) -> (frame: Vec<u8>)
    ensures
        frame@ == request_frame(command_code),
{
    let mut data = slice_to_vec(REQUEST_HEADER.as_slice());
    data.push(command_code);
    let crc = checksum(None, data.as_slice());
    data.push(crc);
    data
}

/// Tells whether `data` ends in the checksum of the bytes before it. A span
/// too short to hold a header and a checksum is not valid.
pub fn validate_response(data: Vec<u8>) -> (valid: bool)
    ensures
        valid == valid_response(data@),
        data@.len() < HEADER_LEN + 1 ==> !valid,
{
    if data.len() < RESPONSE_HEADER.len() + 1 {
        return false;
    }
    let payload = slice_subrange(data.as_slice(), 0, data.len() - 1);
    let expected_crc = data[data.len() - 1];
    assert(payload@ =~= data@.drop_last());
    checksum(None, payload) == expected_crc
}

/// Decodes a response as device information. `data` holds the response
/// from its header on, without the checksum behind it.
pub fn parse_device_info(data: Vec<u8>) -> (result: Result<DeviceInfo, Error>)
    ensures
        match result {
            Ok(info) => decode_device_info(data@) == Ok::<DeviceInfoView, ErrorView>(info@),
            Err(e) => decode_device_info(data@) == Err::<DeviceInfoView, ErrorView>(e@),
        },
        data@.len() > RECORD_TYPE_AT && data@[RECORD_TYPE_AT as int] == RECORD_TYPE_CELL_DATA
            ==> result matches Err(Error::BadRecordType),
        data@.len() < DEVICE_INFO_LEN && (data@.len() > RECORD_TYPE_AT
            ==> data@[RECORD_TYPE_AT as int] == RECORD_TYPE_DEVICE_INFO)
            ==> result matches Err(Error::NotEnoughData),
{
    DeviceInfo::decode(data.as_slice())
}

/// Decodes a response as cell data. `data` holds the response from its
/// header on, without the checksum behind it.
pub fn parse_cell_data(data: Vec<u8>) -> (result: Result<CellData, Error>)
    ensures
        match result {
            Ok(cells) => decode_cell_data(data@) == Ok::<CellDataView, ErrorView>(cells@),
            Err(e) => decode_cell_data(data@) == Err::<CellDataView, ErrorView>(e@),
        },
        data@.len() > RECORD_TYPE_AT && data@[RECORD_TYPE_AT as int] == RECORD_TYPE_DEVICE_INFO
            ==> result matches Err(Error::BadRecordType),
        data@.len() < CELL_DATA_LEN && (data@.len() > RECORD_TYPE_AT
            ==> data@[RECORD_TYPE_AT as int] == RECORD_TYPE_CELL_DATA)
            ==> result matches Err(Error::NotEnoughData),
{
    CellData::decode(data.as_slice())
}

/// The identifier of the service that carries the protocol.
pub fn get_service_uuid() -> (uuid: String)
    ensures
        uuid@ == SERVICE_UUID@,
{
    SERVICE_UUID.to_owned()
}

/// The identifier of the characteristic that requests are written to and
/// that notifies the responses.
pub fn get_characteristic_uuid() -> (uuid: String)
    ensures
        uuid@ == CHARACTERISTIC_UUID@,
{
    CHARACTERISTIC_UUID.to_owned()
}

/// The frame that asks for the device information record.
pub fn get_device_info_request() -> (frame: Vec<u8>)
    ensures
        frame@ == request_frame(CMD_DEVICE_INFO),
{
    build_request(CMD_DEVICE_INFO)
}

/// The frame that asks for the cell data record.
pub fn get_cell_data_request() -> (frame: Vec<u8>)
    ensures
        frame@ == request_frame(CMD_CELL_DATA),
{
    build_request(CMD_CELL_DATA)
}

/// What one step of reassembly hands back.
#[derive(Clone, Debug)]
pub struct NotificationResult {
    /// The bytes to pass in again with the next fragment.
    pub buffer: Vec<u8>,
    /// The message that this step completed, if it completed one.
    pub complete_data: Option<Vec<u8>>,
}

impl View for NotificationResult {
    type V = (Seq<u8>, Option<Seq<u8>>);

    open spec fn view(&self) -> Self::V {
        (
            self.buffer@,
            match self.complete_data {
                Some(message) => Some(message@),
                None => None,
            },
        )
    }
}

/// Takes the bytes kept so far and a new fragment, and gives the bytes to
/// keep and the first message that is now complete, if there is one.
///
/// A message is complete once another message starts behind it. Bytes in
/// front of the first response header are dropped; if no response header is
/// found at all, everything is dropped.
pub fn process_notification(buffer: Vec<u8>, new_chunk: Vec<u8>) -> (result: NotificationResult)
    ensures
        result@ == reassemble(buffer@, new_chunk@),
{
    let mut combined = buffer;
    combined.extend_from_slice(new_chunk.as_slice());
    let ghost whole = combined@;
    assert(whole =~= buffer@ + new_chunk@);

    if combined.len() < HEADER_LEN + 2 {
        return NotificationResult { buffer: combined, complete_data: None };
    }
    let ghost sync: int = 0;
    if !has_header_at(combined.as_slice(), 0, &RESPONSE_HEADER) {
        match find_response_header(combined.as_slice(), 0) {
            Some(pos) => {
                proof {
                    lemma_find_header(whole, 0, response_header());
                    sync = pos as int;
                }
                let kept = slice_subrange(combined.as_slice(), pos, combined.len());
                combined = slice_to_vec(kept);
                assert(combined@ =~= whole.skip(sync));
            },
            None => {
                let nothing: Vec<u8> = Vec::new();
                assert(nothing@ =~= Seq::<u8>::empty());
                return NotificationResult { buffer: nothing, complete_data: None };
            },
        }
    } else {
        assert(combined@ =~= whole.skip(0));
    }
    let ghost synced = combined@;

    let mut start: usize = 0;
    while start < combined.len()
        invariant
            whole == buffer@ + new_chunk@,
            whole.len() >= HEADER_LEN + 2,
            find_header(whole, 0, response_header()) == Some(sync),
            synced == whole.skip(sync),
            combined@ == synced,
            start <= combined.len(),
            first_terminated_response(synced, 0) == first_terminated_response(
                synced,
                start as int,
            ),
        decreases combined.len() - start,
    {
        proof {
            lemma_next_start(synced, start + 1);
        }
        let end = match find_next_start(combined.as_slice(), start + 1) {
            Some(next) => next,
            None => combined.len(),
        };
        assert(end == span_end(synced, start as int));
        let message = slice_subrange(combined.as_slice(), start, end);
        if message.len() >= HEADER_LEN && end < combined.len() {
            if let Classification::Response { .. } = classify(message) {
                let rest = slice_subrange(combined.as_slice(), end, combined.len());
                let result = NotificationResult {
                    buffer: slice_to_vec(rest),
                    complete_data: Some(slice_to_vec(message)),
                };
                assert(result.buffer@ =~= synced.skip(end as int));
                assert(first_terminated_response(synced, 0) == Some((start as int, end as int)));
                return result;
            }
        }
        start = end;
    }
    NotificationResult { buffer: combined, complete_data: None }
}

} // verus!
