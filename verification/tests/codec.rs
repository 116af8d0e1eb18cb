use jkbms_protocol::error::Error;
use jkbms_protocol::protocol::{
    classify, find_next_start, find_response_header, has_header_at, message_type, Classification,
    MessageType, HEADER_LEN,
};
use jkbms_protocol::{
    get_cell_data_request, get_characteristic_uuid, get_device_info_request, get_service_uuid,
    CHARACTERISTIC_UUID, CMD_CELL_DATA, CMD_DEVICE_INFO, RECORD_TYPE_CELL_DATA,
    RECORD_TYPE_DEVICE_INFO, REQUEST_HEADER, RESPONSE_HEADER, SERVICE_UUID,
};

#[test]
fn constants_have_their_values() {
    assert_eq!(REQUEST_HEADER, [0xAA, 0x55, 0x90, 0xEB]);
    assert_eq!(RESPONSE_HEADER, [0x55, 0xAA, 0xEB, 0x90]);
    assert_eq!(HEADER_LEN, 4);
    assert_eq!(CMD_CELL_DATA, 0x96);
    assert_eq!(CMD_DEVICE_INFO, 0x97);
    assert_eq!(RECORD_TYPE_CELL_DATA, 0x02);
    assert_eq!(RECORD_TYPE_DEVICE_INFO, 0x03);
}

#[test]
fn uuids_are_the_constants() {
    assert_eq!(get_service_uuid(), "0000ffe0-0000-1000-8000-00805f9b34fb");
    assert_eq!(get_characteristic_uuid(), "0000ffe1-0000-1000-8000-00805f9b34fb");
    assert_eq!(get_service_uuid(), SERVICE_UUID);
    assert_eq!(get_characteristic_uuid(), CHARACTERISTIC_UUID);
}

#[test]
fn named_requests_are_built_from_their_commands() {
    assert_eq!(get_device_info_request(), vec![0xAA, 0x55, 0x90, 0xEB, 0x97, 0x11]);
    assert_eq!(get_cell_data_request(), vec![0xAA, 0x55, 0x90, 0xEB, 0x96, 0x10]);
}

#[test]
fn classify_too_short() {
    assert_eq!(classify(&[]), Classification::TooShort);
    assert_eq!(classify(&[0x55]), Classification::TooShort);
    assert_eq!(classify(&[0x55, 0xAA, 0xEB]), Classification::TooShort);
}

#[test]
fn classify_not_a_response() {
    assert_eq!(classify(&[0xAA, 0x55, 0x90, 0xEB]), Classification::NotResponse);
    assert_eq!(classify(&[0xAA, 0x55, 0x90, 0xEB, 0x96, 0x10]), Classification::NotResponse);
    assert_eq!(classify(&[0x55, 0xAA, 0xEB, 0x91, 0x02]), Classification::NotResponse);
    assert_eq!(classify(&[0x41, 0x54, 0x0D, 0x0A]), Classification::NotResponse);
}

#[test]
fn classify_response_with_and_without_record_type() {
    assert_eq!(
        classify(&[0x55, 0xAA, 0xEB, 0x90]),
        Classification::Response { record_type: None }
    );
    assert_eq!(
        classify(&[0x55, 0xAA, 0xEB, 0x90, 0x02]),
        Classification::Response { record_type: Some(RECORD_TYPE_CELL_DATA) }
    );
    assert_eq!(
        classify(&[0x55, 0xAA, 0xEB, 0x90, 0x03, 0x00, 0x01]),
        Classification::Response { record_type: Some(RECORD_TYPE_DEVICE_INFO) }
    );
}

#[test]
fn message_type_tells_the_direction() {
    assert_eq!(message_type(&[0x55, 0xAA, 0xEB, 0x90, 0x02]), Some(MessageType::Response));
    assert_eq!(message_type(&[0xAA, 0x55, 0x90, 0xEB, 0x96]), Some(MessageType::Request));
    assert_eq!(message_type(&[0x55, 0xAA, 0xEB]), None);
    assert_eq!(message_type(&[0x00, 0x55, 0xAA, 0xEB, 0x90]), None);
    assert_eq!(message_type(&[]), None);
}

#[test]
fn header_is_looked_for_at_the_offset_given() {
    let data = [0x00, 0x55, 0xAA, 0xEB, 0x90, 0x02];
    assert!(!has_header_at(&data, 0, &RESPONSE_HEADER));
    assert!(has_header_at(&data, 1, &RESPONSE_HEADER));
    assert!(!has_header_at(&data, 1, &REQUEST_HEADER));
    assert!(!has_header_at(&data, 2, &RESPONSE_HEADER));
    assert!(!has_header_at(&data, 3, &RESPONSE_HEADER));
    assert!(!has_header_at(&data, 6, &RESPONSE_HEADER));
    assert!(!has_header_at(&data, usize::MAX, &RESPONSE_HEADER));
}

#[test]
fn first_response_header_is_found() {
    let data = [0x55, 0xAA, 0x55, 0xAA, 0xEB, 0x90, 0x02, 0x55, 0xAA, 0xEB, 0x90];
    assert_eq!(find_response_header(&data, 0), Some(2));
    assert_eq!(find_response_header(&data, 2), Some(2));
    assert_eq!(find_response_header(&data, 3), Some(7));
    assert_eq!(find_response_header(&data, 8), None);
    assert_eq!(find_response_header(&data, 100), None);
    assert_eq!(find_response_header(&[0x55, 0xAA, 0xEB], 0), None);
}

#[test]
fn next_start_is_either_header() {
    let data = [0x55, 0xAA, 0xEB, 0x90, 0x02, 0xAA, 0x55, 0x90, 0xEB, 0x55, 0xAA, 0xEB, 0x90];
    assert_eq!(find_next_start(&data, 0), Some(0));
    assert_eq!(find_next_start(&data, 1), Some(5));
    assert_eq!(find_next_start(&data, 6), Some(9));
    assert_eq!(find_next_start(&data, 10), None);
}

#[test]
fn error_messages() {
    assert_eq!(Error::NotEnoughData.message(), "Not enough data");
    assert_eq!(Error::BadRecordType.message(), "Bad record type");
    assert_eq!(Error::BadCrc.message(), "Bad CRC checksum");
    assert_eq!(
        Error::InvalidData { msg: "device_name".to_string() }.message(),
        "Invalid data: device_name"
    );
    assert_eq!(Error::InvalidData { msg: String::new() }.message(), "Invalid data: ");
}
