use jkbms_protocol::utils::checksum;
use jkbms_protocol::{build_request, validate_response, CMD_CELL_DATA, CMD_DEVICE_INFO};

#[test]
fn checksum_of_nothing_is_the_seed() {
    assert_eq!(checksum(None, &[]), 0);
    assert_eq!(checksum(Some(0x5A), &[]), 0x5A);
}

#[test]
fn checksum_adds_the_bytes() {
    assert_eq!(checksum(None, &[1, 2, 3]), 6);
    assert_eq!(checksum(Some(10), &[1, 2, 3]), 16);
}

#[test]
fn checksum_wraps_at_256() {
    assert_eq!(checksum(None, &[0xFF, 0x02]), 0x01);
    assert_eq!(checksum(Some(0xFF), &[0x01]), 0x00);
    assert_eq!(checksum(None, &[0x80; 4]), 0x00);
    assert_eq!(checksum(Some(0xF0), &[0x20, 0xFF]), 0x0F);
}

#[test]
fn checksum_can_be_chained() {
    let data: Vec<u8> = (0u16..600).map(|n| (n * 7 % 251) as u8).collect();
    for cut in [0usize, 1, 17, 300, 599, 600] {
        let first = checksum(None, &data[..cut]);
        assert_eq!(checksum(Some(first), &data[cut..]), checksum(None, &data));
    }
}

#[test]
fn request_for_cell_data_is_exact() {
    assert_eq!(build_request(CMD_CELL_DATA), vec![0xAA, 0x55, 0x90, 0xEB, 0x96, 0x10]);
}

#[test]
fn request_for_device_info_is_exact() {
    assert_eq!(build_request(CMD_DEVICE_INFO), vec![0xAA, 0x55, 0x90, 0xEB, 0x97, 0x11]);
}

#[test]
fn request_has_header_command_and_checksum() {
    for command in 0u8..=255 {
        let frame = build_request(command);
        assert_eq!(frame.len(), 6);
        assert_eq!(&frame[..4], &[0xAA, 0x55, 0x90, 0xEB]);
        assert_eq!(frame[4], command);
        assert_eq!(frame[5], checksum(None, &frame[..5]));
    }
}

#[test]
fn every_request_validates() {
    for command in 0u8..=255 {
        assert!(validate_response(build_request(command)));
    }
}

#[test]
fn short_spans_never_validate() {
    assert!(!validate_response(vec![]));
    assert!(!validate_response(vec![0]));
    assert!(!validate_response(vec![0, 0]));
    assert!(!validate_response(vec![0, 0, 0]));
    assert!(!validate_response(vec![0, 0, 0, 0]));
    assert!(!validate_response(vec![0x55, 0xAA, 0xEB, 0x90]));
    assert!(!validate_response(vec![1, 1]));
}

#[test]
fn shortest_valid_span_has_five_bytes() {
    assert!(validate_response(vec![0, 0, 0, 0, 0]));
    assert!(validate_response(vec![1, 2, 3, 4, 10]));
    assert!(!validate_response(vec![1, 2, 3, 4, 11]));
}

#[test]
fn response_with_matching_checksum_validates() {
    let mut frame = vec![0x55, 0xAA, 0xEB, 0x90, 0x02, 0x07, 0xE4, 0x0C];
    let crc = checksum(None, &frame);
    assert_eq!(crc, 0x73);
    frame.push(crc);
    assert!(validate_response(frame.clone()));
    let last = frame.len() - 1;
    frame[last] = crc.wrapping_add(1);
    assert!(!validate_response(frame));
}

#[test]
fn every_single_byte_change_is_detected() {
    let mut frame = vec![0x55, 0xAA, 0xEB, 0x90, 0x03, 0x00, 0x4A, 0x4B, 0xFF, 0x80];
    frame.push(checksum(None, &frame));
    assert!(validate_response(frame.clone()));
    for at in 0..frame.len() {
        for byte in 0u8..=255 {
            if byte != frame[at] {
                let mut changed = frame.clone();
                changed[at] = byte;
                assert!(!validate_response(changed), "change at {} to {}", at, byte);
            }
        }
    }
}
