use jkbms_protocol::utils::checksum;
use jkbms_protocol::{process_notification, NotificationResult};

fn step(buffer: &[u8], chunk: &[u8]) -> (Vec<u8>, Option<Vec<u8>>) {
    let NotificationResult { buffer, complete_data } =
        process_notification(buffer.to_vec(), chunk.to_vec());
    (buffer, complete_data)
}

fn frame(record_type: u8, payload: &[u8]) -> Vec<u8> {
    let mut bytes = vec![0x55, 0xAA, 0xEB, 0x90, record_type];
    bytes.extend_from_slice(payload);
    let crc = checksum(None, &bytes);
    bytes.push(crc);
    bytes
}

#[test]
fn fewer_than_six_bytes_are_kept_as_they_are() {
    assert_eq!(step(&[], &[]), (vec![], None));
    assert_eq!(step(&[1, 2], &[3]), (vec![1, 2, 3], None));
    assert_eq!(step(&[], &[0x55, 0xAA, 0xEB, 0x90, 0x02]), (vec![0x55, 0xAA, 0xEB, 0x90, 0x02], None));
    assert_eq!(step(&[9, 9, 9, 9], &[9]), (vec![9, 9, 9, 9, 9], None));
}

#[test]
fn bytes_without_a_response_header_are_dropped() {
    assert_eq!(step(&[], &[1, 2, 3, 4, 5, 6, 7]), (vec![], None));
    assert_eq!(step(&[1, 2, 3], &[4, 5, 6]), (vec![], None));
    assert_eq!(step(&[], &[0xAA, 0x55, 0x90, 0xEB, 0x96, 0x10]), (vec![], None));
}

#[test]
fn a_header_cut_off_at_the_end_is_dropped_with_the_rest() {
    assert_eq!(step(&[1, 2, 3], &[0x55, 0xAA, 0xEB]), (vec![], None));
}

#[test]
fn bytes_in_front_of_the_header_are_dropped() {
    assert_eq!(
        step(&[9, 9, 9], &[0x55, 0xAA, 0xEB, 0x90]),
        (vec![0x55, 0xAA, 0xEB, 0x90], None)
    );
    assert_eq!(
        step(&[9, 0x55, 0xAA], &[0x55, 0xAA, 0xEB, 0x90, 0x02, 0x07]),
        (vec![0x55, 0xAA, 0xEB, 0x90, 0x02, 0x07], None)
    );
}

#[test]
fn a_lone_frame_waits_for_what_follows() {
    let first = frame(0x02, &[1, 2, 3, 4, 5, 6, 7, 8]);
    assert_eq!(step(&[], &first), (first.clone(), None));
    assert_eq!(step(&first, &[]), (first.clone(), None));
    let mut grown = first.clone();
    grown.extend_from_slice(&[0x55, 0xAA, 0xEB]);
    assert_eq!(step(&first, &[0x55, 0xAA, 0xEB]), (grown.clone(), None));
    assert_eq!(
        step(&grown, &[0x90]),
        (vec![0x55, 0xAA, 0xEB, 0x90], Some(first.clone()))
    );
}

#[test]
fn frame_split_at_every_offset_is_completed_once() {
    let whole = frame(0x02, &[0x10, 0x20, 0x30, 0x40, 0x50, 0x60, 0x70, 0x80, 0x90, 0xA0]);
    let following = vec![0x55, 0xAA, 0xEB, 0x90, 0x03];
    for split in 0..=whole.len() {
        let mut completed: Vec<Vec<u8>> = Vec::new();
        let (buffer, done) = step(&[], &whole[..split]);
        assert_eq!(done, None, "split {}", split);
        assert_eq!(buffer, whole[..split].to_vec(), "split {}", split);
        completed.extend(done);
        let (buffer, done) = step(&buffer, &whole[split..]);
        assert_eq!(done, None, "split {}", split);
        assert_eq!(buffer, whole, "split {}", split);
        completed.extend(done);
        let (buffer, done) = step(&buffer, &following);
        completed.extend(done);
        assert_eq!(completed, vec![whole.clone()], "split {}", split);
        assert_eq!(buffer, following, "split {}", split);
    }
}

#[test]
fn frame_split_in_two_with_the_next_header_in_the_second_fragment() {
    let whole = frame(0x03, &[0x4A, 0x4B, 0x00, 0x01, 0x02]);
    let mut stream = whole.clone();
    stream.extend_from_slice(&[0x55, 0xAA, 0xEB, 0x90]);
    for split in 0..=whole.len() {
        let (buffer, first) = step(&[], &stream[..split]);
        let (buffer, second) = step(&buffer, &stream[split..]);
        let completed: Vec<Vec<u8>> = first.into_iter().chain(second).collect();
        assert_eq!(completed, vec![whole.clone()], "split {}", split);
        assert_eq!(buffer, vec![0x55, 0xAA, 0xEB, 0x90], "split {}", split);
    }
}

#[test]
fn garbage_then_frame_then_second_frame() {
    let garbage = vec![0x01, 0x02, 0x55, 0xAA, 0x03, 0x90, 0xEB];
    let first = frame(0x02, &[0x11, 0x22, 0x33, 0x44, 0x55, 0x66]);
    let second = frame(0x03, &[0x77, 0x88]);

    let mut chunk = garbage.clone();
    chunk.extend_from_slice(&first[..6]);
    let (buffer, done) = step(&[], &chunk);
    assert_eq!(done, None);
    assert_eq!(buffer, first[..6].to_vec());

    let (buffer, done) = step(&buffer, &first[6..]);
    assert_eq!(done, None);
    assert_eq!(buffer, first);

    let (buffer, done) = step(&buffer, &second[..3]);
    assert_eq!(done, None);
    assert_eq!(buffer.len(), first.len() + 3);

    let (buffer, done) = step(&buffer, &second[3..]);
    assert_eq!(done, Some(first.clone()));
    assert_eq!(buffer, second);
    assert_eq!(&buffer[..4], &[0x55, 0xAA, 0xEB, 0x90]);
}

#[test]
fn garbage_frame_and_second_frame_in_one_fragment() {
    let garbage = vec![0xDE, 0xAD, 0xBE, 0xEF];
    let first = frame(0x02, &[1, 2, 3]);
    let second = frame(0x02, &[4, 5, 6]);
    let mut stream = garbage.clone();
    stream.extend_from_slice(&first);
    stream.extend_from_slice(&second);
    assert_eq!(step(&[], &stream), (second.clone(), Some(first.clone())));
    for cut in 0..=stream.len() {
        assert_eq!(
            step(&stream[..cut], &stream[cut..]),
            (second.clone(), Some(first.clone())),
            "cut {}",
            cut
        );
    }
}

#[test]
fn only_the_first_message_is_handed_out_and_the_rest_is_drained() {
    let first = frame(0x02, &[1, 1, 1]);
    let second = frame(0x03, &[2, 2, 2, 2]);
    let third = frame(0x02, &[3]);
    let mut stream = first.clone();
    stream.extend_from_slice(&second);
    stream.extend_from_slice(&third);

    let (buffer, done) = step(&[], &stream);
    assert_eq!(done, Some(first));
    let mut rest = second.clone();
    rest.extend_from_slice(&third);
    assert_eq!(buffer, rest);

    let (buffer, done) = step(&buffer, &[]);
    assert_eq!(done, Some(second));
    assert_eq!(buffer, third);

    let (buffer, done) = step(&buffer, &[]);
    assert_eq!(done, None);
    assert_eq!(buffer, third);
}

#[test]
fn a_request_header_ends_a_message_too() {
    let first = frame(0x02, &[7, 7, 7, 7]);
    let request = vec![0xAA, 0x55, 0x90, 0xEB, 0x96, 0x10];
    let mut stream = first.clone();
    stream.extend_from_slice(&request);
    let (buffer, done) = step(&[], &stream);
    assert_eq!(done, Some(first));
    assert_eq!(buffer, request);

    let second = frame(0x03, &[8, 8]);
    let (buffer, done) = step(&buffer, &second);
    assert_eq!(done, None);
    assert_eq!(buffer, second);
}

#[test]
fn a_header_inside_a_frame_cuts_it() {
    let stream = vec![0x55, 0xAA, 0xEB, 0x90, 0x02, 0x55, 0xAA, 0xEB, 0x90, 0x03, 0x01];
    assert_eq!(
        step(&[], &stream),
        (
            vec![0x55, 0xAA, 0xEB, 0x90, 0x03, 0x01],
            Some(vec![0x55, 0xAA, 0xEB, 0x90, 0x02])
        )
    );
}

#[test]
fn result_can_be_cloned_and_printed() {
    let result = process_notification(vec![1], vec![2]);
    let copy = result.clone();
    assert_eq!(copy.buffer, vec![1, 2]);
    assert_eq!(copy.complete_data, None);
    assert_eq!(format!("{:?}", result), "NotificationResult { buffer: [1, 2], complete_data: None }");
}
