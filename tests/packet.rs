use anevicon::packet::{check_packet, packet_from_read, random_packet, ReadPacketError};

#[test]
fn generates_random_packet() {
    let length: usize = 35684;
    let buffer = random_packet(length);

    // Check that we've got the correctly length and capacity
    assert_eq!(buffer.len(), length);
    assert!(buffer.capacity() >= length);
}

#[test]
fn random_packet_is_not_left_zeroed() {
    let buffer = random_packet(4096);
    assert_eq!(buffer.len(), 4096);
    assert!(buffer.iter().any(|b| *b != 0));
}

#[test]
fn empty_content_is_refused() {
    assert!(matches!(check_packet(Vec::new()), Err(ReadPacketError::ZeroSize)));
}

#[test]
fn content_is_kept_as_read() {
    let content = vec![26u8; 4096];
    let packet = check_packet(content.clone()).unwrap();
    assert_eq!(packet, content);
}

#[test]
fn read_failure_is_passed_on() {
    let error = std::io::Error::new(std::io::ErrorKind::NotFound, "missing");
    assert!(matches!(packet_from_read(Err(error)), Err(ReadPacketError::ReadFailed(_))));
    assert!(matches!(packet_from_read(Ok(Vec::new())), Err(ReadPacketError::ZeroSize)));
    assert_eq!(packet_from_read(Ok(vec![1u8, 2, 3])).unwrap(), vec![1u8, 2, 3]);
}
