use packet_buffer::packet::{PacketBuffer, PACKET_BYTES_LENGTH};

fn counting_bytes() -> [u8; PACKET_BYTES_LENGTH] {
    core::array::from_fn(|idx| (idx % 251) as u8)
}

#[test]
fn step_from_nonzero_position_adds_delta() {
    let mut b = PacketBuffer::new(counting_bytes());
    assert!(b.step(7).is_ok());
    assert!(b.step(100).is_ok());
    assert_eq!(107, b.pos());
}

#[test]
fn step_to_last_index_succeeds() {
    let mut b = PacketBuffer::new(counting_bytes());
    assert!(b.step(PACKET_BYTES_LENGTH - 1).is_ok());
    assert_eq!(511, b.pos());
}

#[test]
fn step_reaching_capacity_fails_and_keeps_position() {
    let mut b = PacketBuffer::new(counting_bytes());
    assert!(b.step(5).is_ok());
    let res = b.step(507);
    assert_eq!(
        Err(String::from(
            "Invalid step, stepping past buffer boundary: buffer length=512, pos=5, step=507"
        )),
        res
    );
    assert_eq!(5, b.pos());
}

#[test]
fn step_by_largest_delta_fails_without_overflow() {
    let mut b = PacketBuffer::new(counting_bytes());
    assert!(b.step(3).is_ok());
    let res = b.step(usize::MAX);
    let expected = format!(
        "Invalid step, stepping past buffer boundary: buffer length=512, pos=3, step={}",
        usize::MAX
    );
    assert_eq!(Err(expected), res);
    assert_eq!(3, b.pos());
}

#[test]
fn seek_to_last_index_succeeds() {
    let mut b = PacketBuffer::new(counting_bytes());
    assert!(b.seek(511).is_ok());
    assert_eq!(511, b.pos());
    assert_eq!(Ok((511 % 251) as u8), b.read());
}

#[test]
fn seek_to_capacity_fails_and_keeps_position() {
    let mut b = PacketBuffer::new(counting_bytes());
    assert!(b.seek(40).is_ok());
    let res = b.seek(512);
    assert_eq!(
        Err(String::from(
            "Invalid seek, seeking past buffer boundary: buffer length=512, seek=512"
        )),
        res
    );
    assert_eq!(40, b.pos());
}

#[test]
fn seek_backwards_is_allowed() {
    let mut b = PacketBuffer::new(counting_bytes());
    assert!(b.seek(300).is_ok());
    assert!(b.seek(2).is_ok());
    assert_eq!(Ok(2), b.read());
}

#[test]
fn reading_whole_buffer_visits_bytes_in_order() {
    let data = counting_bytes();
    let mut b = PacketBuffer::new(data);
    for (i, byte) in data.iter().enumerate() {
        assert_eq!(i, b.pos());
        assert_eq!(Ok(*byte), b.read());
    }
    assert_eq!(PACKET_BYTES_LENGTH, b.pos());
}

#[test]
fn failed_read_at_end_keeps_position() {
    let mut b = PacketBuffer::new(counting_bytes());
    assert!(b.seek(511).is_ok());
    assert!(b.read().is_ok());
    assert!(b.read().is_err());
    assert!(b.read().is_err());
    assert_eq!(512, b.pos());
}

#[test]
fn get_matches_following_read_and_repeats() {
    let mut b = PacketBuffer::new(counting_bytes());
    assert!(b.seek(260).is_ok());
    let first = b.get();
    let second = b.get();
    assert_eq!(first, second);
    assert_eq!(260, b.pos());
    assert_eq!(first, b.read());
    assert_eq!(Ok(9), first);
}

#[test]
fn get_range_matches_direct_slice() {
    let data = counting_bytes();
    let b = PacketBuffer::new(data);
    assert_eq!(Ok(&data[500..511]), b.get_range(500, 11));
    assert_eq!(Ok(&data[0..511]), b.get_range(0, 511));
    assert_eq!(Ok(&data[37..37]), b.get_range(37, 0));
    assert_eq!(0, b.pos());
}

#[test]
fn get_range_reaching_last_byte_fails() {
    let b = PacketBuffer::new(counting_bytes());
    assert_eq!(
        Err(String::from(
            "Invalid range, getting range past buffer boundary: buffer length=512, start=1, len=511"
        )),
        b.get_range(1, 511)
    );
    assert!(b.get_range(0, 512).is_err());
    assert!(b.get_range(511, 0).is_ok());
    assert!(b.get_range(512, 0).is_err());
}

#[test]
fn get_range_with_huge_arguments_fails_without_overflow() {
    let b = PacketBuffer::new(counting_bytes());
    assert!(b.get_range(usize::MAX, 2).is_err());
    assert!(b.get_range(2, usize::MAX).is_err());
}

#[test]
fn read_u16_at_end_of_buffer() {
    let mut data = [0u8; PACKET_BYTES_LENGTH];
    data[510] = 0xab;
    data[511] = 0xcd;
    let mut b = PacketBuffer::new(data);
    assert!(b.seek(510).is_ok());
    assert_eq!(Ok(0xabcd), b.read_u16());
    assert_eq!(512, b.pos());
}

#[test]
fn read_u16_with_one_byte_left_consumes_it_and_fails() {
    let mut b = PacketBuffer::new(counting_bytes());
    assert!(b.seek(511).is_ok());
    assert_eq!(
        Err(String::from(
            "Invalid read, reading past buffer boundary: buffer length=512, pos=512"
        )),
        b.read_u16()
    );
    assert_eq!(512, b.pos());
}

#[test]
fn read_u16_when_exhausted_fails_and_keeps_position() {
    let mut b = PacketBuffer::new(counting_bytes());
    assert!(b.seek(511).is_ok());
    assert!(b.read().is_ok());
    assert!(b.read_u16().is_err());
    assert_eq!(512, b.pos());
}

#[test]
fn read_u16_high_byte_first() {
    let mut data = [0u8; PACKET_BYTES_LENGTH];
    data[0] = 0x80;
    data[1] = 0x01;
    let mut b = PacketBuffer::new(data);
    assert_eq!(Ok(0x8001), b.read_u16());
}
