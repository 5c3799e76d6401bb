use ch341_i2c::frame::{
    encode_check, encode_read, encode_set_speed, encode_write, encode_write_phase,
    encode_write_then_read, make_address_byte, MAX_READ_LEN, MAX_WRITE_LEN,
};
use ch341_i2c::{Error, I2CSpeed};

#[test]
fn address_byte_shifts_and_sets_direction() {
    assert_eq!(make_address_byte(0x40, true), 0x81);
    assert_eq!(make_address_byte(0x40, false), 0x80);
    assert_eq!(make_address_byte(0x00, true), 0x01);
    assert_eq!(make_address_byte(0x7f, true), 0xff);
    assert_eq!(make_address_byte(0x7f, false), 0xfe);
}

#[test]
fn address_byte_of_every_seven_bit_address() {
    for a in 0u8..=127 {
        assert_eq!(make_address_byte(a, true), 2 * a + 1);
        assert_eq!(make_address_byte(a, false), 2 * a);
        assert_eq!(make_address_byte(a, true) >> 1, a);
    }
}

#[test]
fn address_byte_drops_the_eighth_bit() {
    assert_eq!(make_address_byte(0x80, true), 0x01);
    assert_eq!(make_address_byte(0xc0, false), 0x80);
}

#[test]
fn check_frame_for_0x40() {
    assert_eq!(encode_check(0x40), vec![0xAA, 0x74, 0x80, 0x81, 0xC0, 0x75, 0x00]);
}

#[test]
fn check_frame_is_seven_bytes_for_every_address() {
    for a in 0u8..=127 {
        let frame = encode_check(a);
        assert_eq!(frame.len(), 7);
        assert_eq!(frame, vec![0xAA, 0x74, 0x80, (a << 1) | 1, 0xC0, 0x75, 0x00]);
    }
}

#[test]
fn check_frame_tags_carry_length_zero() {
    let frame = encode_check(0x23);
    assert_eq!(frame[2] & 0x3f, 0);
    assert_eq!(frame[4] & 0x3f, 0);
}

#[test]
fn read_frame_of_two_bytes() {
    assert_eq!(
        encode_read(0x40, 2),
        Ok(vec![0xAA, 0x74, 0x81, 0x81, 0xC1, 0xC0, 0x75, 0x00])
    );
}

#[test]
fn read_frame_of_one_byte_has_only_the_terminal_segment() {
    assert_eq!(encode_read(0x40, 1), Ok(vec![0xAA, 0x74, 0x81, 0x81, 0xC0, 0x75, 0x00]));
}

#[test]
fn read_frame_of_no_bytes_has_no_in_segment() {
    assert_eq!(encode_read(0x40, 0), Ok(vec![0xAA, 0x74, 0x81, 0x81, 0x75, 0x00]));
}

#[test]
fn read_frame_layout_for_every_length_up_to_sixty() {
    for a in [0u8, 1, 0x40, 0x7f] {
        for n in 1usize..=60 {
            let frame = encode_read(a, n).unwrap();
            assert_eq!(frame.len(), n + 6);
            assert_eq!(&frame[..4], &[0xAA, 0x74, 0x81, (a << 1) | 1]);
            let segments = &frame[4..4 + n];
            assert_eq!(segments.len(), std::cmp::max(n, 1));
            assert_eq!(segments.iter().filter(|b| **b == 0xC1).count(), n - 1);
            assert!(segments[..n - 1].iter().all(|b| *b == 0xC1));
            assert_eq!(segments[n - 1], 0xC0);
            assert_eq!(&frame[4 + n..], &[0x75, 0x00]);
        }
    }
}

#[test]
fn read_length_at_the_limit_is_encoded() {
    assert_eq!(MAX_READ_LEN, 63);
    let frame = encode_read(0x10, 63).unwrap();
    assert_eq!(frame.len(), 69);
    assert_eq!(frame[66], 0xC0);
}

#[test]
fn read_length_over_the_limit_is_refused() {
    assert_eq!(encode_read(0x10, 64), Err(Error::Encoding));
    assert_eq!(encode_read(0x10, 256), Err(Error::Encoding));
    assert_eq!(encode_read(0x10, usize::MAX), Err(Error::Encoding));
}

#[test]
fn write_frame_of_one_byte() {
    assert_eq!(
        encode_write(0x40, &[0xFE]),
        Ok(vec![0xAA, 0x74, 0x82, 0x80, 0xFE, 0x75, 0x00])
    );
}

#[test]
fn write_frame_of_no_bytes_carries_the_address_only() {
    assert_eq!(encode_write(0x40, &[]), Ok(vec![0xAA, 0x74, 0x81, 0x80, 0x75, 0x00]));
}

#[test]
fn write_frame_layout_for_every_payload_length() {
    for n in 0usize..=62 {
        let payload: Vec<u8> = (0..n).map(|i| (i * 7 + 3) as u8).collect();
        let frame = encode_write(0x51, &payload).unwrap();
        assert_eq!(frame.len(), n + 6);
        assert_eq!(&frame[..2], &[0xAA, 0x74]);
        assert_eq!(frame[2], 0x80 + 1 + n as u8);
        assert_eq!((frame[2] & 0x3f) as usize, 1 + n);
        assert_eq!(frame[3], 0x51 << 1);
        assert_eq!(&frame[4..4 + n], &payload[..]);
        assert_eq!(&frame[4 + n..], &[0x75, 0x00]);
    }
}

#[test]
fn write_payload_at_the_limit_fills_the_length_field() {
    assert_eq!(MAX_WRITE_LEN, 62);
    let frame = encode_write(0x51, &[0x11; 62]).unwrap();
    assert_eq!(frame[2], 0xBF);
}

#[test]
fn write_payload_over_the_limit_is_refused() {
    assert_eq!(encode_write(0x51, &[0u8; 63]), Err(Error::Encoding));
    assert_eq!(encode_write(0x51, &[0u8; 64]), Err(Error::Encoding));
    assert_eq!(encode_write(0x51, &[0u8; 300]), Err(Error::Encoding));
    assert_eq!(encode_write_phase(0x51, &[0u8; 63]), Err(Error::Encoding));
}

#[test]
fn write_phase_is_the_write_frame_without_stop() {
    let phase = encode_write_phase(0x40, &[1, 2, 3]).unwrap();
    let frame = encode_write(0x40, &[1, 2, 3]).unwrap();
    assert_eq!(phase, vec![0xAA, 0x74, 0x84, 0x80, 1, 2, 3]);
    assert_eq!(&frame[..phase.len()], &phase[..]);
    assert_eq!(&frame[phase.len()..], &[0x75, 0x00]);
}

#[test]
fn write_then_read_frames_of_a_sensor_register() {
    let (write, read) = encode_write_then_read(0x40, &[0xFE], 2).unwrap();
    assert_eq!(write, vec![0xAA, 0x74, 0x82, 0x80, 0xFE]);
    assert_eq!(read, vec![0xAA, 0x74, 0x81, 0x81, 0xC1, 0xC0, 0x75, 0x00]);
    assert_eq!(read, encode_read(0x40, 2).unwrap());
}

#[test]
fn write_then_read_refuses_either_length() {
    assert_eq!(encode_write_then_read(0x40, &[0u8; 63], 2), Err(Error::Encoding));
    assert_eq!(encode_write_then_read(0x40, &[0xFE], 64), Err(Error::Encoding));
    assert_eq!(encode_write_then_read(0x40, &[0u8; 63], 64), Err(Error::Encoding));
    assert!(encode_write_then_read(0x40, &[0u8; 62], 63).is_ok());
}

#[test]
fn every_complete_frame_is_delimited() {
    let frames = vec![
        encode_check(0x40),
        encode_read(0x40, 0).unwrap(),
        encode_read(0x40, 5).unwrap(),
        encode_write(0x40, &[]).unwrap(),
        encode_write(0x40, &[9, 8, 7]).unwrap(),
    ];
    for frame in frames {
        assert_eq!(&frame[..2], &[0xAA, 0x74]);
        assert_eq!(&frame[frame.len() - 2..], &[0x75, 0x00]);
    }
    let (write, read) = encode_write_then_read(0x40, &[0xFE], 2).unwrap();
    let stream: Vec<u8> = write.iter().chain(read.iter()).cloned().collect();
    assert_eq!(&stream[..2], &[0xAA, 0x74]);
    assert_eq!(&stream[stream.len() - 2..], &[0x75, 0x00]);
}

#[test]
fn set_speed_commands() {
    assert_eq!(encode_set_speed(I2CSpeed::Low), vec![0xAA, 0x60, 0x00]);
    assert_eq!(encode_set_speed(I2CSpeed::Standard), vec![0xAA, 0x61, 0x00]);
    assert_eq!(encode_set_speed(I2CSpeed::Fast), vec![0xAA, 0x62, 0x00]);
    assert_eq!(encode_set_speed(I2CSpeed::High), vec![0xAA, 0x63, 0x00]);
}

#[test]
fn speed_codes_and_rates() {
    assert_eq!(I2CSpeed::Low.code(), 0);
    assert_eq!(I2CSpeed::Standard.code(), 1);
    assert_eq!(I2CSpeed::Fast.code(), 2);
    assert_eq!(I2CSpeed::High.code(), 3);
    assert_eq!(I2CSpeed::Low.khz(), 20);
    assert_eq!(I2CSpeed::Standard.khz(), 100);
    assert_eq!(I2CSpeed::Fast.khz(), 400);
    assert_eq!(I2CSpeed::High.khz(), 750);
    assert_eq!(I2CSpeed::default(), I2CSpeed::Standard);
}
