//! The adapter's command frames.
//!
//! A frame is the byte string that makes the adapter carry out one I2C transaction:
//! the stream opcode, a START marker, segments that put bytes on the bus (OUT) or
//! take bytes from it (IN), a STOP marker and a terminator. This module says, as
//! sequences of bytes, what each frame is, and builds them.

use vstd::prelude::*;
use crate::error::Error;
use crate::speed::I2CSpeed;

verus! {

/// Opens every command stream.
pub const CH341_CMD_I2C_STREAM: u8 = 0xAA;

/// START condition on the bus.
pub const CH341_CMD_I2C_STM_STA: u8 = 0x74;

/// STOP condition on the bus.
pub const CH341_CMD_I2C_STM_STO: u8 = 0x75;

/// Base of an OUT segment tag; the low six bits hold the segment's length.
pub const CH341_CMD_I2C_STM_OUT: u8 = 0x80;

/// Base of an IN segment tag; the low six bits hold the segment's length.
pub const CH341_CMD_I2C_STM_IN: u8 = 0xC0;

/// Base of the set-speed command; the low two bits hold the speed code.
pub const CH341_CMD_I2C_STM_SET: u8 = 0x60;

/// Closes every command stream.
pub const CH341_CMD_I2C_STM_END: u8 = 0x00;

/// Largest value the six-bit length field of a segment tag can hold.
pub const MAX_SEGMENT_LEN: usize = 63;

/// Largest payload of a write: the OUT segment also carries the address byte.
pub const MAX_WRITE_LEN: usize = 62;

/// Largest number of bytes one read can ask for.
pub const MAX_READ_LEN: usize = 63;

/// The first byte on the bus: the seven-bit address shifted left by one, with the
/// lowest bit set for a read and clear for a write. An eighth bit of `address` is
/// shifted out.
pub open spec fn address_byte(address: u8, read: bool) -> u8 {
    (address << 1) | (if read { 1u8 } else { 0u8 })
}

/// Tag of an OUT segment that carries `length` bytes.
pub open spec fn out_tag(length: u8) -> u8 {
    CH341_CMD_I2C_STM_OUT | length
}

/// Tag of an IN segment that takes one byte from the bus. With `more` set the byte
/// is acknowledged and further IN segments follow; the last one has it clear.
pub open spec fn in_tag(more: bool) -> u8 {
    CH341_CMD_I2C_STM_IN | (if more { 1u8 } else { 0u8 })
}

/// The two bytes every frame starts with.
pub open spec fn frame_head() -> Seq<u8> {
    seq![CH341_CMD_I2C_STREAM, CH341_CMD_I2C_STM_STA]
}

/// The two bytes every complete frame ends with.
pub open spec fn frame_tail() -> Seq<u8> {
    seq![CH341_CMD_I2C_STM_STO, CH341_CMD_I2C_STM_END]
}

/// The frame that probes whether a device acknowledges `address`. Both of its
/// segment tags carry length zero: the adapter misbehaves on any other value here.
pub open spec fn check_frame(address: u8) -> Seq<u8> {
    frame_head() + seq![out_tag(0), address_byte(address, true), in_tag(false)] + frame_tail()
}

/// The command that sets the bus clock.
pub open spec fn speed_frame(speed: I2CSpeed) -> Seq<u8> {
    seq![CH341_CMD_I2C_STREAM, CH341_CMD_I2C_STM_SET | speed.spec_code(), CH341_CMD_I2C_STM_END]
}

/// The IN segments of a read of `n` bytes: one tag for each byte, all but the last
/// with the continuation flag. A read of no bytes has no IN segment.
pub open spec fn in_segments(n: nat) -> Seq<u8> {
    Seq::new(n, |i: int| in_tag(i + 1 < n))
}

/// The frame that reads `n` bytes from the device at `address`.
pub open spec fn read_frame(address: u8, n: nat) -> Seq<u8> {
    frame_head() + seq![out_tag(1), address_byte(address, true)] + in_segments(n) + frame_tail()
}

/// The opening of a write to the device at `address`: head, and one OUT segment that
/// carries the address byte and then the payload. It holds no STOP marker, so a frame
/// sent after it continues the same bus transaction with a repeated START.
pub open spec fn write_phase(address: u8, payload: Seq<u8>) -> Seq<u8> {
    frame_head() + seq![out_tag((1 + payload.len()) as u8), address_byte(address, false)]
        + payload
}

/// The frame that writes `payload` to the device at `address`.
pub open spec fn write_frame(address: u8, payload: Seq<u8>) -> Seq<u8> {
    write_phase(address, payload) + frame_tail()
}

/// Whether a read of `length` bytes can be encoded.
pub open spec fn read_fits(length: nat) -> bool {
    length <= MAX_READ_LEN
}

/// Whether a write of `length` payload bytes can be encoded: the OUT segment holds
/// one byte more than the payload, and its length field ends at 63.
pub open spec fn write_fits(length: nat) -> bool {
    length <= MAX_WRITE_LEN
}

/// Computes [`address_byte`].
pub fn make_address_byte(address: u8, read: bool) -> (b: u8)
    ensures
        b == address_byte(address, read),
{
    let shifted: u8 = address << 1;
    if read {
        shifted | 1
    } else {
        assert(shifted | 0u8 == shifted) by (bit_vector);
        shifted
    }
}

/// Builds the frame that probes whether a device acknowledges `address`.
pub fn encode_check(address: u8) -> (frame: Vec<u8>)
    ensures
        frame@ == check_frame(address),
        frame@.len() == 7,
{
    let mut frame: Vec<u8> = Vec::new();
    frame.push(CH341_CMD_I2C_STREAM);
    frame.push(CH341_CMD_I2C_STM_STA);
    frame.push(CH341_CMD_I2C_STM_OUT);
    frame.push(make_address_byte(address, true));
    frame.push(CH341_CMD_I2C_STM_IN);
    frame.push(CH341_CMD_I2C_STM_STO);
    frame.push(CH341_CMD_I2C_STM_END);
    assert(out_tag(0) == CH341_CMD_I2C_STM_OUT) by (bit_vector);
    assert(in_tag(false) == CH341_CMD_I2C_STM_IN) by (bit_vector);
    frame
}

/// Builds the command that sets the bus clock to `speed`.
pub fn encode_set_speed(speed: I2CSpeed) -> (frame: Vec<u8>)
    ensures
        frame@ == speed_frame(speed),
{
    let mut frame: Vec<u8> = Vec::new();
    frame.push(CH341_CMD_I2C_STREAM);
    frame.push(CH341_CMD_I2C_STM_SET | speed.code());
    frame.push(CH341_CMD_I2C_STM_END);
    frame
}

/// Builds the frame that reads `length` bytes from the device at `address`. A length
/// over [`MAX_READ_LEN`] is refused.
pub fn encode_read(address: u8, length: usize) -> (r: Result<Vec<u8>, Error>)
    ensures
        match r {
            Ok(frame) => read_fits(length as nat) && frame@ == read_frame(address, length as nat),
            Err(e) => !read_fits(length as nat) && e == Error::Encoding,
        },
{
    if length > MAX_READ_LEN {
        return Err(Error::Encoding);
    }
    let mut frame: Vec<u8> = Vec::new();
    frame.push(CH341_CMD_I2C_STREAM);
    frame.push(CH341_CMD_I2C_STM_STA);
    frame.push(CH341_CMD_I2C_STM_OUT | 1);
    frame.push(make_address_byte(address, true));
    let ghost start = frame@;
    let mut i: usize = 0;
    while i < length
        invariant
            i <= length <= MAX_READ_LEN,
            frame@ == start + in_segments(length as nat).take(i as int),
        decreases length - i,
    {
        let more = i + 1 < length;
        if more {
            frame.push(CH341_CMD_I2C_STM_IN | 1);
        } else {
            assert(in_tag(false) == CH341_CMD_I2C_STM_IN) by (bit_vector);
            frame.push(CH341_CMD_I2C_STM_IN);
        }
        i = i + 1;
    }
    frame.push(CH341_CMD_I2C_STM_STO);
    frame.push(CH341_CMD_I2C_STM_END);
    Ok(frame)
}

/// Builds the opening of a write, as the first half of a write followed by a read.
/// A payload over [`MAX_WRITE_LEN`] bytes is refused.
pub fn encode_write_phase(address: u8, payload: &[u8]) -> (r: Result<Vec<u8>, Error>)
    ensures
        match r {
            Ok(frame) => write_fits(payload@.len()) && frame@ == write_phase(address, payload@),
            Err(e) => !write_fits(payload@.len()) && e == Error::Encoding,
        },
{
    if payload.len() > MAX_WRITE_LEN {
        return Err(Error::Encoding);
    }
    let segment_len: u8 = (1 + payload.len()) as u8;
    let mut frame: Vec<u8> = Vec::new();
    frame.push(CH341_CMD_I2C_STREAM);
    frame.push(CH341_CMD_I2C_STM_STA);
    frame.push(CH341_CMD_I2C_STM_OUT | segment_len);
    frame.push(make_address_byte(address, false));
    frame.extend_from_slice(payload);
    Ok(frame)
}

/// Builds the frame that writes `payload` to the device at `address`. A payload over
/// [`MAX_WRITE_LEN`] bytes is refused.
pub fn encode_write(address: u8, payload: &[u8]) -> (r: Result<Vec<u8>, Error>)
    ensures
        match r {
            Ok(frame) => write_fits(payload@.len()) && frame@ == write_frame(address, payload@),
            Err(e) => !write_fits(payload@.len()) && e == Error::Encoding,
        },
{
    match encode_write_phase(address, payload) {
        Ok(mut frame) => {
            frame.push(CH341_CMD_I2C_STM_STO);
            frame.push(CH341_CMD_I2C_STM_END);
            Ok(frame)
        },
        Err(e) => Err(e),
    }
}

/// Builds the two frames of a write followed by a read within one bus transaction:
/// the opening of the write, and the frame that reads `length` bytes. Both are built
/// or neither: a payload over [`MAX_WRITE_LEN`] bytes or a length over
/// [`MAX_READ_LEN`] is refused.
pub fn encode_write_then_read(address: u8, payload: &[u8], length: usize) -> (r: Result<
    (Vec<u8>, Vec<u8>),
    Error,
>)
    ensures
        match r {
            Ok(frames) => {
                &&& write_fits(payload@.len())
                &&& read_fits(length as nat)
                &&& frames.0@ == write_phase(address, payload@)
                &&& frames.1@ == read_frame(address, length as nat)
            },
            Err(e) => !(write_fits(payload@.len()) && read_fits(length as nat)) && e
                == Error::Encoding,
        },
{
    match encode_write_phase(address, payload) {
        Ok(write) => match encode_read(address, length) {
            Ok(read) => Ok((write, read)),
            Err(e) => Err(e),
        },
        Err(e) => Err(e),
    }
}

/// For a seven-bit address the address byte is twice the address, plus one for a
/// read; the address and the direction can be read back from it.
pub proof fn law_address_byte_holds_address_and_direction(address: u8, read: bool)
    requires
        address <= 127,
    ensures
        address_byte(address, read) == 2 * address + (if read { 1int } else { 0int }),
        address_byte(address, read) >> 1 == address,
        (address_byte(address, read) & 1 == 1) == read,
{
    assert(address <= 127 ==> (address << 1) | 1u8 == 2 * address + 1 && (address << 1) | 0u8 == 2
        * address) by (bit_vector);
    assert(address <= 127 ==> ((address << 1) | 1u8) >> 1 == address && ((address << 1) | 0u8) >> 1
        == address) by (bit_vector);
    assert(((address << 1) | 1u8) & 1 == 1 && ((address << 1) | 0u8) & 1 == 0) by (bit_vector);
}

/// A segment tag with a length up to 63 is its base plus the length: the length can be
/// read back from the low six bits, and the top two bits tell OUT from IN.
pub proof fn law_out_tag_holds_length(length: u8)
    requires
        length <= MAX_SEGMENT_LEN,
    ensures
        out_tag(length) == 0x80 + length,
        out_tag(length) & 0x3f == length,
        out_tag(length) & 0xc0 == CH341_CMD_I2C_STM_OUT,
{
    assert(length <= 63 ==> 0x80u8 | length == 0x80 + length && (0x80u8 | length) & 0x3f == length
        && (0x80u8 | length) & 0xc0 == 0x80u8) by (bit_vector);
}

/// The tag of an IN segment is `0xC1` when more follow and `0xC0` for the last.
pub proof fn law_in_tag_values(more: bool)
    ensures
        in_tag(more) == (if more { 0xC1u8 } else { 0xC0u8 }),
        (in_tag(more) & 1 == 1) == more,
        in_tag(more) & 0xc0 == CH341_CMD_I2C_STM_IN,
{
    assert(0xC0u8 | 1u8 == 0xC1u8 && 0xC0u8 | 0u8 == 0xC0u8) by (bit_vector);
    assert(0xC1u8 & 1 == 1 && 0xC0u8 & 1 == 0 && 0xC1u8 & 0xc0 == 0xC0u8 && 0xC0u8 & 0xc0
        == 0xC0u8) by (bit_vector);
}

/// The probe frame is seven bytes, whatever the address: stream opcode, START, an OUT
/// tag of length zero, the address byte for a read, an IN tag of length zero, STOP
/// and the terminator.
pub proof fn law_check_frame_bytes(address: u8)
    ensures
        check_frame(address).len() == 7,
        check_frame(address) == seq![
            0xAAu8,
            0x74u8,
            0x80u8,
            address_byte(address, true),
            0xC0u8,
            0x75u8,
            0x00u8,
        ],
{
    law_out_tag_holds_length(0);
    law_in_tag_values(false);
}

/// The set-speed command is three bytes: stream opcode, `0x60` plus the speed code,
/// and the terminator.
pub proof fn law_speed_frame_bytes(speed: I2CSpeed)
    ensures
        speed_frame(speed) == seq![0xAAu8, (0x60 + speed.spec_code()) as u8, 0x00u8],
{
    let code = speed.spec_code();
    assert(code <= 3 ==> 0x60u8 | code == 0x60 + code) by (bit_vector);
}

/// Layout of the frame that reads `n` bytes, for `n` from 1 to [`MAX_READ_LEN`]: four
/// opening bytes, of which the third is an OUT tag of length one and the fourth the
/// address byte for a read; then `n` IN segments, of which the first `n - 1` carry the
/// continuation flag and the last does not; then STOP and the terminator.
pub proof fn law_read_frame_layout(address: u8, n: nat)
    requires
        1 <= n <= MAX_READ_LEN,
    ensures
        read_frame(address, n).len() == n + 6,
        read_frame(address, n).take(4) == seq![0xAAu8, 0x74u8, 0x81u8, address_byte(address, true)],
        read_frame(address, n).subrange(4, 4 + n as int) == in_segments(n),
        in_segments(n).len() == vstd::math::max(n as int, 1),
        forall|i: int| 0 <= i < n - 1 ==> #[trigger] in_segments(n)[i] == 0xC1u8,
        in_segments(n)[n - 1] == 0xC0u8,
        read_frame(address, n).skip(4 + n as int) == seq![0x75u8, 0x00u8],
{
    law_out_tag_holds_length(1);
    law_in_tag_values(true);
    law_in_tag_values(false);
}

/// The frame that reads no bytes holds no IN segment: it only addresses the device.
pub proof fn law_read_of_nothing(address: u8)
    ensures
        in_segments(0).len() == 0,
        read_frame(address, 0) == seq![
            0xAAu8,
            0x74u8,
            0x81u8,
            address_byte(address, true),
            0x75u8,
            0x00u8,
        ],
{
    law_out_tag_holds_length(1);
}

/// Layout of the frame that writes `payload`, for payloads up to [`MAX_WRITE_LEN`] bytes:
/// stream opcode and START; an OUT tag whose length field is the payload's length plus
/// one; the address byte for a write; the payload unchanged; STOP and the terminator.
pub proof fn law_write_frame_layout(address: u8, payload: Seq<u8>)
    requires
        payload.len() <= MAX_WRITE_LEN,
    ensures
        write_frame(address, payload).len() == payload.len() + 6,
        write_frame(address, payload).take(2) == seq![0xAAu8, 0x74u8],
        write_frame(address, payload)[2] == 0x80 + 1 + payload.len(),
        write_frame(address, payload)[2] & 0x3f == 1 + payload.len(),
        write_frame(address, payload)[3] == address_byte(address, false),
        write_frame(address, payload).subrange(4, 4 + payload.len() as int) == payload,
        write_frame(address, payload).skip(4 + payload.len() as int) == seq![0x75u8, 0x00u8],
        write_phase(address, payload) == write_frame(address, payload).take(4 + payload.len() as int),
{
    law_out_tag_holds_length((1 + payload.len()) as u8);
}

/// Whether `stream` starts with the stream opcode and START and ends with STOP and the
/// terminator.
pub open spec fn is_delimited(stream: Seq<u8>) -> bool {
    &&& stream.len() >= 4
    &&& stream.take(2) == frame_head()
    &&& stream.skip(stream.len() - 2) == frame_tail()
}

/// Every bus transaction is delimited: the probe, a read, a write, and a write
/// followed by a read, whose two frames go out one after the other.
pub proof fn law_transactions_are_delimited(address: u8, payload: Seq<u8>, n: nat)
    ensures
        is_delimited(check_frame(address)),
        is_delimited(read_frame(address, n)),
        is_delimited(write_frame(address, payload)),
        is_delimited(write_phase(address, payload) + read_frame(address, n)),
{
    let c = check_frame(address);
    assert(c.take(2) =~= frame_head());
    assert(c.skip(c.len() - 2) =~= frame_tail());
    let r = read_frame(address, n);
    assert(r.take(2) =~= frame_head());
    assert(r.skip(r.len() - 2) =~= frame_tail());
    let w = write_frame(address, payload);
    assert(w.take(2) =~= frame_head());
    assert(w.skip(w.len() - 2) =~= frame_tail());
    let wr = write_phase(address, payload) + r;
    assert(wr.take(2) =~= frame_head());
    assert(wr.skip(wr.len() - 2) =~= frame_tail());
}

/// A length is refused exactly when the length field it would be written into, or the
/// number of bytes it asks for, would exceed 63.
pub proof fn law_refused_lengths(payload_len: nat, read_len: nat)
    ensures
        write_fits(payload_len) <==> 1 + payload_len <= MAX_SEGMENT_LEN,
        read_fits(read_len) <==> read_len <= MAX_SEGMENT_LEN,
{
}

} // verus!
