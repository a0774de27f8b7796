//! Wire format of the card-interface controller: command frames, the
//! acknowledge frame, and the layout checks of a response frame.
//!
//! A command frame is
//! `00 00 FF LEN LCS D4 CMD DATA... DCS 00`, where `LEN` counts the
//! direction byte, the command byte and the data, `LCS` makes
//! `LEN + LCS` vanish modulo 256, and `DCS` does the same for the sum of
//! the direction byte, the command byte and the data.  A response frame
//! has the same shape with direction byte `D5` and the response command
//! code; nine bytes of every frame are overhead around the payload.

use vstd::prelude::*;
use vstd::slice::{slice_subrange, slice_to_vec};

use crate::error::AuthError;

verus! {

/// Direction byte of a frame sent to the controller.
pub const HOST_TO_CONTROLLER: u8 = 0xD4;

/// Direction byte of a frame received from the controller.
pub const CONTROLLER_TO_HOST: u8 = 0xD5;

/// Bytes of overhead a frame adds around its payload: preamble, length
/// and its checksum, direction byte, command byte, data checksum and
/// postamble.
pub const FRAME_OVERHEAD: usize = 9;

/// Largest number of data bytes one frame can carry, so that the
/// length byte does not wrap.
pub const MAX_FRAME_DATA: usize = 253;

/// Sum of the bytes of `s`, unreduced.
pub open spec fn byte_sum(s: Seq<u8>) -> int
    decreases s.len(),
{
    if s.len() == 0 {
        0
    } else {
        byte_sum(s.drop_last()) + s.last()
    }
}

/// The byte that brings a sum of `n` to zero modulo 256.
pub open spec fn checksum_byte(n: int) -> u8 {
    ((256 - (n % 256)) % 256) as u8
}

/// The frame carrying `data` under `code` in the given direction:
/// preamble, length and its checksum, direction and code bytes, the
/// data, its checksum and the postamble.
pub open spec fn framed(direction: u8, code: u8, data: Seq<u8>) -> Seq<u8> {
    seq![
        0u8,
        0u8,
        0xFFu8,
        (data.len() + 2) as u8,
        checksum_byte(data.len() + 2int),
        direction,
        code,
    ] + data + seq![checksum_byte(direction + code + byte_sum(data)), 0u8]
}

/// The command frame carrying command `cmd` and data `data`.
pub open spec fn command_frame(cmd: u8, data: Seq<u8>) -> Seq<u8> {
    framed(HOST_TO_CONTROLLER, cmd, data)
}

/// The six-byte acknowledge frame.
pub open spec fn ack_frame() -> Seq<u8> {
    seq![0u8, 0u8, 0xFFu8, 0u8, 0xFFu8, 0u8]
}

/// Whether `buf` begins with a well-formed response frame to a command
/// whose response code is `expected_cmd`: intact preamble, consistent
/// length and checksums, the right direction and command bytes, a
/// payload-carrying length, and the postamble in place.
pub open spec fn response_well_formed(buf: Seq<u8>, expected_cmd: u8) -> bool {
    let flen = buf[3] as int;
    &&& buf.len() >= 9
    &&& buf[0] == 0u8
    &&& buf[1] == 0u8
    &&& buf[2] == 0xFFu8
    &&& (buf[3] + buf[4]) % 256 == 0
    &&& buf[3] >= 2
    &&& 6 + flen < buf.len()
    &&& buf[6 + flen] == 0u8
    &&& buf[5] == CONTROLLER_TO_HOST
    &&& buf[6] == expected_cmd
    &&& byte_sum(buf.subrange(5, 6 + flen)) % 256 == 0
}

/// The payload of a well-formed response frame: what stands between the
/// command byte and the data checksum.
pub open spec fn response_payload(buf: Seq<u8>) -> Seq<u8> {
    buf.subrange(7, 5 + buf[3] as int)
}

/// The response frame carrying `payload` under response code `code`.
pub open spec fn response_frame(code: u8, payload: Seq<u8>) -> Seq<u8> {
    framed(CONTROLLER_TO_HOST, code, payload)
}

/// Sums of adjacent slices of bytes extend one byte at a time.
proof fn lemma_byte_sum_extend(s: Seq<u8>, a: int, j: int)
    requires
        0 <= a <= j < s.len(),
    ensures
        byte_sum(s.subrange(a, j + 1)) == byte_sum(s.subrange(a, j)) + s[j],
{
    assert(s.subrange(a, j + 1).drop_last() =~= s.subrange(a, j));
    assert(s.subrange(a, j + 1).last() == s[j]);
}

/// A sum of bytes splits over concatenation.
proof fn lemma_byte_sum_concat(a: Seq<u8>, b: Seq<u8>)
    ensures
        byte_sum(a + b) == byte_sum(a) + byte_sum(b),
    decreases b.len(),
{
    if b.len() == 0 {
        assert(a + b =~= a);
    } else {
        assert((a + b).drop_last() =~= a + b.drop_last());
        assert((a + b).last() == b.last());
        lemma_byte_sum_concat(a, b.drop_last());
    }
}

/// A sum of bytes is never negative.
proof fn lemma_byte_sum_nonneg(s: Seq<u8>)
    ensures
        byte_sum(s) >= 0,
    decreases s.len(),
{
    if s.len() > 0 {
        lemma_byte_sum_nonneg(s.drop_last());
    }
}

/// Both checksums of a frame vanish modulo 256: the length byte against
/// its checksum, and the direction byte, the code and the data against
/// the data checksum.  Every frame the driver builds is therefore
/// acceptable under the controller's documented checks.
pub proof fn lemma_frame_checksums(direction: u8, code: u8, data: Seq<u8>)
    requires
        data.len() <= MAX_FRAME_DATA,
    ensures
        ({
            let f = framed(direction, code, data);
            &&& f.len() == data.len() + FRAME_OVERHEAD
            &&& (f[3] + f[4]) % 256 == 0
            &&& byte_sum(f.subrange(5, 6 + f[3] as int)) % 256 == 0
        }),
{
    let f = framed(direction, code, data);
    let flen: int = data.len() as int + 2;
    assert(f[3] == flen as u8);

    let dcs = checksum_byte(direction + code + byte_sum(data));
    let body = f.subrange(5, 6 + flen);
    assert(body =~= seq![direction, code] + data + seq![dcs]);
    lemma_byte_sum_concat(seq![direction, code] + data, seq![dcs]);
    lemma_byte_sum_concat(seq![direction, code], data);
    assert(byte_sum(Seq::<u8>::empty()) == 0);
    assert(seq![direction].drop_last() =~= Seq::<u8>::empty());
    assert(byte_sum(seq![direction]) == direction);
    assert(seq![direction, code].drop_last() =~= seq![direction]);
    assert(byte_sum(seq![direction, code]) == direction + code);
    assert(seq![dcs].drop_last() =~= Seq::<u8>::empty());
    assert(byte_sum(seq![dcs]) == dcs);
    lemma_byte_sum_nonneg(data);
}

/// Round trip of the wire format: every response frame of the documented
/// shape passes the layout checks, and the checks recover exactly the
/// payload it carries.  The checks reject nothing the format allows.
pub proof fn lemma_response_frame_round_trip(code: u8, payload: Seq<u8>)
    requires
        payload.len() <= MAX_FRAME_DATA,
    ensures
        response_well_formed(response_frame(code, payload), code),
        response_payload(response_frame(code, payload)) == payload,
{
    lemma_frame_checksums(CONTROLLER_TO_HOST, code, payload);
    let f = response_frame(code, payload);
    let flen: int = payload.len() as int + 2;
    assert(f[3] == flen as u8);
    assert(f[6 + flen] == 0u8);
    assert(response_payload(f) =~= payload);
}

/// A vector of `n` zero bytes, to be filled by a read.
pub(crate) fn zero_vec(n: usize) -> (r: Vec<u8>)
    ensures
        r@.len() == n,
{
    let mut r: Vec<u8> = Vec::new();
    while r.len() < n
        invariant
            r@.len() <= n,
        decreases n - r@.len(),
    {
        r.push(0);
    }
    r
}

/// Builds the command frame for `cmd` with data `data`.
pub fn build_command_frame(cmd: u8, data: &[u8]) -> (r: Vec<u8>)
    requires
        data@.len() <= MAX_FRAME_DATA,
    ensures
        r@ == command_frame(cmd, data@),
        r@.len() == data@.len() + FRAME_OVERHEAD,
{
    let data_len = data.len();
    let frame_len: u8 = (data_len + 2) as u8;

    let mut sum: u32 = HOST_TO_CONTROLLER as u32 + cmd as u32;
    let mut i: usize = 0;
    while i < data_len
        invariant
            0 <= i <= data_len,
            data_len == data@.len() <= MAX_FRAME_DATA,
            sum == HOST_TO_CONTROLLER + cmd + byte_sum(data@.subrange(0, i as int)),
            sum <= 510 + 255 * i,
        decreases data_len - i,
    {
        proof {
            lemma_byte_sum_extend(data@, 0, i as int);
        }
        sum = sum + data[i] as u32;
        i = i + 1;
    }
    proof {
        assert(data@.subrange(0, data_len as int) =~= data@);
    }

    let mut r: Vec<u8> = Vec::new();
    r.push(0);
    r.push(0);
    r.push(0xFF);
    r.push(frame_len);
    r.push(((256 - (frame_len as usize % 256)) % 256) as u8);
    r.push(HOST_TO_CONTROLLER);
    r.push(cmd);
    r.extend_from_slice(data);
    r.push(((256 - (sum as usize % 256)) % 256) as u8);
    r.push(0);

    proof {
        assert(r@ =~= command_frame(cmd, data@));
    }
    r
}

/// Returns whether `buf` is exactly the acknowledge frame.
pub fn is_ack_frame(buf: &[u8]) -> (r: bool)
    ensures
        r == (buf@ == ack_frame()),
{
    if buf.len() != 6 {
        proof {
            assert(buf@ != ack_frame());
        }
        return false;
    }
    let ok = buf[0] == 0 && buf[1] == 0 && buf[2] == 0xFF && buf[3] == 0 && buf[4] == 0xFF
        && buf[5] == 0;
    proof {
        if ok {
            assert(buf@ =~= ack_frame());
        } else {
            assert(buf@ != ack_frame());
        }
    }
    ok
}

/// Checks the layout of a response frame to a command whose response
/// code is `expected_cmd` and extracts its payload.  Every malformation
/// is surfaced as `BadResponseFrame`.
pub fn parse_response(buf: &[u8], expected_cmd: u8) -> (r: Result<Vec<u8>, AuthError>)
    requires
        buf@.len() >= FRAME_OVERHEAD,
    ensures
        r is Ok <==> response_well_formed(buf@, expected_cmd),
        r matches Ok(p) ==> p@ == response_payload(buf@),
        r matches Err(e) ==> e == AuthError::BadResponseFrame,
{
    if !(buf[0] == 0 && buf[1] == 0 && buf[2] == 0xFF) {
        return Err(AuthError::BadResponseFrame);
    }
    let flen_byte = buf[3];
    if (flen_byte as usize + buf[4] as usize) % 256 != 0 {
        return Err(AuthError::BadResponseFrame);
    }
    if flen_byte < 2 {
        return Err(AuthError::BadResponseFrame);
    }
    let flen = flen_byte as usize;
    if 6 + flen >= buf.len() {
        return Err(AuthError::BadResponseFrame);
    }
    if buf[6 + flen] != 0 {
        return Err(AuthError::BadResponseFrame);
    }
    if buf[5] != CONTROLLER_TO_HOST || buf[6] != expected_cmd {
        return Err(AuthError::BadResponseFrame);
    }

    let mut sum: u32 = 0;
    let mut j: usize = 5;
    while j < 6 + flen
        invariant
            5 <= j <= 6 + flen,
            6 + flen < buf@.len(),
            flen <= 255,
            sum == byte_sum(buf@.subrange(5, j as int)),
            sum <= 255 * (j - 5),
        decreases 6 + flen - j,
    {
        proof {
            lemma_byte_sum_extend(buf@, 5, j as int);
        }
        sum = sum + buf[j] as u32;
        j = j + 1;
    }
    if sum % 256 != 0 {
        return Err(AuthError::BadResponseFrame);
    }

    let payload = slice_to_vec(slice_subrange(buf, 7, 5 + flen));
    Ok(payload)
}

} // verus!
