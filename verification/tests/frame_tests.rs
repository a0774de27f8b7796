use std::cell::RefCell;
use std::convert::Infallible;
use std::rc::Rc;
use std::task::Poll;

use lynx_embedded::error::AuthError;
use lynx_embedded::frame::{build_command_frame, is_ack_frame, parse_response};

/// A response frame around `payload` for response code `code`, zero
/// padded to `total` bytes as a full-length bus read would deliver it.
fn response_frame(code: u8, payload: &[u8], total: usize) -> Vec<u8> {
    let mut f = vec![0u8, 0, 0xFF];
    let len = (payload.len() + 2) as u8;
    f.push(len);
    f.push(len.wrapping_neg());
    f.push(0xD5);
    f.push(code);
    f.extend_from_slice(payload);
    let sum = 0xD5u32 + code as u32 + payload.iter().map(|&b| b as u32).sum::<u32>();
    f.push((sum as u8).wrapping_neg());
    f.push(0);
    while f.len() < total {
        f.push(0);
    }
    f
}

#[test]
fn firmware_version_command_frame_bytes() {
    let f = build_command_frame(0x02, &[]);
    assert_eq!(f, vec![0x00, 0x00, 0xFF, 0x02, 0xFE, 0xD4, 0x02, 0x2A, 0x00]);
}

#[test]
fn detection_command_frame_bytes() {
    let f = build_command_frame(0x4A, &[1, 0]);
    assert_eq!(f, vec![0x00, 0x00, 0xFF, 0x04, 0xFC, 0xD4, 0x4A, 0x01, 0x00, 0xE1, 0x00]);
}

#[test]
fn ack_frame_is_recognized() {
    assert!(is_ack_frame(&[0x00, 0x00, 0xFF, 0x00, 0xFF, 0x00]));
    assert!(!is_ack_frame(&[0x00, 0x00, 0xFF, 0x00, 0xFF, 0x01]));
    assert!(!is_ack_frame(&[0x00, 0x00, 0xFF, 0x00, 0xFF]));
    assert!(!is_ack_frame(&[]));
}

#[test]
fn response_roundtrip_parses_payload() {
    let buf = response_frame(0x03, &[1, 2, 3, 4], 13);
    let payload = parse_response(&buf, 0x03).expect("well-formed frame must parse");
    assert_eq!(payload, vec![1, 2, 3, 4]);
}

#[test]
fn response_with_bad_checksum_is_rejected() {
    let mut buf = response_frame(0x03, &[1, 2, 3, 4], 13);
    let dcs = buf.len() - 2;
    buf[dcs] ^= 0x01;
    assert_eq!(parse_response(&buf, 0x03), Err(AuthError::BadResponseFrame));
}

#[test]
fn response_with_bad_length_checksum_is_rejected() {
    let mut buf = response_frame(0x03, &[1, 2, 3, 4], 13);
    buf[4] ^= 0x10;
    assert_eq!(parse_response(&buf, 0x03), Err(AuthError::BadResponseFrame));
}

#[test]
fn response_for_another_command_is_rejected() {
    let buf = response_frame(0x15, &[], 9);
    assert_eq!(parse_response(&buf, 0x03), Err(AuthError::BadResponseFrame));
}

#[test]
fn response_without_preamble_is_rejected() {
    let mut buf = response_frame(0x03, &[1, 2, 3, 4], 13);
    buf[2] = 0x00;
    assert_eq!(parse_response(&buf, 0x03), Err(AuthError::BadResponseFrame));
}

#[test]
fn response_longer_than_buffer_is_rejected() {
    // A frame whose declared length runs past what was read.
    let buf = response_frame(0x03, &[1, 2, 3, 4], 13);
    assert_eq!(parse_response(&buf[..10], 0x03), Err(AuthError::BadResponseFrame));
}

struct CaptureInterface {
    writes: Rc<RefCell<Vec<Vec<u8>>>>,
}

impl pn532::Interface for CaptureInterface {
    type Error = Infallible;

    fn write(&mut self, frame: &mut [u8]) -> Result<(), Infallible> {
        self.writes.borrow_mut().push(frame.to_vec());
        Ok(())
    }

    fn wait_ready(&mut self) -> Poll<Result<(), Infallible>> {
        Poll::Pending
    }

    fn read(&mut self, _buf: &mut [u8]) -> Result<(), Infallible> {
        Ok(())
    }
}

struct ExpiredTimer;

impl pn532::CountDown for ExpiredTimer {
    type Time = u64;

    fn start<T: Into<u64>>(&mut self, _count: T) {}

    fn wait(&mut self) -> pn532::nb::Result<(), Infallible> {
        Ok(())
    }
}

#[test]
fn command_frames_match_the_reference_driver() {
    let writes = Rc::new(RefCell::new(Vec::new()));
    let mut device: pn532::Pn532<CaptureInterface, ExpiredTimer, 32> =
        pn532::Pn532::new(CaptureInterface { writes: writes.clone() }, ExpiredTimer);

    let _ = device.process(&pn532::Request::GET_FIRMWARE_VERSION, 4, 0u64);
    let _ = device.process(&pn532::Request::INLIST_ONE_ISO_A_TARGET, 4, 0u64);

    let captured = writes.borrow();
    assert_eq!(captured[0], build_command_frame(0x02, &[]));
    assert_eq!(captured[1], build_command_frame(0x4A, &[1, 0]));
}
