use vcb_audio::catalog::DeviceInfo;
use vcb_audio::format::{AudioFormat, SampleRepresentation};
use vcb_audio::session::CaptureSession;
use vcb_audio::CaptureError;

fn catalog() -> Vec<DeviceInfo> {
    vec![
        DeviceInfo {
            name: "mono-mic".to_string(),
            supported_rates: vec![48000],
            default_format: AudioFormat {
                sample_rate: 48000,
                channel_count: 1,
                representation: SampleRepresentation::Unsigned16,
            },
        },
        DeviceInfo {
            name: "stereo-mic".to_string(),
            supported_rates: vec![48000, 96000],
            default_format: AudioFormat {
                sample_rate: 48000,
                channel_count: 2,
                representation: SampleRepresentation::Signed16,
            },
        },
    ]
}

fn session(name: &str, capacity: usize) -> CaptureSession {
    CaptureSession::new(&catalog(), &name.to_string(), capacity).unwrap()
}

#[test]
fn new_resolves_device_and_starts_closed() {
    let s = session("stereo-mic", 16);
    assert!(!s.is_open());
    assert_eq!(s.format().sample_rate, 48000);
    assert_eq!(s.format().channel_count, 2);
}

#[test]
fn new_unknown_device_fails() {
    let r = CaptureSession::new(&catalog(), &"virtual-cable".to_string(), 16);
    assert!(matches!(r, Err(CaptureError::DeviceNotFound)));
}

#[test]
fn close_before_open_reports_precondition_error() {
    let mut s = session("mono-mic", 16);
    assert_eq!(s.close(), Err(CaptureError::Close));
    assert!(!s.is_open());
}

#[test]
fn open_then_close_leaves_session_closed() {
    let mut s = session("mono-mic", 16);
    assert_eq!(s.open(true), Ok(()));
    assert!(s.is_open());
    assert_eq!(s.close(), Ok(()));
    assert!(!s.is_open());
    assert_eq!(s.close(), Err(CaptureError::Close));
}

#[test]
fn double_open_is_guarded() {
    let mut s = session("mono-mic", 16);
    assert_eq!(s.open(true), Ok(()));
    assert_eq!(s.open(true), Err(CaptureError::AlreadyOpen));
    assert!(s.is_open());
}

#[test]
fn rejected_stream_leaves_session_closed_and_reusable() {
    let mut s = session("mono-mic", 16);
    assert_eq!(s.open(false), Err(CaptureError::StreamBuild));
    assert!(!s.is_open());
    assert_eq!(s.open(true), Ok(()));
    assert!(s.is_open());
}

#[test]
fn stereo_flag_follows_channel_count() {
    assert!(session("stereo-mic", 16).is_stereo());
    assert!(!session("mono-mic", 16).is_stereo());
}

#[test]
fn unsigned_buffers_are_normalized_in_order() {
    let mut s = session("mono-mic", 16);
    let n = s.deliver_unsigned(&vec![32768u16, 32769, 32767, 0, 65535]);
    assert_eq!(n, 5);
    assert_eq!(s.try_read_sample(), Some(0));
    assert_eq!(s.try_read_sample(), Some(1));
    assert_eq!(s.try_read_sample(), Some(-1));
    assert_eq!(s.try_read_sample(), Some(i16::MIN));
    assert_eq!(s.try_read_sample(), Some(i16::MAX));
    assert_eq!(s.try_read_sample(), None);
}

#[test]
fn signed_buffers_pass_through_unchanged() {
    let mut s = session("stereo-mic", 16);
    let n = s.deliver_signed(&vec![7i16, -7, 0]);
    assert_eq!(n, 3);
    assert_eq!(s.try_read_sample(), Some(7));
    assert_eq!(s.try_read_sample(), Some(-7));
    assert_eq!(s.try_read_sample(), Some(0));
    assert_eq!(s.try_read_sample(), None);
}

#[test]
fn read_on_empty_never_fabricates_a_sample() {
    let mut s = session("mono-mic", 16);
    assert_eq!(s.try_read_sample(), None);
    let n = s.deliver_signed(&vec![42i16]);
    assert_eq!(n, 1);
    assert_eq!(s.try_read_sample(), Some(42));
}

#[test]
fn blocked_producer_retries_without_loss_or_duplication() {
    let mut s = session("mono-mic", 2);
    let buffer = vec![1i16, 2, 3];
    let taken = s.deliver_signed(&buffer);
    assert_eq!(taken, 2);
    let mut read: Vec<i16> = Vec::new();
    read.push(s.try_read_sample().unwrap());
    let rest: Vec<i16> = buffer[taken..].to_vec();
    assert_eq!(s.deliver_signed(&rest), 1);
    while let Some(x) = s.try_read_sample() {
        read.push(x);
    }
    assert_eq!(read, vec![1, 2, 3]);
}
