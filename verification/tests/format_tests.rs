use byteorder::{ByteOrder, LittleEndian};
use vcb_audio::format::{center_unsigned, sample_to_le_bytes, AudioFormat, SampleRepresentation};

#[test]
fn unsigned_midpoint_converts_to_zero() {
    assert_eq!(center_unsigned(32768), 0i16);
}

#[test]
fn unsigned_extremes_convert_to_signed_extremes() {
    assert_eq!(center_unsigned(0), i16::MIN);
    assert_eq!(center_unsigned(65535), i16::MAX);
    assert_eq!(center_unsigned(32769), 1i16);
    assert_eq!(center_unsigned(32767), -1i16);
}

#[test]
fn stereo_flag_two_channels() {
    let f = AudioFormat {
        sample_rate: 48000,
        channel_count: 2,
        representation: SampleRepresentation::Signed16,
    };
    assert!(f.stereo());
}

#[test]
fn stereo_flag_one_channel() {
    let f = AudioFormat {
        sample_rate: 48000,
        channel_count: 1,
        representation: SampleRepresentation::Signed16,
    };
    assert!(!f.stereo());
}

#[test]
fn le_bytes_exact_values() {
    assert_eq!(sample_to_le_bytes(0), (0u8, 0u8));
    assert_eq!(sample_to_le_bytes(1), (1u8, 0u8));
    assert_eq!(sample_to_le_bytes(0x1234), (0x34u8, 0x12u8));
    assert_eq!(sample_to_le_bytes(-1), (0xffu8, 0xffu8));
    assert_eq!(sample_to_le_bytes(-2), (0xfeu8, 0xffu8));
    assert_eq!(sample_to_le_bytes(i16::MIN), (0x00u8, 0x80u8));
    assert_eq!(sample_to_le_bytes(i16::MAX), (0xffu8, 0x7fu8));
}

#[test]
fn le_bytes_match_byteorder() {
    let samples = [i16::MIN, -12345, -2, -1, 0, 1, 257, 12345, i16::MAX];
    for &s in samples.iter() {
        let mut buf = [0u8; 2];
        LittleEndian::write_i16(&mut buf, s);
        let (low, high) = sample_to_le_bytes(s);
        assert_eq!((low, high), (buf[0], buf[1]));
    }
}
