use sntp_client::packet::build_request;
use sntp_client::packet::decode_response;
use sntp_client::packet::u8_as_i8;
use sntp_client::DecodeError;
use sntp_client::LeapIndicator;
use sntp_client::Mode;
use sntp_client::Version;

/// A 48-byte response whose header byte is 0x23 (leap 0, version 4, mode 3),
/// stratum 2, precision byte 0xFF (-1), transmit seconds 2208988900 (NTP
/// epoch, i.e. 100 seconds past the Unix epoch) and fraction 1000.
fn sample_response() -> Vec<u8> {
    let mut buf = vec![0u8; 48];
    buf[0] = 0x23;
    buf[1] = 2;
    buf[3] = 0xFF;
    // 2208988900 = 0x83AA7EE4, big-endian
    buf[40] = 0x83;
    buf[41] = 0xAA;
    buf[42] = 0x7E;
    buf[43] = 0xE4;
    // 1000 = 0x3E8, big-endian
    buf[46] = 0x03;
    buf[47] = 0xE8;
    buf
}

#[test]
fn request_is_48_bytes_with_only_the_header_set() {
    let req = build_request();
    assert_eq!(req.len(), 48);
    assert_eq!(req[0], 0xE3);
    assert_eq!(req[0], (3 << 6) | (4 << 3) | 3);
    for i in 1..48 {
        assert_eq!(req[i], 0);
    }
}

#[test]
fn decode_extracts_every_modeled_field() {
    let resp = decode_response(&sample_response()).unwrap();
    assert_eq!(resp.leap_indicator, LeapIndicator::NoWarning);
    assert_eq!(resp.version, Version::V4);
    assert_eq!(resp.mode, Mode::Client);
    assert_eq!(resp.stratum, 2);
    assert_eq!(resp.precision, -1);
    assert_eq!(resp.trans_ts, 100);
    assert_eq!(resp.trans_ts_frac, 1000);
}

#[test]
fn decode_is_idempotent() {
    let buf = sample_response();
    let first = decode_response(&buf).unwrap();
    let second = decode_response(&buf).unwrap();
    assert_eq!(first, second);
}

#[test]
fn wrong_length_buffers_are_rejected() {
    for len in [0usize, 1, 47, 49, 100] {
        let buf = vec![0u8; len];
        assert_eq!(decode_response(&buf), Err(DecodeError::WrongLength));
    }
}

#[test]
fn timestamp_before_unix_epoch_is_rejected() {
    // transmit seconds of zero lie before the Unix epoch
    let buf = vec![0u8; 48];
    assert_eq!(
        decode_response(&buf),
        Err(DecodeError::TimestampBeforeUnixEpoch)
    );
    // the smallest accepted value maps to Unix epoch zero
    let mut buf = vec![0u8; 48];
    buf[40] = 0x83;
    buf[41] = 0xAA;
    buf[42] = 0x7E;
    buf[43] = 0x80;
    let resp = decode_response(&buf).unwrap();
    assert_eq!(resp.trans_ts, 0);
    // one less underflows
    let mut buf = vec![0u8; 48];
    buf[40] = 0x83;
    buf[41] = 0xAA;
    buf[42] = 0x7E;
    buf[43] = 0x7F;
    assert_eq!(
        decode_response(&buf),
        Err(DecodeError::TimestampBeforeUnixEpoch)
    );
}

#[test]
fn header_bits_are_disjoint() {
    // each header field is extracted from its own bit range of byte 0
    let mut buf = sample_response();
    buf[0] = 0b11_100_011; // leap 3, version 4, mode 3
    let resp = decode_response(&buf).unwrap();
    assert_eq!(resp.leap_indicator, LeapIndicator::AlarmCondition);
    assert_eq!(resp.version, Version::V4);
    assert_eq!(resp.mode, Mode::Client);

    buf[0] = 0b01_011_101; // leap 1, version 3 (unrecognized), mode 5
    let resp = decode_response(&buf).unwrap();
    assert_eq!(resp.leap_indicator, LeapIndicator::LastSixtyOne);
    assert_eq!(resp.version, Version::Unknown);
    assert_eq!(resp.mode, Mode::Broadcast);
}

#[test]
fn precision_reinterprets_the_bit_pattern() {
    assert_eq!(u8_as_i8(0x00), 0);
    assert_eq!(u8_as_i8(0x7F), 127);
    assert_eq!(u8_as_i8(0x80), -128);
    assert_eq!(u8_as_i8(0xFF), -1);
    assert_eq!(u8_as_i8(0xEC), -20);
}

#[test]
fn rendering_matches_the_fixed_layout() {
    let resp = decode_response(&sample_response()).unwrap();
    let text = resp.render();
    let expected = "Leap indicator: No warning\nVersion number: 4\n Response mode: Client\n       Stratum: 2\n     Precision: -1\n    UNIX epoch: 100.1000";
    assert_eq!(text.as_str(), expected);
}

#[test]
fn rendering_is_deterministic() {
    let resp = decode_response(&sample_response()).unwrap();
    let first = resp.render();
    let second = resp.render();
    assert_eq!(first, second);
}
