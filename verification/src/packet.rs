//! Packet model: building the outgoing 48-byte request, decoding an incoming
//! 48-byte response into a structured record, and rendering that record as
//! multi-line text.
//!
//! Wire layout relied on here: byte 0 packs the leap indicator (bits 7-6),
//! version (bits 5-3) and mode (bits 2-0); byte 1 is the stratum; byte 3 the
//! signed precision; bytes 40-43 the transmit-timestamp seconds (big-endian,
//! NTP epoch) and bytes 44-47 its fraction. All other bytes are present in
//! the protocol but deliberately unused by this client.

use vstd::prelude::*;
use vstd::string::StringExecFns;
use byteorder::BigEndian;
use byteorder::ByteOrder;
use crate::codec::LeapIndicator;
use crate::codec::Mode;
use crate::codec::Version;
use crate::codec::decode_leap;
use crate::codec::decode_mode;
use crate::codec::decode_version;
use crate::codec::encode_leap;
use crate::codec::encode_mode;
use crate::codec::encode_version;
use crate::codec::leap_text;
use crate::codec::mode_text;
use crate::codec::spec_decode_leap;
use crate::codec::spec_decode_mode;
use crate::codec::spec_decode_version;
use crate::codec::spec_encode_leap;
use crate::codec::spec_encode_mode;
use crate::codec::spec_encode_version;
use crate::codec::spec_leap_text;
use crate::codec::spec_mode_text;
use crate::codec::spec_version_text;
use crate::codec::version_text;
use crate::numtext::i8_to_dec;
use crate::numtext::spec_dec_digits;
use crate::numtext::spec_signed_dec;
use crate::numtext::u32_to_dec;

verus! {

/// Seconds between the NTP epoch (1900-01-01) and the Unix epoch
/// (1970-01-01).
pub const NTP_UNIX_OFFSET: u32 = 2208988800;

/// Every SNTP packet, request or response, is exactly this many bytes.
pub const PACKET_LEN: usize = 48;

/// The fields this client reads out of a response packet. The remaining
/// packet fields (poll, root delay, dispersion, reference ID, the other
/// three timestamps) are deliberately not modeled.
#[derive(Clone, Copy, Debug, PartialEq, Eq, Structural)]
pub struct SNTPResponse {
    pub leap_indicator: LeapIndicator,
    pub version: Version,
    pub mode: Mode,
    /// Distance from the reference clock, byte 1, passed through raw.
    pub stratum: u8,
    /// Signed log2 of the server clock resolution in seconds, byte 3.
    pub precision: i8,
    /// Transmit-timestamp seconds converted to the Unix epoch.
    pub trans_ts: u32,
    /// Transmit-timestamp fraction, 1/2^32 units, passed through raw.
    pub trans_ts_frac: u32,
}

/// Why a response buffer was rejected.
#[derive(Clone, Copy, Debug, PartialEq, Eq, Structural)]
pub enum DecodeError {
    /// The buffer is not exactly 48 bytes long.
    WrongLength,
    /// The transmit timestamp lies before the Unix epoch, so converting it
    /// would underflow. The conversion is checked rather than wrapping.
    TimestampBeforeUnixEpoch,
}

/// The signed value whose two's-complement bit pattern is the given byte:
/// the signedness reinterpretation applied to the precision field.
pub open spec fn spec_u8_as_i8(b: u8) -> i8 {
    if b < 128 {
        b as i8
    } else {
        (b - 256) as i8
    }
}

/// Reinterpret a byte as a signed 8-bit value, preserving the bit pattern.
pub fn u8_as_i8(b: u8) -> (r: i8)
    ensures
        r == spec_u8_as_i8(b),
{
    if b < 128 {
        b as i8
    } else {
        ((b as i16) - 256) as i8
    }
}

/// The big-endian 32-bit value held by the four bytes starting at `i`.
pub open spec fn spec_be_u32(s: Seq<u8>, i: int) -> int {
    s[i] * 0x1000000 + s[i + 1] * 0x10000 + s[i + 2] * 0x100 + s[i + 3]
}

/// Relies on byteorder's `BigEndian::read_u32`: the big-endian unsigned
/// 32-bit value of the first four bytes of the slice (it panics on a slice
/// shorter than four bytes, which the precondition rules out).
#[verifier::external_body]
fn read_be_u32_at(b: &Vec<u8>, i: usize) -> (r: u32)
    requires
        i + 4 <= b@.len(),
    ensures
        r as int == spec_be_u32(b@, i as int),
{
    BigEndian::read_u32(&b[i..i + 4])
}

/// What decoding a buffer yields: the unique record for a valid 48-byte
/// buffer, or the error that rejects it.
pub open spec fn spec_decode(s: Seq<u8>) -> Result<SNTPResponse, DecodeError> {
    if s.len() != PACKET_LEN {
        Err(DecodeError::WrongLength)
    } else if spec_be_u32(s, 40) < NTP_UNIX_OFFSET {
        Err(DecodeError::TimestampBeforeUnixEpoch)
    } else {
        Ok(
            SNTPResponse {
                leap_indicator: spec_decode_leap(s[0] >> 6),
                version: spec_decode_version((s[0] & 0x38) >> 3),
                mode: spec_decode_mode(s[0] & 0x07),
                stratum: s[1],
                precision: spec_u8_as_i8(s[3]),
                trans_ts: (spec_be_u32(s, 40) - NTP_UNIX_OFFSET) as u32,
                trans_ts_frac: spec_be_u32(s, 44) as u32,
            },
        )
    }
}

/// Build the fixed client request: 48 bytes, all zero except byte 0, which
/// packs leap indicator `AlarmCondition` ("leap not applicable" by protocol
/// convention for a request), version 4 and mode `Client`.
pub fn build_request() -> (r: Vec<u8>)
    ensures
        r@.len() == PACKET_LEN,
        r@[0] == (
        (spec_encode_leap(LeapIndicator::AlarmCondition) << 6) | (spec_encode_version(Version::V4)
            << 3) | spec_encode_mode(Mode::Client)
        ),
        r@[0] == 0xE3u8,
        forall|i: int| 1 <= i < PACKET_LEN ==> r@[i] == 0u8,
{
    let mut buf: Vec<u8> = Vec::new();
    while buf.len() < PACKET_LEN
        invariant
            buf@.len() <= PACKET_LEN,
            forall|i: int| 0 <= i < buf@.len() ==> buf@[i] == 0u8,
        decreases PACKET_LEN - buf@.len(),
    {
        buf.push(0u8);
    }
    let b0: u8 = (encode_leap(LeapIndicator::AlarmCondition) << 6) | (encode_version(Version::V4)
        << 3) | encode_mode(Mode::Client);
    proof {
        assert(((3u8 << 6) | (4u8 << 3) | 3u8) == 0xE3u8) by (bit_vector);
    }
    buf[0] = b0;
    buf
}

/// Decode a response buffer. Succeeds exactly when the buffer is 48 bytes
/// long and its transmit timestamp does not precede the Unix epoch; the
/// record's fields are then fully determined by the buffer contents.
pub fn decode_response(buf: &Vec<u8>) -> (r: Result<SNTPResponse, DecodeError>)
    ensures
        r == spec_decode(buf@),
        buf@.len() != PACKET_LEN ==> r == Err::<SNTPResponse, DecodeError>(
            DecodeError::WrongLength,
        ),
        r is Ok <==> (buf@.len() == PACKET_LEN && spec_be_u32(buf@, 40) >= NTP_UNIX_OFFSET),
{
    if buf.len() != PACKET_LEN {
        return Err(DecodeError::WrongLength);
    }
    let raw_secs = read_be_u32_at(buf, 40);
    if raw_secs < NTP_UNIX_OFFSET {
        return Err(DecodeError::TimestampBeforeUnixEpoch);
    }
    let b0 = buf[0];
    Ok(
        SNTPResponse {
            leap_indicator: decode_leap(b0 >> 6),
            version: decode_version((b0 & 0x38) >> 3),
            mode: decode_mode(b0 & 0x07),
            stratum: buf[1],
            precision: u8_as_i8(buf[3]),
            trans_ts: raw_secs - NTP_UNIX_OFFSET,
            trans_ts_frac: read_be_u32_at(buf, 44),
        },
    )
}

/// The text a record renders to: six fixed-order lines, the last combining
/// the epoch seconds and the raw fraction with a dot between them.
pub open spec fn spec_render(r: SNTPResponse) -> Seq<char> {
    "Leap indicator: "@ + spec_leap_text(r.leap_indicator) + "\nVersion number: "@
        + spec_version_text(r.version) + "\n Response mode: "@ + spec_mode_text(r.mode)
        + "\n       Stratum: "@ + spec_dec_digits(r.stratum as nat) + "\n     Precision: "@
        + spec_signed_dec(r.precision as int) + "\n    UNIX epoch: "@ + spec_dec_digits(
        r.trans_ts as nat,
    ) + "."@ + spec_dec_digits(r.trans_ts_frac as nat)
}

impl SNTPResponse {
    /// Render the record as its fixed multi-line text. The output is a pure
    /// function of the fields, so equal records always render byte-identically.
    pub fn render(&self) -> (r: String)
        ensures
            r@ == spec_render(*self),
    {
        let mut s = String::from_str("Leap indicator: ");
        s.append(leap_text(self.leap_indicator));
        s.append("\nVersion number: ");
        s.append(version_text(self.version));
        s.append("\n Response mode: ");
        s.append(mode_text(self.mode));
        s.append("\n       Stratum: ");
        let stratum_text = u32_to_dec(self.stratum as u32);
        s.append(stratum_text.as_str());
        s.append("\n     Precision: ");
        let precision_text = i8_to_dec(self.precision);
        s.append(precision_text.as_str());
        s.append("\n    UNIX epoch: ");
        let secs_text = u32_to_dec(self.trans_ts);
        s.append(secs_text.as_str());
        s.append(".");
        let frac_text = u32_to_dec(self.trans_ts_frac);
        s.append(frac_text.as_str());
        proof {
            assert(s@ =~= spec_render(*self));
        }
        s
    }
}

/// Decoding reads nothing but the buffer: equal buffers decode to
/// field-for-field equal results, so re-decoding the same bytes is
/// idempotent.
pub proof fn lemma_decode_deterministic(s1: Seq<u8>, s2: Seq<u8>)
    requires
        s1 == s2,
    ensures
        spec_decode(s1) == spec_decode(s2),
{
}

/// Rendering reads nothing but the record: equal records render to the same
/// text.
pub proof fn lemma_render_deterministic(a: SNTPResponse, b: SNTPResponse)
    requires
        a == b,
    ensures
        spec_render(a) == spec_render(b),
{
}

} // verus!
