//! The fixed binary frame: two big-endian signed 32-bit microdegree
//! coordinates followed by one battery byte.

use vstd::prelude::*;

verus! {

/// Number of bytes in one frame.
pub const FRAME_LEN: usize = 9;

/// The unsigned value of the four bytes of `b` at `at`, most significant first.
pub open spec fn be_u32_at(b: Seq<u8>, at: int) -> int {
    b[at] as int * 0x100_0000 + b[at + 1] as int * 0x1_0000 + b[at + 2] as int * 0x100
        + b[at + 3] as int
}

/// The two's-complement value of the four bytes of `b` at `at`, most significant first.
pub open spec fn be_i32_at(b: Seq<u8>, at: int) -> int {
    let u = be_u32_at(b, at);
    if u >= 0x8000_0000 {
        u - 0x1_0000_0000
    } else {
        u
    }
}

/// The four big-endian two's-complement bytes of a 32-bit signed value `v`.
pub open spec fn be_bytes_of(v: int) -> Seq<u8> {
    let u = if v < 0 {
        v + 0x1_0000_0000
    } else {
        v
    };
    seq![
        (u / 0x100_0000) as u8,
        (u / 0x1_0000 % 0x100) as u8,
        (u / 0x100 % 0x100) as u8,
        (u % 0x100) as u8,
    ]
}

/// The frame that carries the given coordinates and battery level.
pub open spec fn frame_bytes_of(lat: int, lon: int, battery: u8) -> Seq<u8> {
    be_bytes_of(lat) + be_bytes_of(lon) + seq![battery]
}

/// Why a line could not be turned into a reading.
#[derive(Clone, Debug, PartialEq, Eq)]
pub enum DecodeError {
    /// The line was not an even-length run of hex digits.
    HexFormat(crate::hex_line::HexError),
    /// The decoded bytes were not exactly one frame long; `actual` is how many there were.
    FrameLength { actual: usize },
}

/// One decoded frame, stamped with the time at which it was decoded.
///
/// Coordinates are kept in integral microdegrees, exactly as they travel on
/// the wire; degrees are these divided by one million.
#[derive(Clone, Debug)]
pub struct TelemetryFrame {
    /// RFC 3339 text, in UTC, of the moment the frame was decoded.
    pub timestamp: String,
    pub latitude_microdeg: i32,
    pub longitude_microdeg: i32,
    pub battery_level: u8,
}

impl TelemetryFrame {
    /// The reading holds the coordinates and battery level that `raw` carries.
    pub open spec fn carries(&self, raw: Seq<u8>) -> bool {
        &&& raw.len() == FRAME_LEN
        &&& self.latitude_microdeg as int == be_i32_at(raw, 0)
        &&& self.longitude_microdeg as int == be_i32_at(raw, 4)
        &&& self.battery_level == raw[8]
    }

    /// Decodes `raw`, stamping the reading with `timestamp`.
    ///
    /// Every 9-byte buffer decodes, with no range check on any field; any other
    /// length is refused with that length.
    pub fn from_bytes_at(raw: &[u8], timestamp: String) -> (r: Result<TelemetryFrame, DecodeError>)
        ensures
            raw@.len() == FRAME_LEN ==> r is Ok,
            raw@.len() != FRAME_LEN ==> (r matches Err(DecodeError::FrameLength { actual })
                && actual as int == raw@.len()),
            r is Ok ==> r->Ok_0.carries(raw@) && r->Ok_0.timestamp@ == timestamp@,
    {
        if raw.len() != FRAME_LEN {
            return Err(DecodeError::FrameLength { actual: raw.len() });
        }
        let latitude_microdeg = read_be_i32(raw, 0);
        let longitude_microdeg = read_be_i32(raw, 4);
        Ok(TelemetryFrame {
            timestamp,
            latitude_microdeg,
            longitude_microdeg,
            battery_level: raw[8],
        })
    }

    /// Decodes `raw`, stamping the reading with the current time.
    pub fn from_bytes(raw: &[u8]) -> (r: Result<TelemetryFrame, DecodeError>)
        ensures
            raw@.len() == FRAME_LEN ==> r is Ok,
            raw@.len() != FRAME_LEN ==> (r matches Err(DecodeError::FrameLength { actual })
                && actual as int == raw@.len()),
            r is Ok ==> r->Ok_0.carries(raw@),
    {
        if raw.len() != FRAME_LEN {
            return Err(DecodeError::FrameLength { actual: raw.len() });
        }
        TelemetryFrame::from_bytes_at(raw, now_rfc3339())
    }

    /// The 9 bytes that carry this reading's coordinates and battery level.
    pub fn to_bytes(&self) -> (r: Vec<u8>)
        ensures
            r@ == frame_bytes_of(
                self.latitude_microdeg as int,
                self.longitude_microdeg as int,
                self.battery_level,
            ),
    {
        let mut out: Vec<u8> = Vec::new();
        push_be_i32(&mut out, self.latitude_microdeg);
        push_be_i32(&mut out, self.longitude_microdeg);
        out.push(self.battery_level);
        out
    }
}

fn read_be_i32(raw: &[u8], at: usize) -> (r: i32)
    requires
        at + 4 <= raw@.len(),
    ensures
        r as int == be_i32_at(raw@, at as int),
{
    let u: u64 = raw[at] as u64 * 0x100_0000 + raw[at + 1] as u64 * 0x1_0000 + raw[at + 2] as u64
        * 0x100 + raw[at + 3] as u64;
    if u >= 0x8000_0000 {
        (u as i64 - 0x1_0000_0000) as i32
    } else {
        u as i32
    }
}

fn push_be_i32(out: &mut Vec<u8>, v: i32)
    ensures
        final(out)@ == old(out)@ + be_bytes_of(v as int),
{
    let u: u64 = if v < 0 {
        (v as i64 + 0x1_0000_0000) as u64
    } else {
        v as u64
    };
    let start = Ghost(old(out)@);
    out.push((u / 0x100_0000) as u8);
    out.push((u / 0x1_0000 % 0x100) as u8);
    out.push((u / 0x100 % 0x100) as u8);
    out.push((u % 0x100) as u8);
    assert(out@ =~= start@ + be_bytes_of(v as int));
}

/// Decoding the bytes of a 32-bit value gives the value back.
pub proof fn lemma_be_i32_of_bytes(v: int)
    requires
        -0x8000_0000 <= v < 0x8000_0000,
    ensures
        be_i32_at(be_bytes_of(v), 0) == v,
{
    let u = if v < 0 {
        v + 0x1_0000_0000
    } else {
        v
    };
    assert(0 <= u < 0x1_0000_0000);
    assert((u / 0x100_0000) * 0x100_0000 + (u / 0x1_0000 % 0x100) * 0x1_0000 + (u / 0x100 % 0x100)
        * 0x100 + u % 0x100 == u) by (nonlinear_arith)
        requires
            0 <= u < 0x1_0000_0000,
    ;
}

/// Encoding the value of four bytes gives the bytes back.
pub proof fn lemma_bytes_of_be_i32(b: Seq<u8>, at: int)
    requires
        0 <= at,
        at + 4 <= b.len(),
    ensures
        be_bytes_of(be_i32_at(b, at)) == b.subrange(at, at + 4),
{
    let (b0, b1, b2, b3) = (b[at] as int, b[at + 1] as int, b[at + 2] as int, b[at + 3] as int);
    let u = be_u32_at(b, at);
    assert(u / 0x100_0000 == b0 && u / 0x1_0000 % 0x100 == b1 && u / 0x100 % 0x100 == b2 && u
        % 0x100 == b3) by (nonlinear_arith)
        requires
            u == b0 * 0x100_0000 + b1 * 0x1_0000 + b2 * 0x100 + b3,
            0 <= b0 < 0x100,
            0 <= b1 < 0x100,
            0 <= b2 < 0x100,
            0 <= b3 < 0x100,
    ;
    assert(be_bytes_of(be_i32_at(b, at)) =~= b.subrange(at, at + 4));
}

/// A reading's coordinates and battery level, encoded back into a frame and
/// decoded again, come back unchanged.
pub proof fn lemma_encode_then_decode(lat: i32, lon: i32, battery: u8)
    ensures
        frame_bytes_of(lat as int, lon as int, battery).len() == FRAME_LEN,
        be_i32_at(frame_bytes_of(lat as int, lon as int, battery), 0) == lat as int,
        be_i32_at(frame_bytes_of(lat as int, lon as int, battery), 4) == lon as int,
        frame_bytes_of(lat as int, lon as int, battery)[8] == battery,
{
    let f = frame_bytes_of(lat as int, lon as int, battery);
    lemma_be_i32_of_bytes(lat as int);
    lemma_be_i32_of_bytes(lon as int);
    assert(f.subrange(0, 4) =~= be_bytes_of(lat as int));
    assert(f.subrange(4, 8) =~= be_bytes_of(lon as int));
    assert(be_i32_at(f, 0) == be_i32_at(f.subrange(0, 4), 0));
    assert(be_i32_at(f, 4) == be_i32_at(f.subrange(4, 8), 0));
}

/// Any frame, decoded and encoded again, comes back byte for byte.
pub proof fn lemma_decode_then_encode(raw: Seq<u8>)
    requires
        raw.len() == FRAME_LEN,
    ensures
        frame_bytes_of(be_i32_at(raw, 0), be_i32_at(raw, 4), raw[8]) == raw,
{
    lemma_bytes_of_be_i32(raw, 0);
    lemma_bytes_of_be_i32(raw, 4);
    assert(frame_bytes_of(be_i32_at(raw, 0), be_i32_at(raw, 4), raw[8]) =~= raw);
}

/// Relies on chrono's `Utc::now` for the current time and on
/// `DateTime::to_rfc3339_opts` to write it as RFC 3339 text ending in `Z`.
/// Nothing is promised of the text: it depends on the clock.
#[verifier::external_body]
fn now_rfc3339() -> (r: String) {
    chrono::Utc::now().to_rfc3339_opts(chrono::SecondsFormat::AutoSi, true)
}

} // verus!
