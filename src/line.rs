//! From one received line of text to a reading: trim, hex-decode, decode the frame.

use vstd::prelude::*;
use vstd::string::StringSliceAdditionalSpecFns;
use vstd::utf8::encode_utf8;
use crate::frame::{DecodeError, TelemetryFrame, FRAME_LEN};
use crate::hex_line::{
    decode_hex, hex_bytes, hex_decode_result, is_hex_text, lemma_hex_decode_ok_iff,
    lemma_hex_error_unique,
};

verus! {

/// `c` has the Unicode property White_Space.
pub open spec fn is_white_space(c: char) -> bool {
    let n = c as u32;
    ||| 0x09 <= n <= 0x0d
    ||| n == 0x20 || n == 0x85 || n == 0xa0 || n == 0x1680
    ||| 0x2000 <= n <= 0x200a
    ||| n == 0x2028 || n == 0x2029 || n == 0x202f || n == 0x205f || n == 0x3000
}

/// `s` without its leading white space.
pub open spec fn trim_start_of(s: Seq<char>) -> Seq<char>
    decreases s.len(),
{
    if s.len() > 0 && is_white_space(s[0]) {
        trim_start_of(s.drop_first())
    } else {
        s
    }
}

/// `s` without its trailing white space.
pub open spec fn trim_end_of(s: Seq<char>) -> Seq<char>
    decreases s.len(),
{
    if s.len() > 0 && is_white_space(s.last()) {
        trim_end_of(s.drop_last())
    } else {
        s
    }
}

/// `s` without leading and trailing white space.
pub open spec fn trimmed(s: Seq<char>) -> Seq<char> {
    trim_end_of(trim_start_of(s))
}

/// What decoding the hex text `t` into a frame may give: the reading its
/// bytes carry, the hex fault, or the wrong number of bytes.
pub open spec fn frame_outcome(t: Seq<u8>, r: Result<TelemetryFrame, DecodeError>) -> bool {
    match r {
        Ok(f) => is_hex_text(t) && f.carries(hex_bytes(t)),
        Err(DecodeError::HexFormat(e)) => hex_decode_result(t, Err(e)),
        Err(DecodeError::FrameLength { actual }) => {
            &&& is_hex_text(t)
            &&& actual as int == t.len() / 2
            &&& actual != FRAME_LEN
        },
    }
}

/// Decodes one trimmed, non-empty line of hex text into a reading stamped
/// with the current time.
pub fn decode_and_parse_frame(hex_str: &str) -> (r: Result<TelemetryFrame, DecodeError>)
    ensures
        frame_outcome(hex_str.spec_bytes(), r),
        r is Ok <==> is_hex_text(hex_str.spec_bytes()) && hex_str.spec_bytes().len() == 2
            * FRAME_LEN,
{
    match decode_hex(hex_str) {
        Ok(raw) => {
            assert(raw@ == hex_bytes(hex_str.spec_bytes()));
            let bytes = raw.as_slice();
            assert(bytes@ == raw@);
            let r = TelemetryFrame::from_bytes(bytes);
            assert(raw@.len() == hex_str.spec_bytes().len() / 2);
            r
        },
        Err(e) => Err(DecodeError::HexFormat(e)),
    }
}

/// The outcome of decoding a line is one of at most one value, but for the
/// time stamp.
pub proof fn lemma_frame_outcome_unique(
    t: Seq<u8>,
    r1: Result<TelemetryFrame, DecodeError>,
    r2: Result<TelemetryFrame, DecodeError>,
)
    requires
        frame_outcome(t, r1),
        frame_outcome(t, r2),
    ensures
        r1 is Ok <==> r2 is Ok,
        r1 is Ok ==> {
            &&& r1->Ok_0.latitude_microdeg == r2->Ok_0.latitude_microdeg
            &&& r1->Ok_0.longitude_microdeg == r2->Ok_0.longitude_microdeg
            &&& r1->Ok_0.battery_level == r2->Ok_0.battery_level
        },
        r1 is Err ==> r1 == r2,
{
    if let Err(DecodeError::HexFormat(e)) = r1 {
        lemma_hex_decode_ok_iff(t, Err(e));
    }
    if let Err(DecodeError::HexFormat(e)) = r2 {
        lemma_hex_decode_ok_iff(t, Err(e));
    }
    if let (Err(DecodeError::HexFormat(e1)), Err(DecodeError::HexFormat(e2))) = (r1, r2) {
        lemma_hex_error_unique(t, e1, e2);
    }
}

/// Relies on `str::trim`: the text without leading and trailing characters
/// of the Unicode property White_Space.
#[verifier::external_body]
fn trim_line<'a>(s: &'a str) -> (r: &'a str)
    ensures
        r@ == trimmed(s@),
{
    s.trim()
}

/// What one received line asks for.
#[derive(Clone, Debug)]
pub enum LineAction {
    /// The line is blank: nothing is decoded and nothing is reported.
    Skip,
    /// The line carried this reading, to be forwarded.
    Forward(TelemetryFrame),
    /// The line could not be decoded; the fault is reported and the next line read.
    Reject(DecodeError),
}

/// What the line `line`, before trimming, asks for: blank lines are skipped,
/// others decoded after trimming.
pub open spec fn line_action(line: Seq<char>, a: LineAction) -> bool {
    if trimmed(line).len() == 0 {
        a is Skip
    } else {
        match a {
            LineAction::Skip => false,
            LineAction::Forward(f) => frame_outcome(encode_utf8(trimmed(line)), Ok(f)),
            LineAction::Reject(e) => frame_outcome(encode_utf8(trimmed(line)), Err(e)),
        }
    }
}

/// Decides what to do with one received line, terminator included or not.
pub fn handle_line(line: &str) -> (a: LineAction)
    ensures
        line_action(line@, a),
{
    let hex_str = trim_line(line);
    if hex_str.is_empty() {
        return LineAction::Skip;
    }
    match decode_and_parse_frame(hex_str) {
        Ok(frame) => LineAction::Forward(frame),
        Err(e) => LineAction::Reject(e),
    }
}

} // verus!
