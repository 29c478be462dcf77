//! The text record that carries one reading downstream:
//! `telemetry lat=<deg>,lon=<deg>,battery=<n> timestamp=<time>` and a line feed,
//! degrees written with exactly six decimals.

use vstd::prelude::*;
use vstd::string::StringSliceAdditionalSpecFns;
use vstd::utf8::encode_utf8;
use crate::frame::TelemetryFrame;

verus! {

/// The ASCII code of the decimal digit `d`.
pub open spec fn digit_byte(d: nat) -> u8 {
    (0x30 + d) as u8
}

/// The decimal digits of `n`, without leading zeros (`0` for zero).
pub open spec fn decimal_text(n: nat) -> Seq<u8>
    decreases n,
{
    if n < 10 {
        seq![digit_byte(n)]
    } else {
        decimal_text(n / 10).push(digit_byte(n % 10))
    }
}

/// The last `k` decimal digits of `n`, padded with leading zeros.
pub open spec fn padded_text(n: nat, k: nat) -> Seq<u8>
    decreases k,
{
    if k == 0 {
        seq![]
    } else {
        padded_text(n / 10, (k - 1) as nat).push(digit_byte(n % 10))
    }
}

/// `m` millionths written as a decimal number with exactly six decimals,
/// with a minus sign when `m` is negative.
pub open spec fn micro_text(m: int) -> Seq<u8> {
    let a = if m < 0 {
        -m
    } else {
        m
    };
    let sign = if m < 0 {
        seq![0x2du8]
    } else {
        seq![]
    };
    sign + decimal_text((a / 1_000_000) as nat) + seq![0x2eu8] + padded_text(
        (a % 1_000_000) as nat,
        6,
    )
}

/// The record of reading `f`, line feed included.
pub open spec fn record_text(f: TelemetryFrame) -> Seq<u8> {
    encode_utf8("telemetry lat="@) + micro_text(f.latitude_microdeg as int) + encode_utf8(
        ",lon="@,
    ) + micro_text(f.longitude_microdeg as int) + encode_utf8(",battery="@) + decimal_text(
        f.battery_level as nat,
    ) + encode_utf8(" timestamp="@) + encode_utf8(f.timestamp@) + encode_utf8("\n"@)
}

fn append_bytes(out: &mut Vec<u8>, more: &[u8])
    ensures
        final(out)@ == old(out)@ + more@,
{
    let mut i: usize = 0;
    while i < more.len()
        invariant
            i <= more@.len(),
            out@ == old(out)@ + more@.subrange(0, i as int),
        decreases more@.len() - i,
    {
        out.push(more[i]);
        i = i + 1;
        assert(out@ =~= old(out)@ + more@.subrange(0, i as int));
    }
    assert(more@.subrange(0, i as int) =~= more@);
}

fn append_str(out: &mut Vec<u8>, s: &str)
    ensures
        final(out)@ == old(out)@ + encode_utf8(s@),
{
    append_bytes(out, s.as_bytes());
}

/// Appends the decimal digits of `n`.
fn append_decimal(out: &mut Vec<u8>, n: u32)
    ensures
        final(out)@ == old(out)@ + decimal_text(n as nat),
    decreases n,
{
    if n >= 10 {
        append_decimal(out, n / 10);
    }
    out.push((0x30 + n % 10) as u8);
    proof {
        if n >= 10 {
            assert(decimal_text(n as nat) == decimal_text((n / 10) as nat).push(
                digit_byte((n % 10) as nat),
            ));
        }
    }
    assert(final(out)@ =~= old(out)@ + decimal_text(n as nat)) by {
        if n < 10 {
            assert(n % 10 == n);
        }
    }
}

/// Appends the last `k` decimal digits of `n`, padded with leading zeros.
fn append_padded(out: &mut Vec<u8>, n: u32, k: u32)
    ensures
        final(out)@ == old(out)@ + padded_text(n as nat, k as nat),
    decreases k,
{
    if k == 0 {
        assert(padded_text(n as nat, 0) =~= seq![]);
        assert(out@ =~= old(out)@ + padded_text(n as nat, k as nat));
        return;
    }
    append_padded(out, n / 10, k - 1);
    out.push((0x30 + n % 10) as u8);
    assert(out@ =~= old(out)@ + padded_text(n as nat, k as nat));
}

/// Appends `m` millionths as a decimal number with six decimals.
fn append_micro(out: &mut Vec<u8>, m: i32)
    ensures
        final(out)@ == old(out)@ + micro_text(m as int),
{
    let a: u32 = if m < 0 {
        (-(m as i64)) as u32
    } else {
        m as u32
    };
    if m < 0 {
        out.push(0x2d);
    }
    append_decimal(out, a / 1_000_000);
    out.push(0x2e);
    append_padded(out, a % 1_000_000, 6);
    assert(out@ =~= old(out)@ + micro_text(m as int));
}

/// The record that carries `frame` downstream, as the bytes to write.
pub fn encode_record(frame: &TelemetryFrame) -> (r: Vec<u8>)
    ensures
        r@ == record_text(*frame),
{
    let mut out: Vec<u8> = Vec::new();
    append_str(&mut out, "telemetry lat=");
    append_micro(&mut out, frame.latitude_microdeg);
    append_str(&mut out, ",lon=");
    append_micro(&mut out, frame.longitude_microdeg);
    append_str(&mut out, ",battery=");
    append_decimal(&mut out, frame.battery_level as u32);
    append_str(&mut out, " timestamp=");
    append_str(&mut out, frame.timestamp.as_str());
    append_str(&mut out, "\n");
    assert(out@ =~= record_text(*frame));
    out
}

} // verus!
