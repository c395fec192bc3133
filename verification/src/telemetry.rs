//! The binary telemetry frame sent by the car.
use vstd::prelude::*;

use crate::protocol::TYPE_TELEMETRY;
use crate::query::{all_digits, digits_value, lemma_nat_text_reads_back};
use crate::text::{nat_text, push_nat_text};

verus! {

/// Length in bytes of a telemetry frame: the kind byte and a 32-bit distance.
pub const TELEMETRY_FRAME_LEN: usize = 5;

/// A reading of the car's distance sensor, in millimetres.
#[derive(Clone, Copy, Debug, PartialEq, Eq, Structural)]
pub struct Telemetry {
    pub distance_mm: u32,
}

/// Why a byte buffer is not a telemetry frame.
#[derive(Clone, Copy, Debug, PartialEq, Eq, Structural)]
pub enum TelemetryError {
    /// The buffer does not have the length of a frame.
    WrongLength { expected_len: usize, got_len: usize },
    /// The buffer has the right length but its first byte is not `TYPE_TELEMETRY`.
    WrongKind { got_kind: u8, expected_kind: u8 },
}

impl TelemetryError {
    /// The text that reports this error.
    pub open spec fn message_text(self) -> Seq<char> {
        match self {
            TelemetryError::WrongLength { expected_len, got_len } => "expected "@ + nat_text(
                expected_len as nat,
            ) + " bytes, got "@ + nat_text(got_len as nat),
            TelemetryError::WrongKind { got_kind, expected_kind } => "unexpected kind: got "@
                + nat_text(got_kind as nat) + ", expected "@ + nat_text(expected_kind as nat),
        }
    }

    /// The text that reports this error, such as `expected 5 bytes, got 0`
    /// or `unexpected kind: got 2, expected 1`.
    pub fn message(&self) -> (s: String)
        ensures
            s@ == self.message_text(),
    {
        match self {
            TelemetryError::WrongLength { expected_len, got_len } => {
                let mut s = String::from_str("expected ");
                push_nat_text(&mut s, *expected_len as u64);
                s.append(" bytes, got ");
                push_nat_text(&mut s, *got_len as u64);
                s
            },
            TelemetryError::WrongKind { got_kind, expected_kind } => {
                let mut s = String::from_str("unexpected kind: got ");
                push_nat_text(&mut s, *got_kind as u64);
                s.append(", expected ");
                push_nat_text(&mut s, *expected_kind as u64);
                s
            },
        }
    }
}

/// The number whose little-endian encoding is `b[0..4]`.
pub open spec fn u32_from_le(b: Seq<u8>) -> int {
    b[0] + 256 * b[1] + 65536 * b[2] + 16777216 * b[3]
}

/// The little-endian encoding of `x` in four bytes.
pub open spec fn u32_le_bytes(x: u32) -> Seq<u8> {
    seq![
        (x % 256) as u8,
        (x / 256 % 256) as u8,
        (x / 65536 % 256) as u8,
        (x / 16777216) as u8,
    ]
}

/// What reading `b` as a telemetry frame gives.
pub open spec fn parse_telemetry(b: Seq<u8>) -> Result<Telemetry, TelemetryError> {
    if b.len() != TELEMETRY_FRAME_LEN {
        Err(TelemetryError::WrongLength { expected_len: TELEMETRY_FRAME_LEN, got_len: b.len() as usize })
    } else if b[0] != TYPE_TELEMETRY {
        Err(TelemetryError::WrongKind { got_kind: b[0], expected_kind: TYPE_TELEMETRY })
    } else {
        Ok(Telemetry { distance_mm: u32_from_le(b.subrange(1, 5)) as u32 })
    }
}

/// The frame that the car sends for a distance of `distance_mm`.
pub open spec fn telemetry_frame(distance_mm: u32) -> Seq<u8> {
    seq![TYPE_TELEMETRY] + u32_le_bytes(distance_mm)
}

impl Telemetry {
    /// Reads a telemetry frame: a `TYPE_TELEMETRY` byte followed by the distance
    /// in four bytes, least significant first. Any other buffer is refused.
    pub fn from_bytes(b: &[u8]) -> (r: Result<Telemetry, TelemetryError>)
        ensures
            r == parse_telemetry(b@),
    {
        if b.len() != TELEMETRY_FRAME_LEN {
            return Err(TelemetryError::WrongLength { expected_len: TELEMETRY_FRAME_LEN, got_len: b.len() });
        }
        let kind = b[0];
        if kind != TYPE_TELEMETRY {
            return Err(TelemetryError::WrongKind { got_kind: kind, expected_kind: TYPE_TELEMETRY });
        }
        let d: u32 = b[1] as u32 + 256 * (b[2] as u32) + 65536 * (b[3] as u32) + 16777216 * (
        b[4] as u32);
        assert(b@.subrange(1, 5)[0] == b[1]);
        assert(b@.subrange(1, 5)[1] == b[2]);
        assert(b@.subrange(1, 5)[2] == b[3]);
        assert(b@.subrange(1, 5)[3] == b[4]);
        Ok(Telemetry { distance_mm: d })
    }
}

/// A telemetry frame carries its distance: reading the frame of any distance
/// gives that distance back.
pub proof fn lemma_telemetry_frame_roundtrip(distance_mm: u32)
    ensures
        parse_telemetry(telemetry_frame(distance_mm)) == Ok::<Telemetry, TelemetryError>(
            Telemetry { distance_mm },
        ),
{
    let f = telemetry_frame(distance_mm);
    let x = distance_mm;
    assert(f.subrange(1, 5) =~= u32_le_bytes(x));
    assert(x % 256 + 256 * (x / 256 % 256) + 65536 * (x / 65536 % 256) + 16777216 * (x / 16777216)
        == x) by (bit_vector);
}

/// A telemetry frame is unambiguous: every buffer that reads as telemetry is
/// exactly the frame of the distance it gives.
pub proof fn lemma_telemetry_frame_unique(b: Seq<u8>)
    ensures
        parse_telemetry(b) matches Ok(t) ==> b == telemetry_frame(t.distance_mm),
{
    if let Ok(t) = parse_telemetry(b) {
        let b1 = b[1];
        let b2 = b[2];
        let b3 = b[3];
        let b4 = b[4];
        let x = t.distance_mm;
        assert(b.subrange(1, 5)[0] == b1);
        assert(b.subrange(1, 5)[1] == b2);
        assert(b.subrange(1, 5)[2] == b3);
        assert(b.subrange(1, 5)[3] == b4);
        assert(x == b1 + 256 * b2 + 65536 * b3 + 16777216 * b4);
        assert(x == b1 + 256 * b2 + 65536 * b3 + 16777216 * b4 ==> x % 256 == b1 && x / 256 % 256
            == b2 && x / 65536 % 256 == b3 && x / 16777216 == b4) by (bit_vector);
        assert(b =~= telemetry_frame(x));
    }
}

/// Refusals say why: a buffer of the wrong length is refused as such, with
/// the frame's length and the buffer's, whatever its first byte; a buffer of
/// the right length whose first byte is not `TYPE_TELEMETRY` is refused for
/// its kind, with that byte and the expected one.
pub proof fn lemma_telemetry_refusals(b: Seq<u8>)
    ensures
        b.len() != 5 ==> parse_telemetry(b) == Err::<Telemetry, TelemetryError>(
            TelemetryError::WrongLength { expected_len: 5, got_len: b.len() as usize },
        ),
        b.len() == 5 && b[0] != 1 ==> parse_telemetry(b) == Err::<Telemetry, TelemetryError>(
            TelemetryError::WrongKind { got_kind: b[0], expected_kind: 1 },
        ),
        b.len() == 5 && b[0] == 1 ==> parse_telemetry(b) is Ok,
{
}

/// The messages name the numbers in order: a length refusal reads
/// `expected N bytes, got M` and a kind refusal `unexpected kind: got G,
/// expected E`, each number written in decimal digits that read back as it.
pub proof fn lemma_error_messages(e: TelemetryError)
    ensures
        e matches TelemetryError::WrongLength { expected_len, got_len } ==> e.message_text()
            == "expected "@ + nat_text(expected_len as nat) + " bytes, got "@ + nat_text(
            got_len as nat,
        ),
        e matches TelemetryError::WrongKind { got_kind, expected_kind } ==> e.message_text()
            == "unexpected kind: got "@ + nat_text(got_kind as nat) + ", expected "@ + nat_text(
            expected_kind as nat,
        ),
        forall|n: nat|
            #![trigger nat_text(n)]
            all_digits(nat_text(n)) && digits_value(nat_text(n)) == n,
{
    assert forall|n: nat| #![trigger nat_text(n)] all_digits(nat_text(n)) && digits_value(nat_text(n)) == n by {
        lemma_nat_text_reads_back(n);
    }
}

} // verus!
