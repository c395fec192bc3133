//! Frame kinds and the binary command frame sent to the car.
use vstd::prelude::*;

verus! {

/// Kind byte of a telemetry frame (car to backend).
pub const TYPE_TELEMETRY: u8 = 0x01;

/// Kind byte of a command frame (backend to car).
pub const TYPE_COMMAND: u8 = 0x02;

/// Length in bytes of a command frame: the kind byte and two 16-bit motor values.
pub const COMMAND_FRAME_LEN: usize = 5;

/// The two's-complement bit pattern of `x`, read as an unsigned 16-bit number.
pub open spec fn i16_bits(x: i16) -> int {
    if x < 0 {
        x + 65536
    } else {
        x as int
    }
}

/// The little-endian encoding of `x` in two bytes.
pub open spec fn i16_le_bytes(x: i16) -> Seq<u8> {
    seq![(i16_bits(x) % 256) as u8, (i16_bits(x) / 256) as u8]
}

/// A motor command for the car: left and right PWM duty values, signed.
#[derive(Clone, Copy, Debug, PartialEq, Eq, Structural)]
pub struct Command {
    pub kind: u8,
    pub left_pwm: i16,
    pub right_pwm: i16,
}

impl Command {
    /// The frame that carries this command: the kind byte, then the left and
    /// the right value, each in two bytes, least significant byte first.
    pub open spec fn frame(self) -> Seq<u8> {
        seq![self.kind] + i16_le_bytes(self.left_pwm) + i16_le_bytes(self.right_pwm)
    }

    /// A command of kind `TYPE_COMMAND` with the given motor values.
    pub fn new(left: i16, right: i16) -> (c: Self)
        ensures
            c == (Command { kind: TYPE_COMMAND, left_pwm: left, right_pwm: right }),
    {
        Command { kind: TYPE_COMMAND, left_pwm: left, right_pwm: right }
    }

    /// Encodes the command as its frame.
    pub fn to_bytes(&self) -> (out: Vec<u8>)
        ensures
            out@ == self.frame(),
            out@.len() == COMMAND_FRAME_LEN,
    {
        let mut out: Vec<u8> = Vec::with_capacity(COMMAND_FRAME_LEN);
        out.push(self.kind);
        push_i16_le(&mut out, self.left_pwm);
        push_i16_le(&mut out, self.right_pwm);
        assert(out@ =~= self.frame());
        out
    }
}

/// Appends the little-endian encoding of `x` to `out`.
fn push_i16_le(out: &mut Vec<u8>, x: i16)
    ensures
        final(out)@ == old(out)@ + i16_le_bytes(x),
{
    let bits: u16 = if x < 0 {
        (x as i32 + 65536) as u16
    } else {
        x as u16
    };
    assert(bits == i16_bits(x));
    out.push((bits % 256) as u8);
    out.push((bits / 256) as u8);
    assert(out@ =~= old(out)@ + i16_le_bytes(x));
}

/// Distinct commands have distinct frames: the frame determines the kind and
/// both motor values.
pub proof fn lemma_command_frame_injective(c1: Command, c2: Command)
    requires
        c1.frame() == c2.frame(),
    ensures
        c1 == c2,
{
    assert(c1.frame()[0] == c1.kind);
    assert(c2.frame()[0] == c2.kind);
    assert(c1.frame()[1] == i16_le_bytes(c1.left_pwm)[0]);
    assert(c1.frame()[2] == i16_le_bytes(c1.left_pwm)[1]);
    assert(c1.frame()[3] == i16_le_bytes(c1.right_pwm)[0]);
    assert(c1.frame()[4] == i16_le_bytes(c1.right_pwm)[1]);
    assert(c2.frame()[1] == i16_le_bytes(c2.left_pwm)[0]);
    assert(c2.frame()[2] == i16_le_bytes(c2.left_pwm)[1]);
    assert(c2.frame()[3] == i16_le_bytes(c2.right_pwm)[0]);
    assert(c2.frame()[4] == i16_le_bytes(c2.right_pwm)[1]);
    assert(c1.frame()[1] == c2.frame()[1]);
    assert(c1.frame()[2] == c2.frame()[2]);
    assert(c1.frame()[3] == c2.frame()[3]);
    assert(c1.frame()[4] == c2.frame()[4]);
    lemma_i16_le_bytes_injective(c1.left_pwm, c2.left_pwm);
    lemma_i16_le_bytes_injective(c1.right_pwm, c2.right_pwm);
}

proof fn lemma_i16_le_bytes_injective(x: i16, y: i16)
    requires
        i16_le_bytes(x)[0] == i16_le_bytes(y)[0],
        i16_le_bytes(x)[1] == i16_le_bytes(y)[1],
    ensures
        x == y,
{
    let a = i16_bits(x);
    let b = i16_bits(y);
    assert(a == 256 * (a / 256) + a % 256 && 0 <= a % 256 < 256 && 0 <= a / 256 < 256) by (nonlinear_arith)
        requires
            0 <= a < 65536,
    ;
    assert(b == 256 * (b / 256) + b % 256 && 0 <= b % 256 < 256 && 0 <= b / 256 < 256) by (nonlinear_arith)
        requires
            0 <= b < 65536,
    ;
}

/// Each motor value travels as its 16-bit two's-complement pattern, least
/// significant byte first: the frame is the kind byte, then the left value's
/// two bytes, then the right value's two bytes.
pub proof fn lemma_command_frame_bytes(c: Command)
    ensures
        c.frame().len() == 5,
        c.frame()[0] == c.kind,
        c.frame()[1] + 256 * c.frame()[2] == (c.left_pwm + 65536) % 65536,
        c.frame()[3] + 256 * c.frame()[4] == (c.right_pwm + 65536) % 65536,
{
    lemma_i16_le_bytes_value(c.left_pwm);
    lemma_i16_le_bytes_value(c.right_pwm);
    assert(c.frame()[1] == i16_le_bytes(c.left_pwm)[0]);
    assert(c.frame()[2] == i16_le_bytes(c.left_pwm)[1]);
    assert(c.frame()[3] == i16_le_bytes(c.right_pwm)[0]);
    assert(c.frame()[4] == i16_le_bytes(c.right_pwm)[1]);
}

proof fn lemma_i16_le_bytes_value(x: i16)
    ensures
        i16_le_bytes(x).len() == 2,
        i16_le_bytes(x)[0] + 256 * i16_le_bytes(x)[1] == (x + 65536) % 65536,
{
    let v = x + 65536;
    assert(0 <= v % 65536 < 65536 && (x < 0 ==> v % 65536 == v) && (x >= 0 ==> v % 65536 == x))
        by (nonlinear_arith)
        requires
            v == x + 65536,
            -32768 <= x < 32768,
    ;
    let a = i16_bits(x);
    assert(a == 256 * (a / 256) + a % 256 && 0 <= a % 256 < 256 && 0 <= a / 256 < 256) by (nonlinear_arith)
        requires
            0 <= a < 65536,
    ;
}

} // verus!
