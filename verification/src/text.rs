//! The text the firmware emits on the serial link: one status line and one
//! delay note per loop iteration, each a decimal rendering of a counter or
//! of the configured delay, framed by fixed words and ended by CR LF.

use vstd::prelude::*;
use vstd::string::StringSliceAdditionalSpecFns;

verus! {

/// The ASCII byte of a single decimal digit.
pub open spec fn digit_byte(d: nat) -> u8 {
    ('0' as u8 + d) as u8
}

/// The decimal rendering of `n`, most significant digit first,
/// with no leading zeros (`0` renders as the single byte `'0'`).
pub open spec fn dec_digits(n: nat) -> Seq<u8>
    decreases n,
{
    if n < 10 {
        seq![digit_byte(n)]
    } else {
        dec_digits(n / 10).push(digit_byte(n % 10))
    }
}

/// The two line-terminator bytes, carriage return then line feed.
pub open spec fn crlf() -> Seq<u8> {
    seq!['\r' as u8, '\n' as u8]
}

/// The fixed words that open a status line.
pub open spec fn status_prefix() -> Seq<u8> {
    "starting loop number ".spec_bytes()
}

/// The fixed words that open a delay note.
pub open spec fn delay_note_prefix() -> Seq<u8> {
    "  current delay is ".spec_bytes()
}

/// The status line announcing iteration `n`.
pub open spec fn status_line_spec(n: nat) -> Seq<u8> {
    status_prefix() + dec_digits(n) + crlf()
}

/// The note restating the configured delay `d` (in milliseconds).
pub open spec fn delay_note_spec(d: nat) -> Seq<u8> {
    delay_note_prefix() + dec_digits(d) + crlf()
}

/// Appends a whole byte slice to `out`, in order.
pub fn append_bytes(out: &mut Vec<u8>, bytes: &[u8])
    ensures
        final(out)@ == old(out)@ + bytes@,
{
    let mut i: usize = 0;
    while i < bytes.len()
        invariant
            i <= bytes@.len(),
            out@ == old(out)@ + bytes@.subrange(0, i as int),
        decreases bytes@.len() - i,
    {
        out.push(bytes[i]);
        proof {
            assert(bytes@.subrange(0, i + 1 as int) =~= bytes@.subrange(0, i as int).push(
                bytes@[i as int],
            ));
            assert(old(out)@ + bytes@.subrange(0, i + 1 as int) =~= (old(out)@ + bytes@.subrange(
                0,
                i as int,
            )).push(bytes@[i as int]));
        }
        i = i + 1;
    }
    proof {
        assert(bytes@.subrange(0, bytes@.len() as int) =~= bytes@);
    }
}

/// Appends the decimal rendering of `n` to `out`, most significant digit first.
pub fn push_dec(out: &mut Vec<u8>, n: u32)
    ensures
        final(out)@ == old(out)@ + dec_digits(n as nat),
    decreases n,
{
    if n >= 10 {
        push_dec(out, n / 10);
    }
    out.push('0' as u8 + (n % 10) as u8);
    proof {
        if n >= 10 {
            assert((old(out)@ + dec_digits((n / 10) as nat)).push(digit_byte((n % 10) as nat))
                =~= old(out)@ + dec_digits(n as nat));
        } else {
            assert(old(out)@.push(digit_byte(n as nat)) =~= old(out)@ + dec_digits(n as nat));
        }
    }
}

/// Builds the status line for iteration `n`: the fixed prefix, the counter
/// in decimal, then CR LF.
pub fn status_line(n: u32) -> (line: Vec<u8>)
    ensures
        line@ == status_line_spec(n as nat),
{
    let mut line: Vec<u8> = Vec::new();
    append_bytes(&mut line, "starting loop number ".as_bytes());
    push_dec(&mut line, n);
    line.push('\r' as u8);
    line.push('\n' as u8);
    proof {
        assert(line@ =~= status_line_spec(n as nat));
    }
    line
}

/// Builds the delay note for a delay of `d` milliseconds: the fixed prefix,
/// the delay in decimal, then CR LF.
pub fn delay_note_line(d: u32) -> (line: Vec<u8>)
    ensures
        line@ == delay_note_spec(d as nat),
{
    let mut line: Vec<u8> = Vec::new();
    append_bytes(&mut line, "  current delay is ".as_bytes());
    push_dec(&mut line, d);
    line.push('\r' as u8);
    line.push('\n' as u8);
    proof {
        assert(line@ =~= delay_note_spec(d as nat));
    }
    line
}

} // verus!
