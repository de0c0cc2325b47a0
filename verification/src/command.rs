//! The escape sequences the editor sends to the terminal, and the decimal
//! numbers that stand in them.

use vstd::prelude::*;
use vstd::string::StringSliceAdditionalSpecFns;

verus! {

/// Clears the whole screen.
pub const CLEAR_SCREEN: &'static str = "\x1b[2J";

/// Clears from the write-head to the end of its line.
pub const CLEAR_REST_OF_LINE: &'static str = "\x1b[K";

/// Moves the write-head to row 1, column 1.
pub const MOVE_CURSOR_TOP_LEFT: &'static str = "\x1b[H";

/// Hides the cursor.
pub const HIDE_CURSOR: &'static str = "\x1b[?25l";

/// Shows the cursor.
pub const SHOW_CURSOR: &'static str = "\x1b[?25h";

/// Switches to inverse video.
pub const INVERTED_COLORS: &'static str = "\x1b[7m";

/// Switches back to normal video.
pub const NORMAL_COLORS: &'static str = "\x1b[m";

/// Ends a line of the screen.
pub const LINE_BREAK: &'static str = "\r\n";

/// The ASCII digit for `d`, where `d < 10`.
pub open spec fn digit(d: nat) -> u8 {
    (48 + d) as u8
}

/// `n` in decimal, most significant digit first, without leading zeros.
pub open spec fn decimal(n: nat) -> Seq<u8>
    decreases n,
{
    if n < 10 {
        seq![digit(n)]
    } else {
        decimal(n / 10).push(digit(n % 10))
    }
}

/// The sequence that moves the write-head to `row` and `col`, both counted
/// from 1.
pub open spec fn cursor_to(row: nat, col: nat) -> Seq<u8> {
    "\x1b[".spec_bytes() + decimal(row) + ";".spec_bytes() + decimal(col) + "H".spec_bytes()
}

/// Appends the bytes of `text` to `buf`.
pub fn push_text(buf: &mut Vec<u8>, text: &str)
    ensures
        final(buf)@ == old(buf)@ + text.spec_bytes(),
{
    buf.extend_from_slice(text.as_bytes());
    assert(buf@ =~= old(buf)@ + text.spec_bytes());
}

/// Appends `bytes` to `buf`.
pub fn push_bytes(buf: &mut Vec<u8>, bytes: &Vec<u8>)
    ensures
        final(buf)@ == old(buf)@ + bytes@,
{
    buf.extend_from_slice(bytes.as_slice());
    assert(buf@ =~= old(buf)@ + bytes@);
}

/// Appends `n` in decimal to `buf`.
pub fn push_decimal(buf: &mut Vec<u8>, n: u128)
    ensures
        final(buf)@ == old(buf)@ + decimal(n as nat),
{
    let mut digits: Vec<u8> = Vec::new();
    let mut rest: u128 = n;
    // `digits` holds the low digits of `n`, least significant first.
    while rest >= 10
        invariant
            decimal(n as nat) == decimal(rest as nat) + digits@.reverse(),
        decreases rest,
    {
        let d: u8 = (rest % 10) as u8;
        let ghost before = digits@;
        digits.push(48 + d);
        proof {
            assert(digits@.reverse() =~= seq![digit((rest % 10) as nat)] + before.reverse());
            assert(decimal(rest as nat) + before.reverse() =~= decimal((rest / 10) as nat)
                + digits@.reverse());
        }
        rest = rest / 10;
    }
    buf.push(48 + rest as u8);
    let ghost head = buf@;
    let mut k: usize = digits.len();
    while k > 0
        invariant
            k <= digits.len(),
            buf@ == head + digits@.reverse().take(digits.len() - k),
        decreases k,
    {
        k -= 1;
        buf.push(digits[k]);
        assert(buf@ =~= head + digits@.reverse().take(digits.len() - k));
    }
    assert(digits@.reverse().take(digits.len() as int) =~= digits@.reverse());
    assert(buf@ =~= old(buf)@ + decimal(n as nat));
}

/// The sequence that moves the write-head to `row` and `col`, both counted
/// from 1.
pub fn move_cursor(row: u32, col: u32) -> (out: Vec<u8>)
    ensures
        out@ == cursor_to(row as nat, col as nat),
{
    let mut out: Vec<u8> = Vec::new();
    push_text(&mut out, "\x1b[");
    push_decimal(&mut out, row as u128);
    push_text(&mut out, ";");
    push_decimal(&mut out, col as u128);
    push_text(&mut out, "H");
    assert(out@ =~= cursor_to(row as nat, col as nat));
    out
}

} // verus!
