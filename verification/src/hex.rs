//! Fixed-width lower-case hexadecimal text, as the part id and serial number
//! of a board are shown.
use vstd::arithmetic::div_mod::lemma_mod_breakdown;
use vstd::arithmetic::power::pow;
use vstd::prelude::*;

use crate::hackrf_wrapper::read_partid_serialno_t;

verus! {

/// The lower-case hexadecimal digit for `d` (`0 <= d < 16`).
pub open spec fn hex_digit(d: int) -> char {
    if d < 10 {
        (d + 48) as char
    } else {
        (d + 87) as char
    }
}

/// The value of a lower-case hexadecimal digit.
pub open spec fn digit_value(c: char) -> int {
    if c <= '9' {
        c as int - 48
    } else {
        c as int - 87
    }
}

/// The last `n` hexadecimal digits of `x`, most significant first, with
/// leading zeros.
pub open spec fn hex_digits(x: nat, n: nat) -> Seq<char>
    decreases n,
{
    if n == 0 {
        Seq::empty()
    } else {
        hex_digits(x / 16, (n - 1) as nat).push(hex_digit((x % 16) as int))
    }
}

/// The number a string of hexadecimal digits denotes.
pub open spec fn hex_value(s: Seq<char>) -> int
    decreases s.len(),
{
    if s.len() == 0 {
        0
    } else {
        hex_value(s.drop_last()) * 16 + digit_value(s.last())
    }
}

/// The eight-digit form of a 32-bit word, as `{:08x}` writes it.
pub open spec fn hex8(x: u32) -> Seq<char> {
    hex_digits(x as nat, 8)
}

/// Reading back the last `n` digits of `x` gives `x` modulo `16^n`.
proof fn lemma_hex_digits_value(x: nat, n: nat)
    ensures
        hex_digits(x, n).len() == n,
        hex_value(hex_digits(x, n)) == (x as int) % pow(16, n),
    decreases n,
{
    reveal(pow);
    if n > 0 {
        lemma_hex_digits_value(x / 16, (n - 1) as nat);
        let s = hex_digits(x, n);
        assert(s.drop_last() =~= hex_digits(x / 16, (n - 1) as nat));
        vstd::arithmetic::power::lemma_pow_positive(16, (n - 1) as nat);
        lemma_mod_breakdown(x as int, 16, pow(16, (n - 1) as nat));
    }
}

/// Law: the eight-digit form of a word has eight digits and reads back as
/// that word, so distinct words get distinct text.
pub proof fn law_hex8_round_trip(x: u32)
    ensures
        hex8(x).len() == 8,
        hex_value(hex8(x)) == x,
{
    lemma_hex_digits_value(x as nat, 8);
    assert(pow(16, 8) == 0x1_0000_0000) by {
        reveal_with_fuel(pow, 9);
    }
}

/// Law: the digits are the lower-case hexadecimal ones, `0`-`9` then
/// `a`-`f`, and each reads back as its own value.
pub proof fn law_hex_digits_lower_case(d: int)
    requires
        0 <= d < 16,
    ensures
        hex_digit(d) == "0123456789abcdef"@[d],
        digit_value(hex_digit(d)) == d,
{
    reveal_strlit("0123456789abcdef");
}

/// The one-character text of the digit `d`.
fn digit_str(d: u32) -> (s: &'static str)
    requires
        d < 16,
    ensures
        s@ == seq![hex_digit(d as int)],
{
    let digits = "0123456789abcdef";
    proof {
        reveal_strlit("0123456789abcdef");
    }
    let r = digits.substring_ascii(d as usize, d as usize + 1);
    assert(r@ =~= seq![hex_digit(d as int)]);
    r
}

/// Appends the last `n` hexadecimal digits of `x` to `s`.
fn append_hex_digits(s: &mut String, x: u32, n: usize)
    ensures
        final(s)@ == old(s)@ + hex_digits(x as nat, n as nat),
    decreases n,
{
    if n > 0 {
        append_hex_digits(s, x / 16, n - 1);
        s.append(digit_str(x % 16));
        assert(hex_digits(x as nat, n as nat) =~= hex_digits((x / 16) as nat, (n - 1) as nat).push(
            hex_digit((x % 16) as int),
        ));
    }
}

impl read_partid_serialno_t {
    /// Part ID as a 16-digit hex string.
    pub fn part_id_hex(&self) -> (s: String)
        ensures
            s@ == hex8(self.part_id[0]) + hex8(self.part_id[1]),
    {
        let mut s = String::new();
        append_hex_digits(&mut s, self.part_id[0], 8);
        append_hex_digits(&mut s, self.part_id[1], 8);
        s
    }

    /// Serial number as a 32-digit hex string.
    pub fn serial_hex(&self) -> (s: String)
        ensures
            s@ == hex8(self.serial_no[0]) + hex8(self.serial_no[1]) + hex8(self.serial_no[2])
                + hex8(self.serial_no[3]),
    {
        let mut s = String::new();
        append_hex_digits(&mut s, self.serial_no[0], 8);
        append_hex_digits(&mut s, self.serial_no[1], 8);
        append_hex_digits(&mut s, self.serial_no[2], 8);
        append_hex_digits(&mut s, self.serial_no[3], 8);
        s
    }
}

} // verus!
