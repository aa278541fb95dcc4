//! The canonical text of an identifier: `puid-`, the prefix in lowercase
//! hexadecimal, a hyphen, and the offset in lowercase hexadecimal.

use crate::id::ProcessUniqueId;
use vstd::prelude::*;
use vstd::string::*;

verus! {

/// The sixteen hexadecimal digits, lowercase, by value.
pub open spec fn hex_alphabet() -> Seq<char> {
    seq!['0', '1', '2', '3', '4', '5', '6', '7', '8', '9', 'a', 'b', 'c', 'd', 'e', 'f']
}

/// The digits of `n` in base sixteen, most significant first, with no padding:
/// zero is the single digit `0`, and no other number starts with `0`.
pub open spec fn hex_digits(n: nat) -> Seq<char>
    decreases n,
{
    if n < 16 {
        seq![hex_alphabet()[n as int]]
    } else {
        hex_digits(n / 16).push(hex_alphabet()[(n % 16) as int])
    }
}

/// The value of a hexadecimal digit.
pub open spec fn digit_value(c: char) -> nat {
    if '0' <= c && c <= '9' {
        (c as u32 - '0' as u32) as nat
    } else {
        (c as u32 - 'a' as u32 + 10) as nat
    }
}

/// The number that a row of hexadecimal digits stands for, most significant
/// digit first.
pub open spec fn hex_value(digits: Seq<char>) -> nat
    decreases digits.len(),
{
    if digits.len() == 0 {
        0
    } else {
        hex_value(digits.drop_last()) * 16 + digit_value(digits.last())
    }
}

/// The canonical text of the identifier with the given fields.
pub open spec fn rendered(prefix: nat, offset: nat) -> Seq<char> {
    seq!['p', 'u', 'i', 'd', '-'] + hex_digits(prefix) + seq!['-'] + hex_digits(offset)
}

/// The text of one hexadecimal digit.
fn digit_text(d: u64) -> (r: &'static str)
    requires
        d < 16,
    ensures
        r@ == seq![hex_alphabet()[d as int]],
{
    proof {
        reveal_strlit("0");
        reveal_strlit("1");
        reveal_strlit("2");
        reveal_strlit("3");
        reveal_strlit("4");
        reveal_strlit("5");
        reveal_strlit("6");
        reveal_strlit("7");
        reveal_strlit("8");
        reveal_strlit("9");
        reveal_strlit("a");
        reveal_strlit("b");
        reveal_strlit("c");
        reveal_strlit("d");
        reveal_strlit("e");
        reveal_strlit("f");
    }
    let r = if d == 0 {
        "0"
    } else if d == 1 {
        "1"
    } else if d == 2 {
        "2"
    } else if d == 3 {
        "3"
    } else if d == 4 {
        "4"
    } else if d == 5 {
        "5"
    } else if d == 6 {
        "6"
    } else if d == 7 {
        "7"
    } else if d == 8 {
        "8"
    } else if d == 9 {
        "9"
    } else if d == 10 {
        "a"
    } else if d == 11 {
        "b"
    } else if d == 12 {
        "c"
    } else if d == 13 {
        "d"
    } else if d == 14 {
        "e"
    } else {
        "f"
    };
    assert(r@ =~= seq![hex_alphabet()[d as int]]);
    r
}

/// Appends the hexadecimal digits of `n` to `out`.
pub fn push_hex(out: &mut String, n: u64)
    ensures
        final(out)@ == old(out)@ + hex_digits(n as nat),
    decreases n,
{
    if n >= 16 {
        push_hex(out, n / 16);
    }
    out.append(digit_text(n % 16));
    assert(final(out)@ =~= old(out)@ + hex_digits(n as nat));
}

impl ProcessUniqueId {
    /// The canonical text of the identifier, such as `puid-0-0` or `puid-ff-10`.
    pub fn render_text(&self) -> (r: String)
        ensures
            r@ == rendered(self.prefix() as nat, self.offset() as nat),
    {
        proof {
            reveal_strlit("puid-");
            reveal_strlit("-");
        }
        let mut out = String::from_str("puid-");
        assert(out@ =~= seq!['p', 'u', 'i', 'd', '-']);
        push_hex(&mut out, self.prefix() as u64);
        out.append("-");
        assert("-"@ =~= seq!['-']);
        push_hex(&mut out, self.offset());
        out
    }
}

/// The digits of a number say which number it is: reading them back gives the
/// number, so different numbers have different digits. There is at least one
/// digit, and only zero starts with the digit `0`.
pub proof fn lemma_hex_digits_read_back(n: nat)
    ensures
        hex_value(hex_digits(n)) == n,
        hex_digits(n).len() >= 1,
        n > 0 ==> hex_digits(n)[0] != '0',
    decreases n,
{
    let digit = hex_alphabet()[(n % 16) as int];
    assert(digit_value(digit) == n % 16);
    if n < 16 {
        assert(hex_digits(n).drop_last() =~= Seq::<char>::empty());
        assert(hex_value(hex_digits(n).drop_last()) == 0);
    } else {
        lemma_hex_digits_read_back(n / 16);
        assert(hex_digits(n).drop_last() =~= hex_digits(n / 16));
        assert(hex_digits(n)[0] == hex_digits(n / 16)[0]);
    }
}

} // verus!
