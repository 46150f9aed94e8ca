//! Formatting of a packed 24-bit color as hexadecimal text: a `0x` prefix
//! followed by exactly six lowercase hexadecimal digits.

use vstd::prelude::*;
use vstd::string::StringExecFns;

verus! {

/// The lowercase hexadecimal digit for a value below sixteen.
pub open spec fn hex_digit(n: int) -> char {
    if n == 0 {
        '0'
    } else if n == 1 {
        '1'
    } else if n == 2 {
        '2'
    } else if n == 3 {
        '3'
    } else if n == 4 {
        '4'
    } else if n == 5 {
        '5'
    } else if n == 6 {
        '6'
    } else if n == 7 {
        '7'
    } else if n == 8 {
        '8'
    } else if n == 9 {
        '9'
    } else if n == 10 {
        'a'
    } else if n == 11 {
        'b'
    } else if n == 12 {
        'c'
    } else if n == 13 {
        'd'
    } else if n == 14 {
        'e'
    } else {
        'f'
    }
}

/// The text form of a packed 24-bit color: `0x` and six lowercase
/// hexadecimal digits, most significant nibble first.
pub open spec fn color_hex(c: int) -> Seq<char> {
    seq![
        '0',
        'x',
        hex_digit((c / 0x100000) % 16),
        hex_digit((c / 0x10000) % 16),
        hex_digit((c / 0x1000) % 16),
        hex_digit((c / 0x100) % 16),
        hex_digit((c / 0x10) % 16),
        hex_digit(c % 16),
    ]
}

/// A lowercase hexadecimal digit character.
pub open spec fn is_hex_digit_char(c: char) -> bool {
    exists|n: int| 0 <= n < 16 && c == hex_digit(n)
}

/// The color text is always well formed: eight characters, a `0x` prefix,
/// then six lowercase hexadecimal digits.
pub proof fn lemma_color_hex_well_formed(c: int)
    requires
        0 <= c < 0x1000000,
    ensures
        color_hex(c).len() == 8,
        color_hex(c)[0] == '0',
        color_hex(c)[1] == 'x',
        forall|i: int| 2 <= i < 8 ==> is_hex_digit_char(#[trigger] color_hex(c)[i]),
{
    assert forall|i: int| 2 <= i < 8 implies is_hex_digit_char(#[trigger] color_hex(c)[i]) by {
        if i == 2 {
            assert(color_hex(c)[i] == hex_digit((c / 0x100000) % 16));
        } else if i == 3 {
            assert(color_hex(c)[i] == hex_digit((c / 0x10000) % 16));
        } else if i == 4 {
            assert(color_hex(c)[i] == hex_digit((c / 0x1000) % 16));
        } else if i == 5 {
            assert(color_hex(c)[i] == hex_digit((c / 0x100) % 16));
        } else if i == 6 {
            assert(color_hex(c)[i] == hex_digit((c / 0x10) % 16));
        } else {
            assert(color_hex(c)[i] == hex_digit(c % 16));
        }
    }
}

/// The one-character string slice holding the lowercase hexadecimal digit
/// for `n`.
fn hex_digit_str(n: u32) -> (r: &'static str)
    requires
        n < 16,
    ensures
        r@ == seq![hex_digit(n as int)],
{
    let s: &'static str = match n {
        0 => "0",
        1 => "1",
        2 => "2",
        3 => "3",
        4 => "4",
        5 => "5",
        6 => "6",
        7 => "7",
        8 => "8",
        9 => "9",
        10 => "a",
        11 => "b",
        12 => "c",
        13 => "d",
        14 => "e",
        _ => "f",
    };
    proof {
        reveal_strlit("0");
        reveal_strlit("1");
        reveal_strlit("2");
        reveal_strlit("3");
        reveal_strlit("4");
        reveal_strlit("5");
        reveal_strlit("6");
        reveal_strlit("7");
        reveal_strlit("8");
        reveal_strlit("9");
        reveal_strlit("a");
        reveal_strlit("b");
        reveal_strlit("c");
        reveal_strlit("d");
        reveal_strlit("e");
        reveal_strlit("f");
        assert(s@ =~= seq![hex_digit(n as int)]);
    }
    s
}

/// Builds the `0x`-prefixed six-digit lowercase hexadecimal text of a
/// packed 24-bit color.
pub fn color_hex_string(c: u32) -> (r: String)
    requires
        c < 0x1000000,
    ensures
        r@ == color_hex(c as int),
{
    let mut s = String::from_str("0x");
    s.append(hex_digit_str((c / 0x100000) % 16));
    s.append(hex_digit_str((c / 0x10000) % 16));
    s.append(hex_digit_str((c / 0x1000) % 16));
    s.append(hex_digit_str((c / 0x100) % 16));
    s.append(hex_digit_str((c / 0x10) % 16));
    s.append(hex_digit_str(c % 16));
    proof {
        reveal_strlit("0x");
        assert(s@ =~= color_hex(c as int));
    }
    s
}

} // verus!
