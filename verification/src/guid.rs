//! Guid rendering.
//!
//! A raw 64-bit guid is rendered as an 18-character string: the prefix
//! `0x` followed by 16 uppercase hexadecimal digits, zero-padded.

use vstd::prelude::*;

verus! {

/// The uppercase hexadecimal digit for a value below 16.
pub open spec fn hex_digit_char(d: u64) -> char {
    if d == 0 {
        '0'
    } else if d == 1 {
        '1'
    } else if d == 2 {
        '2'
    } else if d == 3 {
        '3'
    } else if d == 4 {
        '4'
    } else if d == 5 {
        '5'
    } else if d == 6 {
        '6'
    } else if d == 7 {
        '7'
    } else if d == 8 {
        '8'
    } else if d == 9 {
        '9'
    } else if d == 10 {
        'A'
    } else if d == 11 {
        'B'
    } else if d == 12 {
        'C'
    } else if d == 13 {
        'D'
    } else if d == 14 {
        'E'
    } else {
        'F'
    }
}

/// The `i`-th hexadecimal digit of `g`, most significant first.
pub open spec fn spec_nibble(g: u64, i: int) -> u64 {
    (g >> (((15 - i) * 4) as u64)) & 0xf
}

/// The 16 hexadecimal digits of `g`, most significant first.
pub open spec fn spec_hex_digits(g: u64) -> Seq<char> {
    Seq::new(16, |i: int| hex_digit_char(spec_nibble(g, i)))
}

/// The full rendering: `0x` followed by the 16 digits.
pub open spec fn spec_hex18(g: u64) -> Seq<char> {
    seq!['0', 'x'] + spec_hex_digits(g)
}

/// Appends the uppercase hexadecimal digit for `d`.
fn append_hex_digit(s: &mut String, d: u64)
    requires
        d < 16,
    ensures
        final(s)@ == old(s)@ + seq![hex_digit_char(d)],
{
    if d == 0 {
        proof {
            reveal_strlit("0");
        }
        s.append("0");
    } else if d == 1 {
        proof {
            reveal_strlit("1");
        }
        s.append("1");
    } else if d == 2 {
        proof {
            reveal_strlit("2");
        }
        s.append("2");
    } else if d == 3 {
        proof {
            reveal_strlit("3");
        }
        s.append("3");
    } else if d == 4 {
        proof {
            reveal_strlit("4");
        }
        s.append("4");
    } else if d == 5 {
        proof {
            reveal_strlit("5");
        }
        s.append("5");
    } else if d == 6 {
        proof {
            reveal_strlit("6");
        }
        s.append("6");
    } else if d == 7 {
        proof {
            reveal_strlit("7");
        }
        s.append("7");
    } else if d == 8 {
        proof {
            reveal_strlit("8");
        }
        s.append("8");
    } else if d == 9 {
        proof {
            reveal_strlit("9");
        }
        s.append("9");
    } else if d == 10 {
        proof {
            reveal_strlit("A");
        }
        s.append("A");
    } else if d == 11 {
        proof {
            reveal_strlit("B");
        }
        s.append("B");
    } else if d == 12 {
        proof {
            reveal_strlit("C");
        }
        s.append("C");
    } else if d == 13 {
        proof {
            reveal_strlit("D");
        }
        s.append("D");
    } else if d == 14 {
        proof {
            reveal_strlit("E");
        }
        s.append("E");
    } else {
        proof {
            reveal_strlit("F");
        }
        s.append("F");
    }
    proof {
        assert(final(s)@ =~= old(s)@ + seq![hex_digit_char(d)]);
    }
}

/// Renders a raw guid as its 18-character `0x`-prefixed form.
pub fn format_guid(g: u64) -> (r: String)
    ensures
        r@ == spec_hex18(g),
{
    let mut s = String::from_str("0x");
    proof {
        reveal_strlit("0x");
        assert(s@ =~= seq!['0', 'x']);
    }
    let mut i: usize = 0;
    while i < 16
        invariant
            i <= 16,
            s@ =~= seq!['0', 'x'] + spec_hex_digits(g).take(i as int),
        decreases 16 - i,
    {
        let shift: u64 = (15 - (i as u64)) * 4;
        let d: u64 = (g >> shift) & 0xf;
        proof {
            assert((g >> shift) & 0xf < 16) by (bit_vector);
            assert(shift == ((15 - (i as int)) * 4) as u64);
            assert(d == spec_nibble(g, i as int));
        }
        append_hex_digit(&mut s, d);
        proof {
            assert(s@ =~= seq!['0', 'x'] + spec_hex_digits(g).take(i as int + 1));
        }
        i = i + 1;
    }
    proof {
        assert(spec_hex_digits(g).take(16) =~= spec_hex_digits(g));
        assert(s@ =~= spec_hex18(g));
    }
    s
}

/// A rendered guid is 18 characters: `0`, `x`, then 16 characters that
/// are each an uppercase hexadecimal digit.
pub proof fn lemma_guid_hex_shape(g: u64)
    ensures
        spec_hex18(g).len() == 18,
        spec_hex18(g)[0] == '0',
        spec_hex18(g)[1] == 'x',
        forall|i: int|
            2 <= i < 18 ==> (('0' <= #[trigger] spec_hex18(g)[i] <= '9') || ('A' <= spec_hex18(g)[i]
                <= 'F')),
{
    assert forall|i: int|
        2 <= i < 18 implies (('0' <= #[trigger] spec_hex18(g)[i] <= '9') || ('A' <= spec_hex18(g)[i]
        <= 'F')) by {
        let d = spec_nibble(g, i - 2);
        assert(spec_hex18(g)[i] == hex_digit_char(d));
    }
}

} // verus!
