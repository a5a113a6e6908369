//! Fixed-width hexadecimal rendering of words.
//!
//! Commitments and transaction identifiers are exposed for logging and
//! auditing as `0x` followed by the four elements of the word, sixteen
//! lowercase hex digits each, most significant nibble first — 66
//! characters in all, always.

use vstd::prelude::*;
use vstd::string::StringExecFns;
use crate::field::Word;

verus! {

/// The hex digit for one value below sixteen.
pub open spec fn hex_digit_spec(n: u64) -> char {
    if n == 0 {
        '0'
    } else if n == 1 {
        '1'
    } else if n == 2 {
        '2'
    } else if n == 3 {
        '3'
    } else if n == 4 {
        '4'
    } else if n == 5 {
        '5'
    } else if n == 6 {
        '6'
    } else if n == 7 {
        '7'
    } else if n == 8 {
        '8'
    } else if n == 9 {
        '9'
    } else if n == 10 {
        'a'
    } else if n == 11 {
        'b'
    } else if n == 12 {
        'c'
    } else if n == 13 {
        'd'
    } else if n == 14 {
        'e'
    } else {
        'f'
    }
}

/// The sixteen hex digits of one element, most significant nibble first.
pub open spec fn limb_hex_spec(v: u64) -> Seq<char> {
    Seq::new(16, |i: int| hex_digit_spec((v >> (((15 - i) * 4) as u64)) & 0xF))
}

/// The fixed-width hexadecimal form of a word: `0x`, then its four
/// elements in order.
pub open spec fn word_hex_spec(w: Word) -> Seq<char> {
    seq!['0', 'x'] + limb_hex_spec(w.e0) + limb_hex_spec(w.e1) + limb_hex_spec(w.e2)
        + limb_hex_spec(w.e3)
}

/// Appends the hex digit for `n`.
fn push_hex_digit(s: &mut String, n: u64)
    requires
        n < 16,
    ensures
        final(s)@ == old(s)@ + seq![hex_digit_spec(n)],
{
    if n == 0 {
        s.append("0");
        proof {
            reveal_strlit("0");
            assert("0"@ =~= seq![hex_digit_spec(n)]);
        }
    } else if n == 1 {
        s.append("1");
        proof {
            reveal_strlit("1");
            assert("1"@ =~= seq![hex_digit_spec(n)]);
        }
    } else if n == 2 {
        s.append("2");
        proof {
            reveal_strlit("2");
            assert("2"@ =~= seq![hex_digit_spec(n)]);
        }
    } else if n == 3 {
        s.append("3");
        proof {
            reveal_strlit("3");
            assert("3"@ =~= seq![hex_digit_spec(n)]);
        }
    } else if n == 4 {
        s.append("4");
        proof {
            reveal_strlit("4");
            assert("4"@ =~= seq![hex_digit_spec(n)]);
        }
    } else if n == 5 {
        s.append("5");
        proof {
            reveal_strlit("5");
            assert("5"@ =~= seq![hex_digit_spec(n)]);
        }
    } else if n == 6 {
        s.append("6");
        proof {
            reveal_strlit("6");
            assert("6"@ =~= seq![hex_digit_spec(n)]);
        }
    } else if n == 7 {
        s.append("7");
        proof {
            reveal_strlit("7");
            assert("7"@ =~= seq![hex_digit_spec(n)]);
        }
    } else if n == 8 {
        s.append("8");
        proof {
            reveal_strlit("8");
            assert("8"@ =~= seq![hex_digit_spec(n)]);
        }
    } else if n == 9 {
        s.append("9");
        proof {
            reveal_strlit("9");
            assert("9"@ =~= seq![hex_digit_spec(n)]);
        }
    } else if n == 10 {
        s.append("a");
        proof {
            reveal_strlit("a");
            assert("a"@ =~= seq![hex_digit_spec(n)]);
        }
    } else if n == 11 {
        s.append("b");
        proof {
            reveal_strlit("b");
            assert("b"@ =~= seq![hex_digit_spec(n)]);
        }
    } else if n == 12 {
        s.append("c");
        proof {
            reveal_strlit("c");
            assert("c"@ =~= seq![hex_digit_spec(n)]);
        }
    } else if n == 13 {
        s.append("d");
        proof {
            reveal_strlit("d");
            assert("d"@ =~= seq![hex_digit_spec(n)]);
        }
    } else if n == 14 {
        s.append("e");
        proof {
            reveal_strlit("e");
            assert("e"@ =~= seq![hex_digit_spec(n)]);
        }
    } else {
        s.append("f");
        proof {
            reveal_strlit("f");
            assert("f"@ =~= seq![hex_digit_spec(n)]);
        }
    }
}

/// Appends the sixteen hex digits of one element.
fn push_limb_hex(s: &mut String, v: u64)
    ensures
        final(s)@ == old(s)@ + limb_hex_spec(v),
{
    let mut j: usize = 0;
    proof {
        assert(limb_hex_spec(v).subrange(0, 0) =~= Seq::<char>::empty());
        assert(s@ =~= s@ + limb_hex_spec(v).subrange(0, 0));
    }
    while j < 16
        invariant
            j <= 16,
            s@ == old(s)@ + limb_hex_spec(v).subrange(0, j as int),
        decreases 16 - j,
    {
        let sh: u64 = ((15 - j) as u64) * 4;
        let nib: u64 = (v >> sh) & 0xF;
        proof {
            assert((v >> sh) & 0xF < 16) by (bit_vector);
            assert(limb_hex_spec(v)[j as int] == hex_digit_spec(nib));
        }
        push_hex_digit(s, nib);
        proof {
            assert(limb_hex_spec(v).subrange(0, j as int + 1) =~= limb_hex_spec(v).subrange(
                0,
                j as int,
            ).push(limb_hex_spec(v)[j as int]));
            assert(s@ =~= old(s)@ + limb_hex_spec(v).subrange(0, j as int + 1));
        }
        j = j + 1;
    }
    proof {
        assert(limb_hex_spec(v).subrange(0, 16) =~= limb_hex_spec(v));
    }
}

/// Renders a word in its fixed-width hexadecimal form: 66 characters,
/// byte-identical for equal words.
pub fn word_to_hex(w: &Word) -> (r: String)
    ensures
        r@ == word_hex_spec(*w),
        r@.len() == 66,
{
    let mut s = String::new();
    s.append("0x");
    proof {
        reveal_strlit("0x");
        assert("0x"@ =~= seq!['0', 'x']);
    }
    push_limb_hex(&mut s, w.e0);
    push_limb_hex(&mut s, w.e1);
    push_limb_hex(&mut s, w.e2);
    push_limb_hex(&mut s, w.e3);
    proof {
        assert(s@ =~= word_hex_spec(*w));
    }
    s
}

} // verus!
