//! Decimal rendering of integers, used by parameter encoding and by the
//! message of the unexpected-status error.

use vstd::prelude::*;

verus! {

/// The character for a single decimal digit.
pub open spec fn digit_char(d: nat) -> char {
    if d == 0 {
        '0'
    } else if d == 1 {
        '1'
    } else if d == 2 {
        '2'
    } else if d == 3 {
        '3'
    } else if d == 4 {
        '4'
    } else if d == 5 {
        '5'
    } else if d == 6 {
        '6'
    } else if d == 7 {
        '7'
    } else if d == 8 {
        '8'
    } else {
        '9'
    }
}

/// The decimal representation of a natural number, most significant digit
/// first, with no leading zeros (a single '0' for zero).
pub open spec fn spec_dec_nat(n: nat) -> Seq<char>
    decreases n,
{
    if n < 10 {
        seq![digit_char(n)]
    } else {
        spec_dec_nat(n / 10) + seq![digit_char(n % 10)]
    }
}

/// The decimal representation of an integer: a leading '-' for negatives.
pub open spec fn spec_dec_int(v: int) -> Seq<char> {
    if v < 0 {
        seq!['-'] + spec_dec_nat((-v) as nat)
    } else {
        spec_dec_nat(v as nat)
    }
}

/// Appends the character for one decimal digit.
fn push_digit(s: &mut String, d: u64)
    requires
        d < 10,
    ensures
        final(s)@ == old(s)@ + seq![digit_char(d as nat)],
{
    if d == 0 {
        proof {
            reveal_strlit("0");
        }
        assert("0"@ =~= seq![digit_char(d as nat)]);
        s.append("0");
    } else if d == 1 {
        proof {
            reveal_strlit("1");
        }
        assert("1"@ =~= seq![digit_char(d as nat)]);
        s.append("1");
    } else if d == 2 {
        proof {
            reveal_strlit("2");
        }
        assert("2"@ =~= seq![digit_char(d as nat)]);
        s.append("2");
    } else if d == 3 {
        proof {
            reveal_strlit("3");
        }
        assert("3"@ =~= seq![digit_char(d as nat)]);
        s.append("3");
    } else if d == 4 {
        proof {
            reveal_strlit("4");
        }
        assert("4"@ =~= seq![digit_char(d as nat)]);
        s.append("4");
    } else if d == 5 {
        proof {
            reveal_strlit("5");
        }
        assert("5"@ =~= seq![digit_char(d as nat)]);
        s.append("5");
    } else if d == 6 {
        proof {
            reveal_strlit("6");
        }
        assert("6"@ =~= seq![digit_char(d as nat)]);
        s.append("6");
    } else if d == 7 {
        proof {
            reveal_strlit("7");
        }
        assert("7"@ =~= seq![digit_char(d as nat)]);
        s.append("7");
    } else if d == 8 {
        proof {
            reveal_strlit("8");
        }
        assert("8"@ =~= seq![digit_char(d as nat)]);
        s.append("8");
    } else {
        proof {
            reveal_strlit("9");
        }
        assert("9"@ =~= seq![digit_char(d as nat)]);
        s.append("9");
    }
}

/// Appends the decimal representation of an unsigned value.
pub fn push_dec_u64(s: &mut String, v: u64)
    ensures
        final(s)@ == old(s)@ + spec_dec_nat(v as nat),
    decreases v,
{
    if v >= 10 {
        push_dec_u64(s, v / 10);
    }
    push_digit(s, v % 10);
    proof {
        if v >= 10 {
            assert(old(s)@ + spec_dec_nat((v / 10) as nat) + seq![digit_char((v % 10) as nat)]
                =~= old(s)@ + spec_dec_nat(v as nat));
        }
    }
}

/// Appends the decimal representation of a signed value.
pub fn push_dec_i32(s: &mut String, v: i32)
    ensures
        final(s)@ == old(s)@ + spec_dec_int(v as int),
{
    if v < 0 {
        proof {
            reveal_strlit("-");
        }
        assert("-"@ =~= seq!['-']);
        s.append("-");
        assert(s@ == old(s)@ + seq!['-']);
        let m: u64 = (-(v as i64)) as u64;
        assert(m as nat == (-(v as int)) as nat);
        push_dec_u64(s, m);
        assert(old(s)@ + seq!['-'] + spec_dec_nat(m as nat) =~= old(s)@ + spec_dec_int(v as int));
    } else {
        push_dec_u64(s, v as u64);
    }
}

/// Whether a character is a decimal digit.
pub open spec fn spec_is_digit(c: char) -> bool {
    c == '0' || c == '1' || c == '2' || c == '3' || c == '4' || c == '5' || c == '6' || c == '7'
        || c == '8' || c == '9'
}

/// A decimal rendering of a natural number holds digits alone.
pub proof fn lemma_dec_nat_excludes(n: nat, c: char)
    requires
        !spec_is_digit(c),
    ensures
        !spec_dec_nat(n).contains(c),
    decreases n,
{
    if n < 10 {
        if spec_dec_nat(n).contains(c) {
            let k = choose|k: int| 0 <= k < spec_dec_nat(n).len() && spec_dec_nat(n)[k] == c;
            assert(k == 0);
            assert(false);
        }
    } else {
        lemma_dec_nat_excludes(n / 10, c);
        let head = spec_dec_nat(n / 10);
        if spec_dec_nat(n).contains(c) {
            let k = choose|k: int| 0 <= k < spec_dec_nat(n).len() && spec_dec_nat(n)[k] == c;
            if k < head.len() {
                assert(head.contains(c)) by {
                    assert(head[k] == c);
                }
            } else {
                assert(spec_dec_nat(n)[k] == digit_char(n % 10));
                assert(false);
            }
        }
    }
}

/// A decimal rendering of an integer holds digits and a leading sign
/// alone.
pub proof fn lemma_dec_int_excludes(v: int, c: char)
    requires
        !spec_is_digit(c),
        c != '-',
    ensures
        !spec_dec_int(v).contains(c),
{
    if v < 0 {
        lemma_dec_nat_excludes((-v) as nat, c);
        let m = spec_dec_nat((-v) as nat);
        if spec_dec_int(v).contains(c) {
            let k = choose|k: int| 0 <= k < spec_dec_int(v).len() && spec_dec_int(v)[k] == c;
            if k > 0 {
                assert(m.contains(c)) by {
                    assert(m[k - 1] == c);
                }
            }
            assert(false);
        }
    } else {
        lemma_dec_nat_excludes(v as nat, c);
    }
}

/// The decimal representation of a value is never empty.
pub proof fn lemma_dec_nat_nonempty(n: nat)
    ensures
        spec_dec_nat(n).len() > 0,
    decreases n,
{
    if n >= 10 {
        lemma_dec_nat_nonempty(n / 10);
    }
}

/// The decimal representation of a value ends in a digit, never in a
/// separator character.
pub proof fn lemma_dec_int_last_is_digit(v: int)
    ensures
        spec_dec_int(v).len() > 0,
        spec_dec_int(v).last() == digit_char((if v < 0 { -v } else { v }) as nat % 10),
{
    if v < 0 {
        lemma_dec_nat_nonempty(((-v) as nat) / 10);
    } else {
        lemma_dec_nat_nonempty((v as nat) / 10);
    }
}

} // verus!
