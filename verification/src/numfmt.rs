//! Rendering integers as decimal or hexadecimal text, and reading them
//! back: the building blocks for transaction identifiers, response
//! encodings and gas figures.

use vstd::prelude::*;

verus! {

/// The decimal digit character for a value below ten.
pub open spec fn dec_char(d: nat) -> char {
    if d == 0 {
        '0'
    } else if d == 1 {
        '1'
    } else if d == 2 {
        '2'
    } else if d == 3 {
        '3'
    } else if d == 4 {
        '4'
    } else if d == 5 {
        '5'
    } else if d == 6 {
        '6'
    } else if d == 7 {
        '7'
    } else if d == 8 {
        '8'
    } else {
        '9'
    }
}

/// The lower-case hexadecimal digit character for a value below sixteen.
pub open spec fn hex_char(d: nat) -> char {
    if d < 10 {
        dec_char(d)
    } else if d == 10 {
        'a'
    } else if d == 11 {
        'b'
    } else if d == 12 {
        'c'
    } else if d == 13 {
        'd'
    } else if d == 14 {
        'e'
    } else {
        'f'
    }
}

/// The decimal rendering of `n`, without leading zeros (a single `'0'`
/// for zero itself).
pub open spec fn dec_digits(n: nat) -> Seq<char>
    decreases n,
{
    if n < 10 {
        seq![dec_char(n)]
    } else {
        dec_digits(n / 10).push(dec_char(n % 10))
    }
}

/// The hexadecimal rendering of `n`, without leading zeros.
pub open spec fn hex_digits(n: nat) -> Seq<char>
    decreases n,
{
    if n < 16 {
        seq![hex_char(n)]
    } else {
        hex_digits(n / 16).push(hex_char(n % 16))
    }
}

/// The hexadecimal rendering of `n` padded with leading zeros to exactly
/// `width` digits; digits beyond the value's magnitude are zero.
pub open spec fn hex_digits_padded(n: nat, width: nat) -> Seq<char>
    decreases width,
{
    if width == 0 {
        Seq::empty()
    } else {
        hex_digits_padded(n / 16, (width - 1) as nat).push(hex_char(n % 16))
    }
}

/// One decimal digit as a string slice.
fn dec_digit_str(d: u64) -> (s: &'static str)
    requires
        d < 10,
    ensures
        s@ =~= seq![dec_char(d as nat)],
{
    proof {
        reveal_strlit("0");
        reveal_strlit("1");
        reveal_strlit("2");
        reveal_strlit("3");
        reveal_strlit("4");
        reveal_strlit("5");
        reveal_strlit("6");
        reveal_strlit("7");
        reveal_strlit("8");
        reveal_strlit("9");
    }
    if d == 0 {
        "0"
    } else if d == 1 {
        "1"
    } else if d == 2 {
        "2"
    } else if d == 3 {
        "3"
    } else if d == 4 {
        "4"
    } else if d == 5 {
        "5"
    } else if d == 6 {
        "6"
    } else if d == 7 {
        "7"
    } else if d == 8 {
        "8"
    } else {
        "9"
    }
}

/// One hexadecimal digit as a string slice.
fn hex_digit_str(d: u64) -> (s: &'static str)
    requires
        d < 16,
    ensures
        s@ =~= seq![hex_char(d as nat)],
{
    proof {
        reveal_strlit("a");
        reveal_strlit("b");
        reveal_strlit("c");
        reveal_strlit("d");
        reveal_strlit("e");
        reveal_strlit("f");
    }
    if d < 10 {
        dec_digit_str(d)
    } else if d == 10 {
        "a"
    } else if d == 11 {
        "b"
    } else if d == 12 {
        "c"
    } else if d == 13 {
        "d"
    } else if d == 14 {
        "e"
    } else {
        "f"
    }
}

/// Renders `n` in decimal.
pub fn u64_to_dec(n: u64) -> (s: String)
    ensures
        s@ == dec_digits(n as nat),
    decreases n,
{
    if n < 10 {
        String::from_str(dec_digit_str(n))
    } else {
        let prefix = u64_to_dec(n / 10);
        prefix.concat(dec_digit_str(n % 10))
    }
}

/// Renders `n` in hexadecimal, without leading zeros.
pub fn u64_to_hex(n: u64) -> (s: String)
    ensures
        s@ == hex_digits(n as nat),
    decreases n,
{
    if n < 16 {
        String::from_str(hex_digit_str(n))
    } else {
        let prefix = u64_to_hex(n / 16);
        prefix.concat(hex_digit_str(n % 16))
    }
}

/// Renders `n` in hexadecimal, zero-padded to `width` digits.
pub fn u64_to_hex_padded(n: u64, width: usize) -> (s: String)
    ensures
        s@ == hex_digits_padded(n as nat, width as nat),
    decreases width,
{
    if width == 0 {
        let s = String::new();
        proof {
            assert(s@ =~= hex_digits_padded(n as nat, 0));
        }
        s
    } else {
        let prefix = u64_to_hex_padded(n / 16, width - 1);
        prefix.concat(hex_digit_str(n % 16))
    }
}

/// Whether `c` is a decimal digit character.
pub open spec fn is_dec_char(c: char) -> bool {
    exists|d: nat| d < 10 && c == dec_char(d)
}

/// The numeric value of a decimal digit character.
pub open spec fn dec_char_val(c: char) -> nat {
    choose|d: nat| d < 10 && c == dec_char(d)
}

/// The value of a decimal digit sequence, most significant digit first.
pub open spec fn dec_val(s: Seq<char>) -> nat
    decreases s.len(),
{
    if s.len() == 0 {
        0
    } else {
        dec_val(s.drop_last()) * 10 + dec_char_val(s.last())
    }
}

/// Whether `s` is one or more decimal digits.
pub open spec fn all_dec_chars(s: Seq<char>) -> bool {
    forall|i: int| 0 <= i < s.len() ==> is_dec_char(#[trigger] s[i])
}

/// Whether `s` is the kind of text this crate reads as a `u64`: nonempty,
/// decimal digits only, and within range.
pub open spec fn parses_as_u64(s: Seq<char>) -> bool {
    s.len() > 0 && all_dec_chars(s) && dec_val(s) <= u64::MAX
}

proof fn lemma_dec_char_val(d: nat)
    requires
        d < 10,
    ensures
        is_dec_char(dec_char(d)),
        dec_char_val(dec_char(d)) == d,
{
    assert(is_dec_char(dec_char(d)));
    let picked = choose|e: nat| e < 10 && dec_char(d) == dec_char(e);
    assert(dec_char_val(dec_char(d)) == picked);
    assert(picked == d) by {
        if picked != d {
            assert(dec_char(d) != dec_char(picked));
        }
    }
}

/// Extending a digit string on the right can only increase its value.
proof fn lemma_dec_val_monotone(s: Seq<char>, i: int, j: int)
    requires
        0 <= i <= j <= s.len(),
    ensures
        dec_val(s.take(i)) <= dec_val(s.take(j)),
    decreases j - i,
{
    if i < j {
        lemma_dec_val_monotone(s, i, j - 1);
        assert(s.take(j).drop_last() =~= s.take(j - 1));
        assert(dec_val(s.take(j)) == dec_val(s.take(j - 1)) * 10 + dec_char_val(s.take(j).last()));
    }
}

/// Every decimal digit character sits between `'0'` and `'9'`.
proof fn lemma_dec_char_range(c: char)
    requires
        is_dec_char(c),
    ensures
        '0' <= c <= '9',
        c == dec_char((c as nat - 48) as nat),
{
    let d = choose|d: nat| d < 10 && c == dec_char(d);
    assert('0' <= dec_char(d) <= '9');
    assert(dec_char(d) as nat - 48 == d);
}

/// Reads a nonempty all-digit string as a `u64`; anything else, or a value
/// beyond `u64::MAX`, is `None`.
pub fn parse_u64(s: &str) -> (r: Option<u64>)
    ensures
        r is Some <==> parses_as_u64(s@),
        r is Some ==> r->0 == dec_val(s@),
{
    let n = s.unicode_len();
    let mut i: usize = 0;
    let mut acc: u64 = 0;
    if n == 0 {
        return None;
    }
    while i < n
        invariant
            0 <= i <= n,
            n == s@.len(),
            all_dec_chars(s@.take(i as int)),
            acc == dec_val(s@.take(i as int)),
            dec_val(s@.take(i as int)) <= u64::MAX,
        decreases n - i,
    {
        let c = s.get_char(i);
        proof {
            assert(s@[i as int] == c);
        }
        if c < '0' || c > '9' {
            proof {
                assert(!is_dec_char(c)) by {
                    if is_dec_char(c) {
                        lemma_dec_char_range(c);
                    }
                }
            }
            return None;
        }
        let d = ((c as u32) - 48) as u64;
        proof {
            assert(c == dec_char(d as nat));
            lemma_dec_char_val(d as nat);
            assert(s@.take(i + 1).drop_last() =~= s@.take(i as int));
            assert(s@.take(i + 1).last() == c);
        }
        if acc > (u64::MAX - d) / 10 {
            proof {
                assert(dec_val(s@.take(i + 1)) == acc * 10 + d);
                assert(acc * 10 + d > u64::MAX) by (nonlinear_arith)
                    requires
                        acc > (u64::MAX - d) / 10,
                        d < 10,
                ;
                lemma_dec_val_monotone(s@, i + 1, s@.len() as int);
                assert(s@.take(s@.len() as int) =~= s@);
            }
            return None;
        }
        proof {
            assert(acc * 10 + d <= u64::MAX) by (nonlinear_arith)
                requires
                    acc <= (u64::MAX - d) / 10,
                    d < 10,
            ;
        }
        acc = acc * 10 + d;
        i = i + 1;
    }
    proof {
        assert(s@.take(n as int) =~= s@);
    }
    Some(acc)
}

} // verus!
