//! Corridor identifiers.
//!
//! The registry issues ids of the shape `cor-XXXX`: a fixed prefix followed by
//! the lowercase hexadecimal digits of a counter, zero-padded to at least four
//! digits. Distinct counters give distinct id strings
//! ([`lemma_id_seq_injective`]), which is what makes generated ids unique for
//! the lifetime of a registry.

use vstd::prelude::*;

verus! {

/// The lowercase hexadecimal digit character for `d`.
pub open spec fn hex_char(d: nat) -> char {
    if d == 0 {
        '0'
    } else if d == 1 {
        '1'
    } else if d == 2 {
        '2'
    } else if d == 3 {
        '3'
    } else if d == 4 {
        '4'
    } else if d == 5 {
        '5'
    } else if d == 6 {
        '6'
    } else if d == 7 {
        '7'
    } else if d == 8 {
        '8'
    } else if d == 9 {
        '9'
    } else if d == 10 {
        'a'
    } else if d == 11 {
        'b'
    } else if d == 12 {
        'c'
    } else if d == 13 {
        'd'
    } else if d == 14 {
        'e'
    } else {
        'f'
    }
}

/// The numeric value of a lowercase hexadecimal digit character
/// (16 for any other character).
pub open spec fn hex_char_val(c: char) -> nat {
    if c == '0' {
        0
    } else if c == '1' {
        1
    } else if c == '2' {
        2
    } else if c == '3' {
        3
    } else if c == '4' {
        4
    } else if c == '5' {
        5
    } else if c == '6' {
        6
    } else if c == '7' {
        7
    } else if c == '8' {
        8
    } else if c == '9' {
        9
    } else if c == 'a' {
        10
    } else if c == 'b' {
        11
    } else if c == 'c' {
        12
    } else if c == 'd' {
        13
    } else if c == 'e' {
        14
    } else if c == 'f' {
        15
    } else {
        16
    }
}

/// The lowercase hexadecimal digits of `n`, most significant first,
/// without leading zeros (a single `'0'` for zero).
pub open spec fn hex_digits(n: nat) -> Seq<char>
    decreases n,
{
    if n < 16 {
        seq![hex_char(n)]
    } else {
        hex_digits(n / 16).push(hex_char(n % 16))
    }
}

/// `s` preceded by as many `'0'` characters as it takes to reach
/// four characters.
pub open spec fn zero_pad4(s: Seq<char>) -> Seq<char> {
    if s.len() >= 4 {
        s
    } else {
        Seq::new((4 - s.len()) as nat, |i: int| '0') + s
    }
}

/// The id string issued for counter value `n`.
pub open spec fn id_seq(n: nat) -> Seq<char> {
    "cor-"@ + zero_pad4(hex_digits(n))
}

/// The number denoted by a sequence of hexadecimal digit characters.
pub open spec fn digits_val(s: Seq<char>) -> nat
    decreases s.len(),
{
    if s.len() == 0 {
        0
    } else {
        digits_val(s.drop_last()) * 16 + hex_char_val(s.last())
    }
}

/// Reading back the digit character of a value below 16 gives that value.
pub proof fn lemma_hex_char_roundtrip(d: nat)
    requires
        d < 16,
    ensures
        hex_char_val(hex_char(d)) == d,
{
}

/// Leading zero characters do not change the value a digit string denotes.
pub proof fn lemma_leading_zeros_val(k: nat, s: Seq<char>)
    ensures
        digits_val(Seq::new(k, |i: int| '0') + s) == digits_val(s),
    decreases s.len() + k,
{
    let z = Seq::new(k, |i: int| '0');
    if s.len() == 0 {
        assert(z + s =~= z);
        if k > 0 {
            let z1 = Seq::new((k - 1) as nat, |i: int| '0');
            assert(z.drop_last() =~= z1);
            assert(z.last() == '0');
            lemma_leading_zeros_val((k - 1) as nat, s);
            assert(z1 + s =~= z1);
        }
    } else {
        assert((z + s).drop_last() =~= z + s.drop_last());
        assert((z + s).last() == s.last());
        lemma_leading_zeros_val(k, s.drop_last());
    }
}

/// The digit string of `n` denotes `n`.
pub proof fn lemma_hex_digits_val(n: nat)
    ensures
        digits_val(hex_digits(n)) == n,
    decreases n,
{
    if n < 16 {
        let s = seq![hex_char(n)];
        assert(s.drop_last() =~= Seq::<char>::empty());
        assert(s.last() == hex_char(n));
        lemma_hex_char_roundtrip(n);
        assert(digits_val(s) == digits_val(s.drop_last()) * 16 + hex_char_val(s.last()));
        assert(digits_val(Seq::<char>::empty()) == 0);
    } else {
        let s = hex_digits(n);
        assert(s.drop_last() =~= hex_digits(n / 16));
        lemma_hex_digits_val(n / 16);
        lemma_hex_char_roundtrip(n % 16);
        assert(digits_val(s) == (n / 16) * 16 + n % 16);
        assert((n / 16) * 16 + n % 16 == n) by (nonlinear_arith);
    }
}

/// The padded digit string of `n` still denotes `n`.
pub proof fn lemma_zero_pad4_val(n: nat)
    ensures
        digits_val(zero_pad4(hex_digits(n))) == n,
{
    lemma_hex_digits_val(n);
    let d = hex_digits(n);
    if d.len() < 4 {
        lemma_leading_zeros_val((4 - d.len()) as nat, d);
    }
}

/// The one-character string for the hexadecimal digit `d`.
fn hex_digit_str(d: u32) -> (s: &'static str)
    requires
        d < 16,
    ensures
        s@ == seq![hex_char(d as nat)],
{
    proof {
        reveal_strlit("0");
        reveal_strlit("1");
        reveal_strlit("2");
        reveal_strlit("3");
        reveal_strlit("4");
        reveal_strlit("5");
        reveal_strlit("6");
        reveal_strlit("7");
        reveal_strlit("8");
        reveal_strlit("9");
        reveal_strlit("a");
        reveal_strlit("b");
        reveal_strlit("c");
        reveal_strlit("d");
        reveal_strlit("e");
        reveal_strlit("f");
    }
    let s = match d {
        0 => "0",
        1 => "1",
        2 => "2",
        3 => "3",
        4 => "4",
        5 => "5",
        6 => "6",
        7 => "7",
        8 => "8",
        9 => "9",
        10 => "a",
        11 => "b",
        12 => "c",
        13 => "d",
        14 => "e",
        _ => "f",
    };
    proof {
        assert(s@ =~= seq![hex_char(d as nat)]);
    }
    s
}

/// The lowercase hexadecimal rendering of `n`, without leading zeros.
fn hex_str(n: u32) -> (s: String)
    ensures
        s@ == hex_digits(n as nat),
    decreases n,
{
    if n < 16 {
        hex_digit_str(n).to_owned()
    } else {
        let mut s = hex_str(n / 16);
        s.append(hex_digit_str(n % 16));
        proof {
            assert(s@ =~= hex_digits(n as nat));
        }
        s
    }
}

/// The number of digits in the hexadecimal rendering of `n`.
proof fn lemma_hex_digits_len(n: nat)
    ensures
        1 <= hex_digits(n).len(),
        n < 16 ==> hex_digits(n).len() == 1,
        16 <= n < 256 ==> hex_digits(n).len() == 2,
        256 <= n < 4096 ==> hex_digits(n).len() == 3,
        4096 <= n ==> hex_digits(n).len() >= 4,
    decreases n,
{
    if n >= 16 {
        lemma_hex_digits_len(n / 16);
    }
}

/// The id string issued for counter value `n`: `"cor-"` followed by the
/// hexadecimal digits of `n`, zero-padded to at least four digits.
pub fn format_id(n: u32) -> (s: String)
    ensures
        s@ == id_seq(n as nat),
{
    let digits = hex_str(n);
    let mut s = String::from_str("cor-");
    proof {
        lemma_hex_digits_len(n as nat);
    }
    if n < 16 {
        s.append("000");
        proof {
            reveal_strlit("000");
            assert("000"@ =~= Seq::new(3, |i: int| '0'));
            assert(Seq::new(3, |i: int| '0') =~= Seq::new(
                (4 - digits@.len()) as nat,
                |i: int| '0',
            ));
        }
    } else if n < 256 {
        s.append("00");
        proof {
            reveal_strlit("00");
            assert("00"@ =~= Seq::new(2, |i: int| '0'));
            assert(Seq::new(2, |i: int| '0') =~= Seq::new(
                (4 - digits@.len()) as nat,
                |i: int| '0',
            ));
        }
    } else if n < 4096 {
        s.append("0");
        proof {
            reveal_strlit("0");
            assert("0"@ =~= Seq::new(1, |i: int| '0'));
            assert(Seq::new(1, |i: int| '0') =~= Seq::new(
                (4 - digits@.len()) as nat,
                |i: int| '0',
            ));
        }
    }
    s.append(digits.as_str());
    proof {
        assert(s@ =~= id_seq(n as nat));
    }
    s
}

/// Distinct counter values are issued distinct id strings.
pub proof fn lemma_id_seq_injective(a: nat, b: nat)
    requires
        id_seq(a) == id_seq(b),
    ensures
        a == b,
{
    reveal_strlit("cor-");
    let pa = zero_pad4(hex_digits(a));
    let pb = zero_pad4(hex_digits(b));
    assert(("cor-"@ + pa).len() == 4 + pa.len());
    assert(pa =~= ("cor-"@ + pa).subrange(4, ("cor-"@ + pa).len() as int));
    assert(pb =~= ("cor-"@ + pb).subrange(4, ("cor-"@ + pb).len() as int));
    assert(pa == pb);
    lemma_zero_pad4_val(a);
    lemma_zero_pad4_val(b);
}

} // verus!
