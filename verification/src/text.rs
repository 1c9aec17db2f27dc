//! Text forms of the values that a form shows.
use vstd::prelude::*;

verus! {

/// The character of a decimal digit `d` (0 to 9).
pub open spec fn digit_char(d: int) -> char {
    (d + 48) as char
}

/// The decimal digits of `n`, most significant first, without leading zeros
/// (`0` is the single digit `0`).
pub open spec fn digits(n: nat) -> Seq<char>
    decreases n,
{
    if n < 10 {
        seq![digit_char(n as int)]
    } else {
        digits(n / 10).push(digit_char((n % 10) as int))
    }
}

/// The decimal representation of an integer, with a leading `-` when negative.
pub open spec fn decimal(n: int) -> Seq<char> {
    if n < 0 {
        seq!['-'] + digits((-n) as nat)
    } else {
        digits(n as nat)
    }
}

/// The text of a boolean.
pub open spec fn bool_text_spec(b: bool) -> Seq<char> {
    if b {
        "true"@
    } else {
        "false"@
    }
}

fn digit_str(d: u64) -> (s: &'static str)
    requires
        d < 10,
    ensures
        s@ == seq![digit_char(d as int)],
{
    proof {
        reveal_strlit("0");
        reveal_strlit("1");
        reveal_strlit("2");
        reveal_strlit("3");
        reveal_strlit("4");
        reveal_strlit("5");
        reveal_strlit("6");
        reveal_strlit("7");
        reveal_strlit("8");
        reveal_strlit("9");
    }
    if d == 0 {
        "0"
    } else if d == 1 {
        "1"
    } else if d == 2 {
        "2"
    } else if d == 3 {
        "3"
    } else if d == 4 {
        "4"
    } else if d == 5 {
        "5"
    } else if d == 6 {
        "6"
    } else if d == 7 {
        "7"
    } else if d == 8 {
        "8"
    } else {
        "9"
    }
}

fn push_digits(s: &mut String, n: u64)
    ensures
        final(s)@ == old(s)@ + digits(n as nat),
    decreases n,
{
    if n >= 10 {
        push_digits(s, n / 10);
    }
    s.append(digit_str(n % 10));
    proof {
        if n >= 10 {
            assert(old(s)@ + digits(n as nat) =~= old(s)@ + digits((n / 10) as nat) + seq![
                digit_char((n % 10) as int),
            ]);
        } else {
            assert(digits(n as nat) == seq![digit_char(n as int)]);
        }
    }
}

/// The decimal text of an unsigned integer, as `{:?}` writes it.
pub fn unsigned_text(n: u64) -> (s: String)
    ensures
        s@ == decimal(n as int),
{
    let mut s = String::new();
    push_digits(&mut s, n);
    assert(s@ =~= digits(n as nat));
    s
}

/// The decimal text of a signed integer, as `{:?}` writes it.
pub fn signed_text(n: i64) -> (s: String)
    ensures
        s@ == decimal(n as int),
{
    if n < 0 {
        let magnitude: u64 = (0i128 - (n as i128)) as u64;
        let mut s = "-".to_owned();
        proof {
            reveal_strlit("-");
        }
        push_digits(&mut s, magnitude);
        assert(s@ =~= seq!['-'] + digits((-n) as nat));
        s
    } else {
        unsigned_text(n as u64)
    }
}

/// The text of a boolean, as `{}` writes it.
pub fn bool_text(b: bool) -> (s: String)
    ensures
        s@ == bool_text_spec(b),
{
    if b {
        "true".to_owned()
    } else {
        "false".to_owned()
    }
}

/// Whether two texts are equal.
pub fn same_text(a: &String, b: &String) -> (r: bool)
    ensures
        r == (a@ == b@),
{
    *a == *b
}

/// Whether `c` is a decimal digit.
pub open spec fn is_digit(c: char) -> bool {
    '0' <= c && c <= '9'
}

/// The number that a sequence of decimal digits stands for, most significant
/// first.
pub open spec fn digits_value(s: Seq<char>) -> int
    decreases s.len(),
{
    if s.len() == 0 {
        0
    } else {
        digits_value(s.drop_last()) * 10 + (s.last() as int - '0' as int)
    }
}

/// Whether `s` is a canonical decimal numeral: at least one digit, all digits,
/// and no leading zero unless it is `0` itself.
pub open spec fn is_numeral(s: Seq<char>) -> bool {
    &&& s.len() >= 1
    &&& forall|i: int| 0 <= i < s.len() ==> is_digit(#[trigger] s[i])
    &&& s.len() > 1 ==> s[0] != '0'
}

proof fn lemma_digit_char(d: int)
    requires
        0 <= d < 10,
    ensures
        digit_char(d) as int == d + '0' as int,
        is_digit(digit_char(d)),
{
    assert(('0' as int) == 48);
    assert(('9' as int) == 57);
}

proof fn lemma_digits(n: nat)
    ensures
        is_numeral(digits(n)),
        digits_value(digits(n)) == n,
        digits(n).len() == 1 <==> n < 10,
    decreases n,
{
    if n < 10 {
        lemma_digit_char(n as int);
        assert(digits(n).drop_last() =~= Seq::<char>::empty());
        assert(digits(n).last() == digit_char(n as int));
        assert(digits_value(digits(n)) == digits_value(digits(n).drop_last()) * 10 + (digits(n).last() as int - '0' as int));
    } else {
        lemma_digit_char((n % 10) as int);
        lemma_digits(n / 10);
        let d = digits(n);
        let p = digits(n / 10);
        assert(d.drop_last() =~= p);
        assert(d.last() == digit_char((n % 10) as int));
        assert(n == (n / 10) * 10 + n % 10);
        assert(digits_value(d) == digits_value(p) * 10 + (d.last() as int - '0' as int));
        assert(digits_value(d) == n);
        assert forall|i: int| 0 <= i < d.len() implies is_digit(#[trigger] d[i]) by {
            if i < p.len() {
                assert(d[i] == p[i]);
            }
        }
        if p.len() == 1 {
            assert(p[0] == digit_char((n / 10) as int));
            lemma_digit_char((n / 10) as int);
        }
        assert(d[0] == p[0]);
    }
}

/// The decimal text of an integer is a canonical numeral for its magnitude,
/// with a leading `-` exactly when it is negative: it reads back as the
/// integer.
pub proof fn law_decimal_reads_back(n: int)
    ensures
        n >= 0 ==> is_numeral(decimal(n)) && digits_value(decimal(n)) == n,
        n < 0 ==> decimal(n).len() >= 2 && decimal(n)[0] == '-' && is_numeral(decimal(n).drop_first())
            && digits_value(decimal(n).drop_first()) == -n,
{
    if n >= 0 {
        lemma_digits(n as nat);
    } else {
        lemma_digits((-n) as nat);
        assert(decimal(n).drop_first() =~= digits((-n) as nat));
    }
}

} // verus!
