use vstd::prelude::*;

verus! {

/// The decimal digit character for `d`, meaningful for `0 <= d < 10`.
pub open spec fn digit_char(d: int) -> char {
    if d == 0 {
        '0'
    } else if d == 1 {
        '1'
    } else if d == 2 {
        '2'
    } else if d == 3 {
        '3'
    } else if d == 4 {
        '4'
    } else if d == 5 {
        '5'
    } else if d == 6 {
        '6'
    } else if d == 7 {
        '7'
    } else if d == 8 {
        '8'
    } else {
        '9'
    }
}

/// The decimal digits of `n`, most significant first, with no sign and no
/// leading zero (zero itself is the single character `'0'`).
pub open spec fn dec_digits(n: nat) -> Seq<char>
    decreases n,
{
    if n < 10 {
        seq![digit_char(n as int)]
    } else {
        dec_digits(n / 10).push(digit_char((n % 10) as int))
    }
}

/// The decimal rendering of any integer: the digits of its magnitude,
/// with a minus sign ahead of them when it is negative.
pub open spec fn dec_int(i: int) -> Seq<char> {
    if i >= 0 {
        dec_digits(i as nat)
    } else {
        seq!['-'] + dec_digits((-i) as nat)
    }
}

/// The value of the digit character `c`, or -1 when `c` is no decimal digit.
pub open spec fn digit_of(c: char) -> int {
    if c == '0' {
        0
    } else if c == '1' {
        1
    } else if c == '2' {
        2
    } else if c == '3' {
        3
    } else if c == '4' {
        4
    } else if c == '5' {
        5
    } else if c == '6' {
        6
    } else if c == '7' {
        7
    } else if c == '8' {
        8
    } else if c == '9' {
        9
    } else {
        -1
    }
}

/// Whether `s` is a plain decimal numeral: non-empty and decimal digits alone.
pub open spec fn is_digits(s: Seq<char>) -> bool {
    s.len() > 0 && forall|j: int| 0 <= j < s.len() ==> digit_of(s[j]) >= 0
}

/// The value of the numeral `s`, read most significant digit first.
pub open spec fn digits_val(s: Seq<char>) -> int
    decreases s.len(),
{
    if s.len() == 0 {
        0
    } else {
        digits_val(s.drop_last()) * 10 + digit_of(s.last())
    }
}

/// A numeral of digits alone never has a negative value.
pub proof fn lemma_digits_val_nonneg(s: Seq<char>)
    requires
        forall|j: int| 0 <= j < s.len() ==> digit_of(s[j]) >= 0,
    ensures
        digits_val(s) >= 0,
    decreases s.len(),
{
    if s.len() > 0 {
        lemma_digits_val_nonneg(s.drop_last());
    }
}

/// Reading one more digit multiplies the prefix value by ten and adds it.
pub proof fn lemma_digits_val_extend(s: Seq<char>, k: int)
    requires
        0 <= k < s.len(),
    ensures
        digits_val(s.subrange(0, k + 1)) == digits_val(s.subrange(0, k)) * 10 + digit_of(s[k]),
{
    let t = s.subrange(0, k + 1);
    assert(t.drop_last() =~= s.subrange(0, k));
    assert(t.last() == s[k]);
}

/// The value of a numeral's prefix never exceeds the whole numeral's value.
pub proof fn lemma_digits_val_prefix_le(s: Seq<char>, k: int)
    requires
        forall|j: int| 0 <= j < s.len() ==> digit_of(s[j]) >= 0,
        0 <= k <= s.len(),
    ensures
        digits_val(s.subrange(0, k)) <= digits_val(s),
    decreases s.len() - k,
{
    if k == s.len() {
        assert(s.subrange(0, k) =~= s);
    } else {
        let p = s.subrange(0, k);
        assert(forall|j: int| 0 <= j < p.len() ==> digit_of(p[j]) >= 0);
        lemma_digits_val_nonneg(p);
        lemma_digits_val_extend(s, k);
        lemma_digits_val_prefix_le(s, k + 1);
    }
}

/// The one-character string for the decimal digit `d`.
fn digit_str(d: u64) -> (r: &'static str)
    requires
        d < 10,
    ensures
        r@ == seq![digit_char(d as int)],
{
    proof {
        reveal_strlit("0");
        reveal_strlit("1");
        reveal_strlit("2");
        reveal_strlit("3");
        reveal_strlit("4");
        reveal_strlit("5");
        reveal_strlit("6");
        reveal_strlit("7");
        reveal_strlit("8");
        reveal_strlit("9");
    }
    let r = match d {
        0 => "0",
        1 => "1",
        2 => "2",
        3 => "3",
        4 => "4",
        5 => "5",
        6 => "6",
        7 => "7",
        8 => "8",
        _ => "9",
    };
    proof {
        assert(r@ =~= seq![digit_char(d as int)]);
    }
    r
}

/// Renders `n` in decimal, matching `dec_digits`.
pub fn u64_to_string(n: u64) -> (r: String)
    ensures
        r@ == dec_digits(n as nat),
    decreases n,
{
    if n < 10 {
        String::from_str(digit_str(n))
    } else {
        let mut r = u64_to_string(n / 10);
        r.append(digit_str(n % 10));
        proof {
            assert(dec_digits((n / 10) as nat) + seq![digit_char((n % 10) as int)] =~= dec_digits(
                n as nat,
            ));
        }
        r
    }
}

/// Renders `i` in decimal, with a leading minus sign for negatives.
pub fn i64_to_string(i: i64) -> (r: String)
    ensures
        r@ == dec_int(i as int),
{
    if i >= 0 {
        u64_to_string(i as u64)
    } else {
        let m: u64 = if i == i64::MIN {
            9223372036854775808u64
        } else {
            (-i) as u64
        };
        proof {
            assert(m as int == -(i as int));
        }
        let mut r = String::from_str("-");
        let digits = u64_to_string(m);
        r.append(digits.as_str());
        proof {
            reveal_strlit("-");
            assert("-"@ + dec_digits(m as nat) =~= dec_int(i as int));
        }
        r
    }
}

/// The value of a decimal digit character, `None` for any other character.
pub fn digit_val(c: char) -> (r: Option<u8>)
    ensures
        r matches Some(d) ==> digit_of(c) == d as int,
        r is None ==> digit_of(c) < 0,
{
    match c {
        '0' => Some(0),
        '1' => Some(1),
        '2' => Some(2),
        '3' => Some(3),
        '4' => Some(4),
        '5' => Some(5),
        '6' => Some(6),
        '7' => Some(7),
        '8' => Some(8),
        '9' => Some(9),
        _ => None,
    }
}

/// Parses a decimal numeral into a non-negative `i64`.
///
/// Returns `Some` exactly when `s` is non-empty, holds decimal digits
/// alone, and its value fits; the parsed value is the numeral's value.
pub fn parse_id(s: &str) -> (r: Option<i64>)
    ensures
        r matches Some(v) ==> is_digits(s@) && v as int == digits_val(s@),
        r is None ==> !is_digits(s@) || digits_val(s@) > i64::MAX,
{
    let len = s.unicode_len();
    if len == 0 {
        return None;
    }
    let mut i: usize = 0;
    let mut acc: i64 = 0;
    while i < len
        invariant
            0 < len == s@.len(),
            0 <= i <= len,
            forall|j: int| 0 <= j < i ==> digit_of(s@[j]) >= 0,
            0 <= acc,
            acc as int == digits_val(s@.subrange(0, i as int)),
        decreases len - i,
    {
        let c = s.get_char(i);
        let d = match digit_val(c) {
            None => {
                return None;
            },
            Some(d) => d,
        };
        let a10 = match acc.checked_mul(10) {
            None => {
                proof {
                    overflow_exit(s@, i as int, acc as int, d as int);
                }
                return None;
            },
            Some(a) => a,
        };
        let next = match a10.checked_add(d as i64) {
            None => {
                proof {
                    overflow_exit(s@, i as int, acc as int, d as int);
                }
                return None;
            },
            Some(v) => v,
        };
        proof {
            lemma_digits_val_extend(s@, i as int);
        }
        acc = next;
        i = i + 1;
    }
    proof {
        assert(s@.subrange(0, len as int) =~= s@);
    }
    Some(acc)
}

/// When the next digit pushes the accumulated value past `i64::MAX`, the
/// whole numeral's value is past it too, unless some character is no digit.
proof fn overflow_exit(s: Seq<char>, i: int, acc: int, d: int)
    requires
        0 <= i < s.len(),
        forall|j: int| 0 <= j < i ==> digit_of(s[j]) >= 0,
        digit_of(s[i]) == d,
        0 <= d,
        acc == digits_val(s.subrange(0, i)),
        acc * 10 + d > i64::MAX,
    ensures
        !is_digits(s) || digits_val(s) > i64::MAX,
{
    if is_digits(s) {
        lemma_digits_val_extend(s, i);
        lemma_digits_val_prefix_le(s, i + 1);
    }
}

} // verus!
