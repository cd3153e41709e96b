//! Text helpers: blank-string tests, concatenation and decimal numbers.

use vstd::prelude::*;

use vstd::string::{StrSliceExecFns, StringExecFns};

verus! {

/// Whether `c` has the Unicode `White_Space` property, as
/// `char::is_whitespace` decides it.
pub open spec fn unicode_whitespace(c: char) -> bool {
    let u = c as u32;
    ||| 0x09 <= u <= 0x0D
    ||| u == 0x20
    ||| u == 0x85
    ||| u == 0xA0
    ||| u == 0x1680
    ||| 0x2000 <= u <= 0x200A
    ||| u == 0x2028
    ||| u == 0x2029
    ||| u == 0x202F
    ||| u == 0x205F
    ||| u == 0x3000
}

/// Whether `c` is white space.
pub fn is_whitespace(c: char) -> (b: bool)
    ensures
        b == unicode_whitespace(c),
{
    let u = c as u32;
    (0x09 <= u && u <= 0x0D) || u == 0x20 || u == 0x85 || u == 0xA0 || u == 0x1680 || (0x2000
        <= u && u <= 0x200A) || u == 0x2028 || u == 0x2029 || u == 0x202F || u == 0x205F || u
        == 0x3000
}

/// Whether `s` is empty once leading and trailing white space is removed,
/// that is, whether every character of `s` is white space.
pub open spec fn blank(s: Seq<char>) -> bool {
    forall|i: int| 0 <= i < s.len() ==> unicode_whitespace(#[trigger] s[i])
}

/// Whether `s.trim()` is empty.
pub fn is_blank(s: &str) -> (b: bool)
    ensures
        b == blank(s@),
{
    let n = s.unicode_len();
    let mut i: usize = 0;
    while i < n
        invariant
            i <= n,
            n == s@.len(),
            forall|j: int| 0 <= j < i ==> unicode_whitespace(#[trigger] s@[j]),
        decreases n - i,
    {
        let c = s.get_char(i);
        if !is_whitespace(c) {
            return false;
        }
        i = i + 1;
    }
    true
}

/// `a` followed by `b`.
pub fn cat(a: &str, b: &str) -> (r: String)
    ensures
        r@ == a@ + b@,
{
    String::from_str(a).concat(b)
}

/// `a`, `b` and `c` in a row.
pub fn cat3(a: &str, b: &str, c: &str) -> (r: String)
    ensures
        r@ == a@ + b@ + c@,
{
    String::from_str(a).concat(b).concat(c)
}

/// The character of a decimal digit.
pub open spec fn digit_char(d: int) -> char {
    if d == 0 {
        '0'
    } else if d == 1 {
        '1'
    } else if d == 2 {
        '2'
    } else if d == 3 {
        '3'
    } else if d == 4 {
        '4'
    } else if d == 5 {
        '5'
    } else if d == 6 {
        '6'
    } else if d == 7 {
        '7'
    } else if d == 8 {
        '8'
    } else {
        '9'
    }
}

/// The decimal digits of `n`, most significant first, without leading zeros.
pub open spec fn decimal_nat(n: nat) -> Seq<char>
    decreases n,
{
    if n < 10 {
        seq![digit_char(n as int)]
    } else {
        decimal_nat(n / 10).push(digit_char((n % 10) as int))
    }
}

/// The decimal text of `x`, with a leading `-` when it is negative.
pub open spec fn decimal(x: int) -> Seq<char> {
    if x < 0 {
        seq!['-'] + decimal_nat((-x) as nat)
    } else {
        decimal_nat(x as nat)
    }
}

pub(crate) fn digit_text(d: u128) -> (r: String)
    requires
        d < 10,
    ensures
        r@ == seq![digit_char(d as int)],
{
    proof {
        reveal_strlit("0");
        reveal_strlit("1");
        reveal_strlit("2");
        reveal_strlit("3");
        reveal_strlit("4");
        reveal_strlit("5");
        reveal_strlit("6");
        reveal_strlit("7");
        reveal_strlit("8");
        reveal_strlit("9");
    }
    let r = if d == 0 {
        String::from_str("0")
    } else if d == 1 {
        String::from_str("1")
    } else if d == 2 {
        String::from_str("2")
    } else if d == 3 {
        String::from_str("3")
    } else if d == 4 {
        String::from_str("4")
    } else if d == 5 {
        String::from_str("5")
    } else if d == 6 {
        String::from_str("6")
    } else if d == 7 {
        String::from_str("7")
    } else if d == 8 {
        String::from_str("8")
    } else {
        String::from_str("9")
    };
    assert(r@ =~= seq![digit_char(d as int)]);
    r
}

/// The decimal text of `n`.
pub fn nat_text(n: u128) -> (r: String)
    ensures
        r@ == decimal_nat(n as nat),
    decreases n,
{
    if n < 10 {
        digit_text(n)
    } else {
        let mut s = nat_text(n / 10);
        let d = digit_text(n % 10);
        s.append(d.as_str());
        assert(s@ =~= decimal_nat(n as nat));
        s
    }
}

/// The decimal text of `x`.
pub fn int_text(x: i64) -> (r: String)
    ensures
        r@ == decimal(x as int),
{
    if x < 0 {
        let magnitude: u128 = if x == i64::MIN {
            9223372036854775808u128
        } else {
            (-x) as u128
        };
        proof {
            reveal_strlit("-");
        }
        let r = cat("-", nat_text(magnitude).as_str());
        assert(r@ =~= decimal(x as int));
        r
    } else {
        nat_text(x as u128)
    }
}

/// The decimal text of `x`, for any `x` but `i128::MIN`.
pub fn wide_text(x: i128) -> (r: String)
    requires
        x > i128::MIN,
    ensures
        r@ == decimal(x as int),
{
    if x < 0 {
        proof {
            reveal_strlit("-");
        }
        let r = cat("-", nat_text((-x) as u128).as_str());
        assert(r@ =~= decimal(x as int));
        r
    } else {
        nat_text(x as u128)
    }
}

/// `t` microseconds as seconds with six decimals, such as "1.500000".
pub open spec fn seconds(t: nat) -> Seq<char> {
    let f = t % 1_000_000;
    decimal_nat(t / 1_000_000) + seq![
        '.',
        digit_char(((f / 100_000) % 10) as int),
        digit_char(((f / 10_000) % 10) as int),
        digit_char(((f / 1_000) % 10) as int),
        digit_char(((f / 100) % 10) as int),
        digit_char(((f / 10) % 10) as int),
        digit_char((f % 10) as int),
    ]
}

/// The text of `t` microseconds in seconds, with six decimals.
pub fn seconds_text(t: u64) -> (r: String)
    ensures
        r@ == seconds(t as nat),
{
    proof {
        reveal_strlit(".");
    }
    let f = t % 1_000_000;
    let mut r = nat_text((t / 1_000_000) as u128);
    r.append(".");
    r.append(digit_text(((f / 100_000) % 10) as u128).as_str());
    r.append(digit_text(((f / 10_000) % 10) as u128).as_str());
    r.append(digit_text(((f / 1_000) % 10) as u128).as_str());
    r.append(digit_text(((f / 100) % 10) as u128).as_str());
    r.append(digit_text(((f / 10) % 10) as u128).as_str());
    r.append(digit_text((f % 10) as u128).as_str());
    assert(r@ =~= seconds(t as nat));
    r
}

} // verus!
