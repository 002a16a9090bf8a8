//! Character-level text helpers: the characters of a string, appending a
//! character, and the decimal rendering of unsigned integers (with optional
//! zero padding, as the `{}` and `{:0N}` format specifiers write them).
use vstd::prelude::*;

verus! {

/// The character of a decimal digit `d < 10`.
pub open spec fn digit_char(d: nat) -> char {
    seq!['0', '1', '2', '3', '4', '5', '6', '7', '8', '9'][d as int]
}

/// `true` for the ten ASCII decimal digits.
pub open spec fn is_digit(c: char) -> bool {
    '0' <= c && c <= '9'
}

/// The shortest decimal representation of `n` (no leading zeros, "0" for zero).
pub open spec fn decimal(n: nat) -> Seq<char>
    decreases n,
{
    if n < 10 {
        seq![digit_char(n)]
    } else {
        decimal(n / 10).push(digit_char(n % 10))
    }
}

/// `decimal(n)`, left-padded with '0' to at least `width` characters.
pub open spec fn zero_padded(n: nat, width: nat) -> Seq<char> {
    let d = decimal(n);
    if d.len() >= width {
        d
    } else {
        Seq::new((width - d.len()) as nat, |i: int| '0') + d
    }
}

/// Every character of a decimal representation is a digit, and it is never empty.
pub proof fn lemma_decimal_digits(n: nat)
    ensures
        decimal(n).len() >= 1,
        forall|i: int| 0 <= i < decimal(n).len() ==> is_digit(#[trigger] decimal(n)[i]),
    decreases n,
{
    if n >= 10 {
        lemma_decimal_digits(n / 10);
    }
}

/// Numbers below ten have one digit, below a hundred two, below a thousand
/// three.
pub proof fn lemma_decimal_len_below_1000(n: nat)
    requires
        n < 1000,
    ensures
        n < 10 ==> decimal(n).len() == 1,
        10 <= n < 100 ==> decimal(n).len() == 2,
        100 <= n ==> decimal(n).len() == 3,
{
    reveal_with_fuel(decimal, 3);
}

/// Every character of a zero-padded representation is a digit.
pub proof fn lemma_zero_padded_digits(n: nat, width: nat)
    ensures
        zero_padded(n, width).len() >= width,
        zero_padded(n, width).len() >= 1,
        forall|i: int| 0 <= i < zero_padded(n, width).len() ==> is_digit(#[trigger] zero_padded(n, width)[i]),
{
    lemma_decimal_digits(n);
    let d = decimal(n);
    if d.len() < width {
        let p = zero_padded(n, width);
        assert forall|i: int| 0 <= i < p.len() implies is_digit(#[trigger] p[i]) by {
            if i >= width - d.len() {
                assert(p[i] == d[i - (width - d.len())]);
            }
        }
    }
}

/// The one-character string of the digit `d`.
fn digit_str(d: u32) -> (s: &'static str)
    requires
        d < 10,
    ensures
        s@ == seq![digit_char(d as nat)],
{
    proof {
        reveal_strlit("0");
        reveal_strlit("1");
        reveal_strlit("2");
        reveal_strlit("3");
        reveal_strlit("4");
        reveal_strlit("5");
        reveal_strlit("6");
        reveal_strlit("7");
        reveal_strlit("8");
        reveal_strlit("9");
    }
    match d {
        0 => "0",
        1 => "1",
        2 => "2",
        3 => "3",
        4 => "4",
        5 => "5",
        6 => "6",
        7 => "7",
        8 => "8",
        _ => "9",
    }
}

/// Appends `decimal(n)` to `s`.
pub fn push_decimal(s: &mut String, n: u32)
    ensures
        final(s)@ == old(s)@ + decimal(n as nat),
    decreases n,
{
    if n >= 10 {
        push_decimal(s, n / 10);
    }
    s.append(digit_str(n % 10));
}

/// The number of characters of `decimal(n)`.
pub fn decimal_len(n: u32) -> (len: usize)
    ensures
        len == decimal(n as nat).len(),
        1 <= len <= n as nat + 1,
    decreases n,
{
    if n >= 10 {
        decimal_len(n / 10) + 1
    } else {
        1
    }
}

/// Appends `zero_padded(n, width)` to `s`.
pub fn push_zero_padded(s: &mut String, n: u32, width: usize)
    ensures
        final(s)@ == old(s)@ + zero_padded(n as nat, width as nat),
{
    let len = decimal_len(n);
    let ghost start = s@;
    let mut i: usize = len;
    while i < width
        invariant
            len == decimal(n as nat).len(),
            len <= i,
            i <= width || i == len,
            s@ == start + Seq::new((i - len) as nat, |k: int| '0'),
        decreases width - i,
    {
        proof {
            reveal_strlit("0");
        }
        s.append("0");
        i = i + 1;
        assert(s@ =~= start + Seq::new((i - len) as nat, |k: int| '0'));
    }
    push_decimal(s, n);
    assert(s@ =~= start + zero_padded(n as nat, width as nat));
}

/// Appends the character `c` to `s`: a call of `String::push`, which the
/// standard library documents as appending the given char to the end of the
/// string. Believed, not proved.
#[verifier::external_body]
pub(crate) fn push_char(s: &mut String, c: char)
    ensures
        final(s)@ == old(s)@.push(c),
{
    s.push(c);
}

/// The characters of `s`, in order.
pub fn chars_of(s: &str) -> (v: Vec<char>)
    ensures
        v@ == s@,
{
    let mut v: Vec<char> = Vec::new();
    for c in it: s.chars()
        invariant
            v@ == it.seq().take(it.index()),
    {
        v.push(c);
        assert(v@ =~= it.seq().take(it.index() + 1));
    }
    v
}

} // verus!
