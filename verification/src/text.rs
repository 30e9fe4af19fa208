//! Small helpers on strings and lists of strings.

use vstd::prelude::*;
use vstd::string::StrSliceExecFns;

verus! {

/// The character sequences of a list of strings.
pub open spec fn names(v: Seq<String>) -> Seq<Seq<char>> {
    v.map_values(|s: String| s@)
}

/// The length of a text in bytes, as UTF-8.
pub open spec fn byte_len(text: Seq<char>) -> nat {
    vstd::utf8::encode_utf8(text).len()
}

/// Whether `name` occurs in `list`.
pub fn contains_name(list: &Vec<String>, name: &String) -> (found: bool)
    ensures
        found == names(list@).contains(name@),
{
    let mut i: usize = 0;
    while i < list.len()
        invariant
            i <= list.len(),
            forall|k: int| 0 <= k < i ==> names(list@)[k] != name@,
        decreases list.len() - i,
    {
        if list[i] == *name {
            assert(names(list@)[i as int] == name@);
            return true;
        }
        i += 1;
    }
    false
}

/// A copy of a list of strings.
pub fn copy_names(list: &Vec<String>) -> (out: Vec<String>)
    ensures
        names(out@) == names(list@),
{
    let mut out: Vec<String> = Vec::new();
    let mut i: usize = 0;
    while i < list.len()
        invariant
            i <= list.len(),
            names(out@) == names(list@).take(i as int),
        decreases list.len() - i,
    {
        let ghost before = out@;
        out.push(list[i].clone());
        proof {
            let all = names(list@);
            assert(names(out@) == names(before).push(all[i as int]));
            assert(all.take(i + 1) == all.take(i as int).push(all[i as int]));
        }
        i += 1;
    }
    assert(names(list@).take(list.len() as int) == names(list@));
    out
}

/// Whether `text` begins with `prefix`.
pub fn starts_with(text: &str, prefix: &str) -> (yes: bool)
    ensures
        yes == prefix@.is_prefix_of(text@),
{
    let n = prefix.unicode_len();
    if text.unicode_len() < n {
        return false;
    }
    let mut i: usize = 0;
    while i < n
        invariant
            i <= n,
            n == prefix@.len(),
            n <= text@.len(),
            forall|k: int| 0 <= k < i ==> text@[k] == prefix@[k],
        decreases n - i,
    {
        if text.get_char(i) != prefix.get_char(i) {
            assert(text@.subrange(0, n as int)[i as int] != prefix@[i as int]);
            return false;
        }
        i += 1;
    }
    assert(text@.subrange(0, n as int) =~= prefix@);
    true
}

/// Whether two texts are the same.
pub fn same_text(a: &str, b: &str) -> (yes: bool)
    ensures
        yes == (a@ == b@),
{
    let yes = a.unicode_len() == b.unicode_len() && starts_with(a, b);
    proof {
        if yes {
            assert(a@ =~= a@.subrange(0, b@.len() as int));
        }
        if a@ == b@ {
            assert(b@.subrange(0, b@.len() as int) =~= b@);
        }
    }
    yes
}

/// The character of a decimal digit.
pub open spec fn digit_char(d: int) -> char {
    if d == 0 {
        '0'
    } else if d == 1 {
        '1'
    } else if d == 2 {
        '2'
    } else if d == 3 {
        '3'
    } else if d == 4 {
        '4'
    } else if d == 5 {
        '5'
    } else if d == 6 {
        '6'
    } else if d == 7 {
        '7'
    } else if d == 8 {
        '8'
    } else {
        '9'
    }
}

/// Whether `c` is one of the ten decimal digits.
pub open spec fn is_digit(c: char) -> bool {
    exists|d: int| 0 <= d <= 9 && c == #[trigger] digit_char(d)
}

/// The last `width` decimal digits of `n`, most significant first, with
/// zeros in front where `n` has fewer.
pub open spec fn padded_decimal(n: nat, width: nat) -> Seq<char>
    decreases width,
{
    if width == 0 {
        Seq::empty()
    } else {
        padded_decimal(n / 10, (width - 1) as nat).push(digit_char((n % 10) as int))
    }
}

/// The decimal digits of `n`, most significant first, without leading
/// zeros; one zero for 0.
pub open spec fn decimal_digits(n: nat) -> Seq<char>
    decreases n,
{
    if n < 10 {
        seq![digit_char(n as int)]
    } else {
        decimal_digits(n / 10).push(digit_char((n % 10) as int))
    }
}

/// An integer as decimal text, with a minus sign in front where it is
/// negative.
pub open spec fn decimal_text(i: int) -> Seq<char> {
    if i < 0 {
        seq!['-'] + decimal_digits((-i) as nat)
    } else {
        decimal_digits(i as nat)
    }
}

/// The number that a decimal digit stands for; 9 for any other
/// character.
pub open spec fn digit_value(c: char) -> nat {
    if c == '0' {
        0
    } else if c == '1' {
        1
    } else if c == '2' {
        2
    } else if c == '3' {
        3
    } else if c == '4' {
        4
    } else if c == '5' {
        5
    } else if c == '6' {
        6
    } else if c == '7' {
        7
    } else if c == '8' {
        8
    } else {
        9
    }
}

/// The number that a text of decimal digits stands for.
pub open spec fn decimal_value(text: Seq<char>) -> nat
    decreases text.len(),
{
    if text.len() == 0 {
        0
    } else {
        10 * decimal_value(text.drop_last()) + digit_value(text.last())
    }
}

/// Ten to the power of `k`.
pub open spec fn pow10(k: nat) -> nat
    decreases k,
{
    if k == 0 {
        1
    } else {
        10 * pow10((k - 1) as nat)
    }
}

/// A padded decimal stands for the number it was made of, as far as the
/// width reaches: for its remainder by ten to the power of the width.
pub proof fn lemma_padded_value(n: nat, width: nat)
    ensures
        pow10(width) > 0,
        decimal_value(padded_decimal(n, width)) == n % pow10(width),
    decreases width,
{
    if width > 0 {
        let rest = (width - 1) as nat;
        lemma_padded_value(n / 10, rest);
        let text = padded_decimal(n, width);
        assert(text.drop_last() == padded_decimal(n / 10, rest));
        assert(digit_value(digit_char((n % 10) as int)) == n % 10);
        vstd::arithmetic::div_mod::lemma_mod_breakdown(n as int, 10, pow10(rest) as int);
    }
}

/// A padded decimal has the width asked for and holds digits only.
pub proof fn lemma_padded_decimal(n: nat, width: nat)
    ensures
        padded_decimal(n, width).len() == width,
        forall|i: int| 0 <= i < width ==> is_digit(#[trigger] padded_decimal(n, width)[i]),
    decreases width,
{
    if width > 0 {
        lemma_padded_decimal(n / 10, (width - 1) as nat);
        assert(is_digit(digit_char((n % 10) as int)));
    }
}

/// The one-character text of the digit `d`.
fn digit_str(d: u32) -> (s: &'static str)
    requires
        d <= 9,
    ensures
        s@ == seq![digit_char(d as int)],
{
    proof {
        reveal_strlit("0");
        reveal_strlit("1");
        reveal_strlit("2");
        reveal_strlit("3");
        reveal_strlit("4");
        reveal_strlit("5");
        reveal_strlit("6");
        reveal_strlit("7");
        reveal_strlit("8");
        reveal_strlit("9");
    }
    let s = if d == 0 {
        "0"
    } else if d == 1 {
        "1"
    } else if d == 2 {
        "2"
    } else if d == 3 {
        "3"
    } else if d == 4 {
        "4"
    } else if d == 5 {
        "5"
    } else if d == 6 {
        "6"
    } else if d == 7 {
        "7"
    } else if d == 8 {
        "8"
    } else {
        "9"
    };
    assert(s@ =~= seq![digit_char(d as int)]);
    s
}

/// Appends the last `width` decimal digits of `n` to `out`.
pub fn push_padded(out: &mut String, n: u32, width: u8)
    ensures
        final(out)@ == old(out)@ + padded_decimal(n as nat, width as nat),
    decreases width,
{
    if width > 0 {
        push_padded(out, n / 10, width - 1);
        out.append(digit_str(n % 10));
        assert(out@ =~= old(out)@ + padded_decimal(n as nat, width as nat));
    } else {
        assert(out@ =~= old(out)@ + padded_decimal(n as nat, width as nat));
    }
}

/// Appends the decimal digits of `n` to `out`.
pub fn push_digits(out: &mut String, n: u32)
    ensures
        final(out)@ == old(out)@ + decimal_digits(n as nat),
    decreases n,
{
    if n >= 10 {
        push_digits(out, n / 10);
    }
    out.append(digit_str(n % 10));
    assert(out@ =~= old(out)@ + decimal_digits(n as nat));
}

/// Appends `i` as decimal text to `out`.
pub fn push_decimal(out: &mut String, i: i32)
    ensures
        final(out)@ == old(out)@ + decimal_text(i as int),
{
    if i < 0 {
        proof {
            reveal_strlit("-");
        }
        out.append("-");
        let magnitude: u32 = (-(i as i64)) as u32;
        push_digits(out, magnitude);
        assert(out@ =~= old(out)@ + decimal_text(i as int));
    } else {
        push_digits(out, i as u32);
    }
}

/// `i` as decimal text.
pub fn decimal_string(i: i32) -> (s: String)
    ensures
        s@ == decimal_text(i as int),
{
    let mut s = String::new();
    push_decimal(&mut s, i);
    assert(s@ =~= decimal_text(i as int));
    s
}

} // verus!
