//! Text building blocks shared by the error messages: decimal numbers and
//! the quoted form that `{:?}` gives a string.
use vstd::prelude::*;

verus! {

/// The one-character text of a decimal digit.
pub open spec fn digit_text(d: nat) -> Seq<char> {
    if d == 0 {
        "0"@
    } else if d == 1 {
        "1"@
    } else if d == 2 {
        "2"@
    } else if d == 3 {
        "3"@
    } else if d == 4 {
        "4"@
    } else if d == 5 {
        "5"@
    } else if d == 6 {
        "6"@
    } else if d == 7 {
        "7"@
    } else if d == 8 {
        "8"@
    } else {
        "9"@
    }
}

/// The decimal text of a natural number, without sign or leading zeros:
/// what `{}` and `{:?}` print for an unsigned integer.
pub open spec fn decimal_text(n: nat) -> Seq<char>
    decreases n,
{
    if n < 10 {
        digit_text(n)
    } else {
        decimal_text(n / 10) + digit_text(n % 10)
    }
}

/// The character of a decimal digit.
pub open spec fn digit_char(d: nat) -> char {
    if d == 0 {
        '0'
    } else if d == 1 {
        '1'
    } else if d == 2 {
        '2'
    } else if d == 3 {
        '3'
    } else if d == 4 {
        '4'
    } else if d == 5 {
        '5'
    } else if d == 6 {
        '6'
    } else if d == 7 {
        '7'
    } else if d == 8 {
        '8'
    } else {
        '9'
    }
}

/// A character that is a decimal digit.
pub open spec fn is_digit_char(c: char) -> bool {
    '0' <= c <= '9'
}

/// The text of a digit is that digit's one character, and different digits
/// have different characters.
pub proof fn lemma_digit_text(d: nat, e: nat)
    requires
        d < 10,
        e < 10,
    ensures
        digit_text(d) == seq![digit_char(d)],
        is_digit_char(digit_char(d)),
        digit_char(d) == digit_char(e) ==> d == e,
{
    reveal_strlit("0");
    reveal_strlit("1");
    reveal_strlit("2");
    reveal_strlit("3");
    reveal_strlit("4");
    reveal_strlit("5");
    reveal_strlit("6");
    reveal_strlit("7");
    reveal_strlit("8");
    reveal_strlit("9");
    assert(digit_text(d) =~= seq![digit_char(d)]);
}

/// The decimal text of a number is made of digits only, ends with the digit
/// of `n % 10` and, before it, holds the decimal text of `n / 10` when `n` has
/// more than one digit.
pub proof fn lemma_decimal_shape(n: nat)
    ensures
        decimal_text(n).len() >= 1,
        n >= 10 ==> decimal_text(n).len() >= 2,
        forall|i: int| 0 <= i < decimal_text(n).len() ==> is_digit_char(#[trigger] decimal_text(n)[i]),
        decimal_text(n).last() == digit_char(n % 10),
        decimal_text(n).drop_last() == (if n < 10 {
            Seq::<char>::empty()
        } else {
            decimal_text(n / 10)
        }),
    decreases n,
{
    lemma_digit_text(n % 10, 0);
    if n < 10 {
        assert(decimal_text(n) == digit_text(n));
        assert(decimal_text(n).drop_last() =~= Seq::<char>::empty());
    } else {
        lemma_decimal_shape(n / 10);
        let head = decimal_text(n / 10);
        assert(decimal_text(n) == head + seq![digit_char(n % 10)]);
        assert(decimal_text(n).drop_last() =~= head);
        assert forall|i: int| 0 <= i < decimal_text(n).len() implies is_digit_char(
            #[trigger] decimal_text(n)[i],
        ) by {
            if i < head.len() {
                assert(decimal_text(n)[i] == head[i]);
            }
        }
    }
}

/// Different numbers have different decimal texts.
pub proof fn decimal_text_is_injective(n: nat, m: nat)
    ensures
        decimal_text(n) == decimal_text(m) ==> n == m,
    decreases n,
{
    if decimal_text(n) == decimal_text(m) {
        lemma_decimal_shape(n);
        lemma_decimal_shape(m);
        lemma_digit_text(n % 10, m % 10);
        if n >= 10 && m >= 10 {
            decimal_text_is_injective(n / 10, m / 10);
        }
    }
}

/// The value of a digit character.
pub open spec fn digit_value(c: char) -> nat {
    if c == '0' {
        0
    } else if c == '1' {
        1
    } else if c == '2' {
        2
    } else if c == '3' {
        3
    } else if c == '4' {
        4
    } else if c == '5' {
        5
    } else if c == '6' {
        6
    } else if c == '7' {
        7
    } else if c == '8' {
        8
    } else {
        9
    }
}

/// The number that a run of decimal digits denotes, most significant first.
pub open spec fn digits_value(s: Seq<char>) -> nat
    decreases s.len(),
{
    if s.len() == 0 {
        0
    } else {
        digits_value(s.drop_last()) * 10 + digit_value(s.last())
    }
}

/// Read back as a number, the decimal text of `n` is `n`; it has no leading
/// zero but for `0` itself.
pub proof fn decimal_text_reads_back(n: nat)
    ensures
        digits_value(decimal_text(n)) == n,
        decimal_text(n).len() > 1 ==> decimal_text(n)[0] != '0',
        n == 0 ==> decimal_text(n) == seq!['0'],
    decreases n,
{
    lemma_decimal_shape(n);
    lemma_digit_text(n % 10, 0);
    assert(digit_value(digit_char(n % 10)) == n % 10);
    assert((n / 10) * 10 + n % 10 == n) by (nonlinear_arith);
    if n < 10 {
        assert(decimal_text(n).drop_last() =~= Seq::<char>::empty());
        assert(digits_value(Seq::<char>::empty()) == 0);
        assert(digits_value(decimal_text(n)) == digits_value(decimal_text(n).drop_last()) * 10
            + digit_value(decimal_text(n).last()));
    } else {
        decimal_text_reads_back(n / 10);
        assert(digits_value(decimal_text(n)) == digits_value(decimal_text(n).drop_last()) * 10
            + digit_value(decimal_text(n).last()));
        lemma_decimal_shape(n / 10);
        assert(decimal_text(n)[0] == decimal_text(n).drop_last()[0]);
        if decimal_text(n / 10).len() == 1 {
            lemma_digit_text((n / 10) % 10, 0);
            assert(decimal_text(n / 10).drop_last() =~= Seq::<char>::empty());
            assert(n / 10 < 10);
        }
    }
}

/// Texts that begin alike are equal exactly when what follows is.
pub proof fn lemma_cancel_prefix(a: Seq<char>, x: Seq<char>, y: Seq<char>)
    ensures
        (a + x == a + y) == (x == y),
{
    if a + x == a + y {
        assert(x =~= (a + x).subrange(a.len() as int, (a + x).len() as int));
        assert(y =~= (a + y).subrange(a.len() as int, (a + y).len() as int));
    }
}

/// Texts that end alike are equal exactly when what comes before is.
pub proof fn lemma_cancel_suffix(x: Seq<char>, y: Seq<char>, b: Seq<char>)
    ensures
        (x + b == y + b) == (x == y),
{
    if x + b == y + b {
        assert(x =~= (x + b).subrange(0, x.len() as int));
        assert(y =~= (y + b).subrange(0, y.len() as int));
    }
}

/// Where a run of digits is followed by a non-digit, two such texts are
/// equal exactly when the digits and what follows them both are.
pub proof fn lemma_cancel_digits(x1: Seq<char>, r1: Seq<char>, x2: Seq<char>, r2: Seq<char>)
    requires
        forall|i: int| 0 <= i < x1.len() ==> is_digit_char(#[trigger] x1[i]),
        forall|i: int| 0 <= i < x2.len() ==> is_digit_char(#[trigger] x2[i]),
        r1.len() > 0 && !is_digit_char(r1[0]),
        r2.len() > 0 && !is_digit_char(r2[0]),
    ensures
        (x1 + r1 == x2 + r2) == (x1 == x2 && r1 == r2),
{
    if x1 + r1 == x2 + r2 {
        if x1.len() < x2.len() {
            assert((x1 + r1)[x1.len() as int] == r1[0]);
            assert((x2 + r2)[x1.len() as int] == x2[x1.len() as int]);
        }
        if x2.len() < x1.len() {
            assert((x2 + r2)[x2.len() as int] == r2[0]);
            assert((x1 + r1)[x2.len() as int] == x1[x2.len() as int]);
        }
        assert(x1 =~= (x1 + r1).subrange(0, x1.len() as int));
        assert(x2 =~= (x2 + r2).subrange(0, x2.len() as int));
        lemma_cancel_prefix(x1, r1, r2);
    }
}

fn digit_str(d: u64) -> (s: &'static str)
    requires
        d < 10,
    ensures
        s@ == digit_text(d as nat),
{
    if d == 0 {
        "0"
    } else if d == 1 {
        "1"
    } else if d == 2 {
        "2"
    } else if d == 3 {
        "3"
    } else if d == 4 {
        "4"
    } else if d == 5 {
        "5"
    } else if d == 6 {
        "6"
    } else if d == 7 {
        "7"
    } else if d == 8 {
        "8"
    } else {
        "9"
    }
}

/// Appends the decimal text of `n` to `out`.
pub fn push_decimal(out: &mut String, n: u64)
    ensures
        final(out)@ == old(out)@ + decimal_text(n as nat),
    decreases n,
{
    if n >= 10 {
        push_decimal(out, n / 10);
    }
    out.append(digit_str(n % 10));
    proof {
        if n >= 10 {
            assert(old(out)@ + decimal_text(n as nat) == (old(out)@ + decimal_text((n / 10) as nat))
                + digit_text((n % 10) as nat));
        }
    }
}

/// What `{:?}` prints for a string: the string between double quotes, with
/// some characters escaped.
pub uninterp spec fn quoted_text(s: Seq<char>) -> Seq<char>;

/// A character that `{:?}` on a string prints as it is: printable ASCII other
/// than the double quote, the single quote and the backslash.
pub open spec fn is_plain_char(c: char) -> bool {
    &&& ' ' <= c <= '~'
    &&& c != '"'
    &&& c != '\''
    &&& c != '\\'
}

/// What `{:?}` prints for `s`, by `<str as Debug>::fmt` through `format!`.
///
/// The contract names the result `quoted_text(s@)`, and states what std's
/// documentation of `str`'s `Debug` and `char::escape_debug` shows of it: it
/// starts and ends with a double quote, and a string made only of plain
/// characters (see `is_plain_char`) appears between the quotes unchanged. How
/// the other characters are escaped is left unsaid.
#[verifier::external_body]
pub(crate) fn quoted(s: &str) -> (r: String)
    ensures
        r@ == quoted_text(s@),
        r@.len() >= 2,
        r@[0] == '"',
        r@.last() == '"',
        (forall|i: int| 0 <= i < s@.len() ==> is_plain_char(#[trigger] s@[i])) ==> r@ == seq!['"']
            + s@ + seq!['"'],
{
    format!("{:?}", s)
}

} // verus!
