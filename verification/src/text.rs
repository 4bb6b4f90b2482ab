//! Decimal text of unsigned integers: the parsing and printing that the service
//! applies to corpus ids when they cross between the wire and the vector store.

use vstd::prelude::*;
use vstd::string::*;

verus! {

/// An ASCII decimal digit.
pub open spec fn is_digit(c: char) -> bool {
    '0' <= c && c <= '9'
}

/// The value of a digit character.
pub open spec fn digit_value(c: char) -> int {
    (c as int) - ('0' as int)
}

/// The digit character of a value below ten.
pub open spec fn digit_char(d: int) -> char {
    (('0' as int) + d) as char
}

pub open spec fn all_digits(s: Seq<char>) -> bool {
    forall|i: int| 0 <= i < s.len() ==> is_digit(#[trigger] s[i])
}

/// The number that a string of digits denotes, most significant digit first.
pub open spec fn decimal_value(s: Seq<char>) -> int
    decreases s.len(),
{
    if s.len() == 0 {
        0
    } else {
        decimal_value(s.drop_last()) * 10 + digit_value(s.last())
    }
}

/// The digits of an unsigned number's text: an optional leading `+` is dropped.
pub open spec fn unsigned_digits(s: Seq<char>) -> Seq<char> {
    if s.len() > 0 && s[0] == '+' {
        s.drop_first()
    } else {
        s
    }
}

/// What `str::parse::<u64>` gives: an optional `+`, then at least one ASCII
/// digit and nothing else, with a value that fits in a `u64`.
pub open spec fn parse_u64_spec(s: Seq<char>) -> Option<u64> {
    let d = unsigned_digits(s);
    if d.len() > 0 && all_digits(d) && decimal_value(d) <= u64::MAX {
        Some(decimal_value(d) as u64)
    } else {
        None
    }
}

/// The shortest decimal text of a number, as `u64::to_string` writes it.
pub open spec fn decimal_text(n: nat) -> Seq<char>
    decreases n,
{
    if n < 10 {
        seq![digit_char(n as int)]
    } else {
        decimal_text(n / 10).push(digit_char((n % 10) as int))
    }
}

proof fn lemma_prefix_value_bounded(s: Seq<char>, k: int)
    requires
        all_digits(s),
        0 <= k <= s.len(),
    ensures
        0 <= decimal_value(s.take(k)) <= decimal_value(s),
    decreases s.len(),
{
    if s.len() == 0 {
        assert(s.take(k) =~= s);
    } else if k == s.len() {
        assert(s.take(k) =~= s);
        lemma_prefix_value_bounded(s.drop_last(), k - 1);
        assert(s.drop_last().take(k - 1) =~= s.drop_last().take(k - 1));
    } else {
        lemma_prefix_value_bounded(s.drop_last(), k);
        assert(s.drop_last().take(k) =~= s.take(k));
        assert(s.drop_last().take(s.len() - 1) =~= s.drop_last());
        assert(is_digit(s[s.len() - 1]));
    }
}

proof fn lemma_digit_char(d: int)
    requires
        0 <= d < 10,
    ensures
        digit_value(digit_char(d)) == d,
        is_digit(digit_char(d)),
        digit_char(d) != '+',
{
    assert((('0' as int) + d) as char as int == ('0' as int) + d);
}

proof fn lemma_decimal_text_digits(n: nat)
    ensures
        decimal_text(n).len() > 0,
        all_digits(decimal_text(n)),
        decimal_value(decimal_text(n)) == n,
        decimal_text(n)[0] != '+',
    decreases n,
{
    if n < 10 {
        lemma_digit_char(n as int);
        assert(decimal_text(n).drop_last() =~= Seq::<char>::empty());
        assert(decimal_value(Seq::<char>::empty()) == 0);
        assert(decimal_value(decimal_text(n)) == 0 * 10 + digit_value(digit_char(n as int)));
    } else {
        lemma_digit_char((n % 10) as int);
        lemma_decimal_text_digits(n / 10);
        let t = decimal_text(n);
        assert(t.drop_last() =~= decimal_text(n / 10));
        assert(n == (n / 10) * 10 + n % 10);
        assert(t.last() == digit_char((n % 10) as int));
        assert(decimal_value(t) == decimal_value(decimal_text(n / 10)) * 10 + digit_value(t.last()));
        assert(decimal_value(t) == (n / 10) * 10 + n % 10);
    }
}

proof fn lemma_first_digit(n: nat)
    requires
        n >= 1,
    ensures
        decimal_text(n)[0] != '0',
    decreases n,
{
    if n < 10 {
        lemma_digit_char(n as int);
        assert(digit_char(n as int) as int == ('0' as int) + n);
    } else {
        lemma_first_digit(n / 10);
        lemma_decimal_text_digits(n / 10);
        assert(decimal_text(n)[0] == decimal_text(n / 10)[0]);
    }
}

/// The printed text of a number is a decimal text as numbers are written
/// (digits only, no leading zero but for zero itself) whose value is the
/// number: the one such text there is.
pub proof fn lemma_decimal_text_canonical(n: u64)
    ensures
        is_canonical_decimal(decimal_text(n as nat)),
        decimal_value(decimal_text(n as nat)) == n,
{
    lemma_decimal_text_digits(n as nat);
    if n >= 1 {
        lemma_first_digit(n as nat);
    } else {
        assert(decimal_text(0).len() == 1);
    }
}

/// A text parses only where it is an optional `+` followed by at least one
/// digit and nothing else, and then to the number that its digits denote,
/// which the number's own printed text also denotes.
pub proof fn lemma_parse_shape(s: Seq<char>)
    ensures
        parse_u64_spec(s) is Some ==> {
            &&& s.len() > 0
            &&& forall|i: int| 0 <= i < s.len() && !(i == 0 && s[0] == '+') ==> is_digit(#[trigger] s[i])
            &&& (s[0] == '+' ==> s.len() > 1)
        },
        parse_u64_spec(s) is Some ==> {
            let n = parse_u64_spec(s)->Some_0;
            &&& decimal_value(if s[0] == '+' { s.drop_first() } else { s }) == n
            &&& decimal_value(decimal_text(n as nat)) == n
        },
{
    if parse_u64_spec(s) is Some {
        let d = unsigned_digits(s);
        assert forall|i: int| 0 <= i < s.len() && !(i == 0 && s[0] == '+') implies is_digit(#[trigger] s[i]) by {
            if s[0] == '+' {
                assert(s[i] == d[i - 1]);
            } else {
                assert(s[i] == d[i]);
            }
        }
        lemma_prefix_value_bounded(d, 0);
        assert(d == (if s[0] == '+' { s.drop_first() } else { s }));
        lemma_decimal_text_digits(parse_u64_spec(s)->Some_0 as nat);
    }
}

/// Printing a number and parsing the text gives the number back.
pub proof fn lemma_parse_format_roundtrip(n: u64)
    ensures
        parse_u64_spec(decimal_text(n as nat)) == Some(n),
{
    lemma_decimal_text_digits(n as nat);
}

/// A decimal text as a number is written: digits only, and no leading zero
/// unless the number is zero.
pub open spec fn is_canonical_decimal(s: Seq<char>) -> bool {
    &&& s.len() > 0
    &&& all_digits(s)
    &&& (s.len() == 1 || s[0] != '0')
}

proof fn lemma_digit_roundtrip(c: char)
    requires
        is_digit(c),
    ensures
        digit_char(digit_value(c)) == c,
        0 <= digit_value(c) < 10,
{
    assert(((('0' as int) + ((c as int) - ('0' as int))) as char) == c);
}

proof fn lemma_canonical_text(s: Seq<char>)
    requires
        is_canonical_decimal(s),
    ensures
        decimal_text(decimal_value(s) as nat) == s,
        s.len() > 1 ==> decimal_value(s) >= 10,
    decreases s.len(),
{
    let v = decimal_value(s);
    lemma_prefix_value_bounded(s, s.len() as int);
    assert(s.take(s.len() as int) =~= s);
    lemma_digit_roundtrip(s.last());
    if s.len() == 1 {
        assert(s.drop_last() =~= Seq::<char>::empty());
        assert(decimal_value(Seq::<char>::empty()) == 0);
        assert(v == digit_value(s.last()));
        assert(decimal_text(v as nat) =~= s);
    } else {
        let init = s.drop_last();
        assert(init[0] == s[0]);
        assert(is_canonical_decimal(init));
        lemma_canonical_text(init);
        let w = decimal_value(init);
        lemma_prefix_value_bounded(init, 1);
        assert(init.take(1).drop_last() =~= Seq::<char>::empty());
        assert(decimal_value(Seq::<char>::empty()) == 0);
        assert(decimal_value(init.take(1)) == digit_value(init[0]));
        assert(w >= 1);
        let d = digit_value(s.last());
        assert(v == w * 10 + d);
        assert(v / 10 == w && v % 10 == d);
        assert(decimal_text(v as nat) == decimal_text((v / 10) as nat).push(digit_char(v % 10)));
        assert(s =~= init.push(s.last()));
    }
}

/// A corpus id written as numbers are written comes back unchanged when the
/// service reads it and prints it again.
pub proof fn lemma_canonical_id_echo(s: Seq<char>)
    requires
        is_canonical_decimal(s),
        decimal_value(s) <= u64::MAX,
    ensures
        parse_u64_spec(s) matches Some(n) && decimal_text(n as nat) == s,
{
    lemma_canonical_text(s);
    lemma_prefix_value_bounded(s, 0);
    assert(s.take(0) =~= Seq::<char>::empty());
    assert(s[0] != '+');
}

/// Parses the decimal text of a `u64` as `str::parse::<u64>` does; `None`
/// where that call returns an error.
pub fn parse_u64(s: &str) -> (res: Option<u64>)
    ensures
        res == parse_u64_spec(s@),
{
    let len = s.unicode_len();
    let mut start: usize = 0;
    if len > 0 && s.get_char(0) == '+' {
        start = 1;
    }
    let ghost digits = unsigned_digits(s@);
    assert(digits =~= s@.subrange(start as int, len as int));
    if start == len {
        return None;
    }
    let mut value: u64 = 0;
    let mut i = start;
    while i < len
        invariant
            start <= i <= len,
            len == s@.len(),
            start < len,
            digits == s@.subrange(start as int, len as int),
            digits == unsigned_digits(s@),
            all_digits(s@.subrange(start as int, i as int)),
            value == decimal_value(s@.subrange(start as int, i as int)),
        decreases len - i,
    {
        let c = s.get_char(i);
        if !('0' <= c && c <= '9') {
            assert(digits[i - start] == c);
            assert(!all_digits(digits));
            return None;
        }
        let d: u64 = (c as u32 - '0' as u32) as u64;
        let ghost next = s@.subrange(start as int, i + 1);
        assert(digit_value(c) == d);
        assert(next.last() == c);
        assert(next.drop_last() =~= s@.subrange(start as int, i as int));
        assert(all_digits(next));
        if value > (u64::MAX - d) / 10 {
            assert(value * 10 + d > u64::MAX) by (nonlinear_arith)
                requires
                    value > (u64::MAX - d) / 10,
                    d <= 9,
            ;
            proof {
                if all_digits(digits) {
                    lemma_prefix_value_bounded(digits, i + 1 - start);
                    assert(digits.take(i + 1 - start) =~= next);
                    assert(decimal_value(digits) > u64::MAX);
                }
            }
            return None;
        }
        assert(value * 10 + d <= u64::MAX) by (nonlinear_arith)
            requires
                value <= (u64::MAX - d) / 10,
                d <= 9,
        ;
        value = value * 10 + d;
        i += 1;
    }
    assert(s@.subrange(start as int, len as int) =~= digits);
    Some(value)
}

/// The text of one decimal digit.
fn digit_text(d: u64) -> (s: &'static str)
    requires
        d < 10,
    ensures
        s@ == seq![digit_char(d as int)],
{
    proof {
        reveal_strlit("0");
        reveal_strlit("1");
        reveal_strlit("2");
        reveal_strlit("3");
        reveal_strlit("4");
        reveal_strlit("5");
        reveal_strlit("6");
        reveal_strlit("7");
        reveal_strlit("8");
        reveal_strlit("9");
    }
    if d == 0 {
        "0"
    } else if d == 1 {
        "1"
    } else if d == 2 {
        "2"
    } else if d == 3 {
        "3"
    } else if d == 4 {
        "4"
    } else if d == 5 {
        "5"
    } else if d == 6 {
        "6"
    } else if d == 7 {
        "7"
    } else if d == 8 {
        "8"
    } else {
        "9"
    }
}

/// Prints a `u64` in decimal as `u64::to_string` does.
pub fn format_u64(n: u64) -> (s: String)
    ensures
        s@ == decimal_text(n as nat),
    decreases n,
{
    if n < 10 {
        String::from_str(digit_text(n))
    } else {
        let prefix = format_u64(n / 10);
        prefix.concat(digit_text(n % 10))
    }
}

} // verus!
