//! Characters of SQL text: decimal numbers, quoted names and quoted string literals.
use vstd::prelude::*;

verus! {

/// `std`'s `String::push` appends one character.
pub assume_specification[ std::string::String::push ](s: &mut std::string::String, c: char)
    ensures
        final(s)@ == old(s)@.push(c),
;

/// The decimal digit of value `d`, for `d < 10`.
pub open spec fn digit(d: nat) -> char {
    if d == 0 {
        '0'
    } else if d == 1 {
        '1'
    } else if d == 2 {
        '2'
    } else if d == 3 {
        '3'
    } else if d == 4 {
        '4'
    } else if d == 5 {
        '5'
    } else if d == 6 {
        '6'
    } else if d == 7 {
        '7'
    } else if d == 8 {
        '8'
    } else {
        '9'
    }
}

/// The decimal spelling of a natural number, without leading zeros.
pub open spec fn decimal(n: nat) -> Seq<char>
    decreases n,
{
    if n < 10 {
        seq![digit(n)]
    } else {
        decimal(n / 10).push(digit(n % 10))
    }
}

/// The decimal spelling of an integer: a minus sign before the magnitude of a negative one.
pub open spec fn signed_decimal(n: int) -> Seq<char> {
    if n < 0 {
        seq!['-'] + decimal((-n) as nat)
    } else {
        decimal(n as nat)
    }
}

/// The value of a digit, `None` for any other character.
pub open spec fn digit_value(c: char) -> Option<nat> {
    if '0' <= c && c <= '9' {
        Some((c as int - '0' as int) as nat)
    } else {
        None
    }
}

/// The number that a non-empty sequence of digits spells, `None` for anything else.
pub open spec fn decimal_value(s: Seq<char>) -> Option<nat>
    decreases s.len(),
{
    if s.len() == 0 {
        None
    } else if s.len() == 1 {
        digit_value(s[0])
    } else {
        match (decimal_value(s.drop_last()), digit_value(s.last())) {
            (Some(high), Some(low)) => Some(high * 10 + low),
            _ => None,
        }
    }
}

fn digit_char(d: u128) -> (c: char)
    requires
        d < 10,
    ensures
        c == digit(d as nat),
{
    if d == 0 {
        '0'
    } else if d == 1 {
        '1'
    } else if d == 2 {
        '2'
    } else if d == 3 {
        '3'
    } else if d == 4 {
        '4'
    } else if d == 5 {
        '5'
    } else if d == 6 {
        '6'
    } else if d == 7 {
        '7'
    } else if d == 8 {
        '8'
    } else {
        '9'
    }
}

/// Appends the decimal spelling of an unsigned number.
pub fn push_decimal(out: &mut String, n: u128)
    ensures
        final(out)@ == old(out)@ + decimal(n as nat),
    decreases n,
{
    if n >= 10 {
        push_decimal(out, n / 10);
    }
    out.push(digit_char(n % 10));
}

/// Appends the decimal spelling of a signed number.
pub fn push_signed_decimal(out: &mut String, n: i128)
    ensures
        final(out)@ == old(out)@ + signed_decimal(n as int),
{
    if n < 0 {
        out.push('-');
        let magnitude: u128 = (-(n + 1)) as u128 + 1;
        push_decimal(out, magnitude);
    } else {
        push_decimal(out, n as u128);
    }
}

/// `s` with every occurrence of `quote` written twice.
pub open spec fn doubled(s: Seq<char>, quote: char) -> Seq<char>
    decreases s.len(),
{
    if s.len() == 0 {
        Seq::empty()
    } else if s[0] == quote {
        seq![quote, quote] + doubled(s.drop_first(), quote)
    } else {
        seq![s[0]] + doubled(s.drop_first(), quote)
    }
}

/// `s` between two quote characters, with every quote inside it doubled.
pub open spec fn quoted(s: Seq<char>, quote: char) -> Seq<char> {
    seq![quote] + doubled(s, quote) + seq![quote]
}

/// Reads the rest of a quoted token whose opening quote has been passed: the text up to the first
/// quote that is not doubled, with doubled quotes read as one, and what follows that closing quote.
pub open spec fn scan_quoted(s: Seq<char>, quote: char) -> Option<(Seq<char>, Seq<char>)>
    decreases s.len(),
{
    if s.len() == 0 {
        None
    } else if s[0] != quote {
        match scan_quoted(s.drop_first(), quote) {
            Some((text, rest)) => Some((seq![s[0]] + text, rest)),
            None => None,
        }
    } else if s.len() >= 2 && s[1] == quote {
        match scan_quoted(s.skip(2), quote) {
            Some((text, rest)) => Some((seq![quote] + text, rest)),
            None => None,
        }
    } else {
        Some((Seq::empty(), s.drop_first()))
    }
}

/// Doubling quotes goes character by character.
pub proof fn lemma_doubled_push(s: Seq<char>, c: char, quote: char)
    ensures
        doubled(s.push(c), quote) == doubled(s, quote) + (if c == quote {
            seq![quote, quote]
        } else {
            seq![c]
        }),
    decreases s.len(),
{
    if s.len() == 0 {
        assert(s.push(c).drop_first() =~= Seq::<char>::empty());
        assert(doubled(s.push(c).drop_first(), quote) =~= Seq::<char>::empty());
    } else {
        lemma_doubled_push(s.drop_first(), c, quote);
        assert(s.push(c).drop_first() =~= s.drop_first().push(c));
        assert(s.push(c)[0] == s[0]);
    }
}

/// Appends `s` with every occurrence of `quote` written twice.
pub fn push_doubled(out: &mut String, s: &str, quote: char)
    ensures
        final(out)@ == old(out)@ + doubled(s@, quote),
{
    let ghost start = out@;
    for c in chars: s.chars()
        invariant
            chars.seq() == s@,
            out@ == start + doubled(s@.take(chars.index()), quote),
    {
        proof {
            lemma_doubled_push(s@.take(chars.index()), c, quote);
            assert(s@.take(chars.index() + 1) =~= s@.take(chars.index()).push(c));
        }
        if c == quote {
            out.push(quote);
        }
        out.push(c);
    }
    assert(s@.take(s@.len() as int) =~= s@);
}

/// Appends `s` between two quote characters, with every quote inside it doubled.
pub fn push_quoted(out: &mut String, s: &str, quote: char)
    ensures
        final(out)@ == old(out)@ + quoted(s@, quote),
{
    out.push(quote);
    push_doubled(out, s, quote);
    out.push(quote);
}

/// A decimal spelling reads back as the number that was written.
pub proof fn law_decimal_reads_back(n: nat)
    ensures
        decimal_value(decimal(n)) == Some(n),
        decimal(n).len() >= 1,
    decreases n,
{
    if n >= 10 {
        law_decimal_reads_back(n / 10);
        assert(decimal(n).drop_last() =~= decimal(n / 10));
        assert(digit_value(digit(n % 10)) == Some(n % 10));
    } else {
        assert(digit_value(digit(n)) == Some(n));
    }
}

/// A quoted token reads back as the text that was quoted, and scanning stops exactly behind its
/// closing quote, whatever follows it (as long as that does not begin with another quote).
pub proof fn law_quoted_reads_back(s: Seq<char>, quote: char, rest: Seq<char>)
    requires
        rest.len() == 0 || rest[0] != quote,
    ensures
        quoted(s, quote)[0] == quote,
        scan_quoted((quoted(s, quote) + rest).drop_first(), quote) == Some((s, rest)),
    decreases s.len(),
{
    let tail = doubled(s, quote) + seq![quote] + rest;
    assert((quoted(s, quote) + rest).drop_first() =~= tail);
    if s.len() == 0 {
        assert(tail =~= seq![quote] + rest);
        assert(tail.drop_first() =~= rest);
    } else {
        let inner = s.drop_first();
        law_quoted_reads_back(inner, quote, rest);
        let inner_tail = doubled(inner, quote) + seq![quote] + rest;
        assert((quoted(inner, quote) + rest).drop_first() =~= inner_tail);
        assert(seq![s[0]] + inner =~= s);
        if s[0] == quote {
            assert(tail.skip(2) =~= inner_tail);
        } else {
            assert(tail.drop_first() =~= inner_tail);
        }
    }
}

/// A decimal spelling has digits only.
pub proof fn lemma_decimal_is_digits(n: nat, i: int)
    requires
        0 <= i < decimal(n).len(),
    ensures
        digit_value(decimal(n)[i]) is Some,
    decreases n,
{
    if n >= 10 && i < decimal(n / 10).len() {
        lemma_decimal_is_digits(n / 10, i);
    }
}

/// Whether two strings have the same characters.
pub fn same_text(a: &str, b: &str) -> (same: bool)
    ensures
        same == (a@ == b@),
{
    a.to_owned() == b.to_owned()
}

} // verus!
