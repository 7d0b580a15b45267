//! Text: HTML, and decimal numbers.

use vstd::prelude::*;

verus! {

/// `String::push` puts one character behind the text, as std documents it.
pub assume_specification[ String::push ](s: &mut String, c: char)
    ensures
        final(s)@ == old(s)@.push(c),
;

/// What one character becomes in HTML text.
pub open spec fn escaped_char(c: char) -> Seq<char> {
    if c == '&' {
        "&amp;"@
    } else if c == '<' {
        "&lt;"@
    } else if c == '>' {
        "&gt;"@
    } else if c == '"' {
        "&quot;"@
    } else if c == '\'' {
        "&#39;"@
    } else {
        seq![c]
    }
}

/// The HTML text of `s`: every character by itself, in order.
pub open spec fn escaped(s: Seq<char>) -> Seq<char>
    decreases s.len(),
{
    if s.len() == 0 {
        Seq::empty()
    } else {
        escaped(s.drop_last()) + escaped_char(s.last())
    }
}

/// `s` with `by` in place of every `c`.
pub open spec fn replaced(s: Seq<char>, c: char, by: Seq<char>) -> Seq<char>
    decreases s.len(),
{
    if s.len() == 0 {
        Seq::empty()
    } else {
        replaced(s.drop_last(), c, by) + (if s.last() == c {
            by
        } else {
            seq![s.last()]
        })
    }
}

proof fn lemma_replaced_concat(a: Seq<char>, b: Seq<char>, c: char, by: Seq<char>)
    ensures
        replaced(a + b, c, by) == replaced(a, c, by) + replaced(b, c, by),
    decreases b.len(),
{
    if b.len() == 0 {
        assert(a + b =~= a);
        assert(replaced(a, c, by) + replaced(b, c, by) =~= replaced(a, c, by));
    } else {
        lemma_replaced_concat(a, b.drop_last(), c, by);
        assert((a + b).drop_last() =~= a + b.drop_last());
        let last = if b.last() == c {
            by
        } else {
            seq![b.last()]
        };
        assert((a + b).last() == b.last());
        assert(replaced(a, c, by) + (replaced(b.drop_last(), c, by) + last) =~= (replaced(a, c, by)
            + replaced(b.drop_last(), c, by)) + last);
    }
}

proof fn lemma_replaced_absent(s: Seq<char>, c: char, by: Seq<char>)
    requires
        forall|i: int| 0 <= i < s.len() ==> s[i] != c,
    ensures
        replaced(s, c, by) == s,
    decreases s.len(),
{
    if s.len() > 0 {
        lemma_replaced_absent(s.drop_last(), c, by);
        assert(s.drop_last() + seq![s.last()] =~= s);
    }
}

proof fn lemma_replaced_single(x: char, c: char, by: Seq<char>)
    ensures
        replaced(seq![x], c, by) == (if x == c {
            by
        } else {
            seq![x]
        }),
{
    assert(seq![x].drop_last() =~= Seq::<char>::empty());
    assert(replaced(Seq::<char>::empty(), c, by) =~= Seq::<char>::empty());
    assert(Seq::<char>::empty() + by =~= by);
    assert(Seq::<char>::empty() + seq![x] =~= seq![x]);
}

/// The five replacements that escaping amounts to, one after the other.
pub open spec fn replaced_in_turn(s: Seq<char>) -> Seq<char> {
    let s1 = replaced(s, '&', "&amp;"@);
    let s2 = replaced(s1, '<', "&lt;"@);
    let s3 = replaced(s2, '>', "&gt;"@);
    let s4 = replaced(s3, '"', "&quot;"@);
    replaced(s4, '\'', "&#39;"@)
}

proof fn lemma_in_turn_concat(a: Seq<char>, b: Seq<char>)
    ensures
        replaced_in_turn(a + b) == replaced_in_turn(a) + replaced_in_turn(b),
{
    lemma_replaced_concat(a, b, '&', "&amp;"@);
    let (a1, b1) = (replaced(a, '&', "&amp;"@), replaced(b, '&', "&amp;"@));
    lemma_replaced_concat(a1, b1, '<', "&lt;"@);
    let (a2, b2) = (replaced(a1, '<', "&lt;"@), replaced(b1, '<', "&lt;"@));
    lemma_replaced_concat(a2, b2, '>', "&gt;"@);
    let (a3, b3) = (replaced(a2, '>', "&gt;"@), replaced(b2, '>', "&gt;"@));
    lemma_replaced_concat(a3, b3, '"', "&quot;"@);
    let (a4, b4) = (replaced(a3, '"', "&quot;"@), replaced(b3, '"', "&quot;"@));
    lemma_replaced_concat(a4, b4, '\'', "&#39;"@);
}

proof fn lemma_in_turn_single(x: char)
    ensures
        replaced_in_turn(seq![x]) == escaped_char(x),
{
    reveal_strlit("&amp;");
    reveal_strlit("&lt;");
    reveal_strlit("&gt;");
    reveal_strlit("&quot;");
    reveal_strlit("&#39;");
    lemma_replaced_single(x, '&', "&amp;"@);
    lemma_replaced_single(x, '<', "&lt;"@);
    lemma_replaced_single(x, '>', "&gt;"@);
    lemma_replaced_single(x, '"', "&quot;"@);
    lemma_replaced_single(x, '\'', "&#39;"@);
    if x == '&' {
        lemma_replaced_absent("&amp;"@, '<', "&lt;"@);
        lemma_replaced_absent("&amp;"@, '>', "&gt;"@);
        lemma_replaced_absent("&amp;"@, '"', "&quot;"@);
        lemma_replaced_absent("&amp;"@, '\'', "&#39;"@);
    } else if x == '<' {
        lemma_replaced_absent("&lt;"@, '>', "&gt;"@);
        lemma_replaced_absent("&lt;"@, '"', "&quot;"@);
        lemma_replaced_absent("&lt;"@, '\'', "&#39;"@);
    } else if x == '>' {
        lemma_replaced_absent("&gt;"@, '"', "&quot;"@);
        lemma_replaced_absent("&gt;"@, '\'', "&#39;"@);
    } else if x == '"' {
        lemma_replaced_absent("&quot;"@, '\'', "&#39;"@);
    }
}

/// Escaping is the replacement of `&`, `<`, `>`, `"` and `'`, one after the other.
pub proof fn law_escaping_is_replacing_in_turn(s: Seq<char>)
    ensures
        escaped(s) == replaced_in_turn(s),
    decreases s.len(),
{
    if s.len() == 0 {
        assert(replaced_in_turn(s) =~= Seq::<char>::empty());
    } else {
        law_escaping_is_replacing_in_turn(s.drop_last());
        lemma_in_turn_concat(s.drop_last(), seq![s.last()]);
        lemma_in_turn_single(s.last());
        assert(s.drop_last() + seq![s.last()] =~= s);
    }
}

/// A character that would end a text or begin a tag in HTML.
pub open spec fn is_markup(c: char) -> bool {
    c == '<' || c == '>' || c == '"' || c == '\''
}

/// Escaped text holds no character that would end it or begin a tag.
pub proof fn law_escaped_text_holds_no_markup(s: Seq<char>)
    ensures
        forall|i: int| 0 <= i < escaped(s).len() ==> !is_markup(#[trigger] escaped(s)[i]),
    decreases s.len(),
{
    if s.len() > 0 {
        reveal_strlit("&amp;");
        reveal_strlit("&lt;");
        reveal_strlit("&gt;");
        reveal_strlit("&quot;");
        reveal_strlit("&#39;");
        law_escaped_text_holds_no_markup(s.drop_last());
        let before = escaped(s.drop_last());
        assert forall|i: int| 0 <= i < escaped(s).len() implies !is_markup(
            #[trigger] escaped(s)[i],
        ) by {
            if i < before.len() {
                assert(escaped(s)[i] == before[i]);
            } else {
                assert(escaped(s)[i] == escaped_char(s.last())[i - before.len()]);
            }
        }
    }
}

/// Escapes a text for use in HTML, in quoted attribute values too.
pub fn escape_html(value: &str) -> (r: String)
    ensures
        r@ == escaped(value@),
{
    let mut out = String::new();
    for c in it: value.chars()
        invariant
            it.seq() == value@,
            out@ == escaped(value@.take(it.index() as int)),
    {
        proof {
            let i = it.index() as int;
            assert(value@.take(i + 1).drop_last() =~= value@.take(i));
        }
        if c == '&' {
            out.append("&amp;");
        } else if c == '<' {
            out.append("&lt;");
        } else if c == '>' {
            out.append("&gt;");
        } else if c == '"' {
            out.append("&quot;");
        } else if c == '\'' {
            out.append("&#39;");
        } else {
            out.push(c);
        }
    }
    proof {
        assert(value@.take(value@.len() as int) =~= value@);
    }
    out
}

pub open spec fn is_digit(c: char) -> bool {
    '0' <= c <= '9'
}

pub open spec fn all_digits(s: Seq<char>) -> bool {
    forall|i: int| 0 <= i < s.len() ==> is_digit(#[trigger] s[i])
}

/// The number that the decimal digits `s` stand for.
pub open spec fn digits_value(s: Seq<char>) -> nat
    decreases s.len(),
{
    if s.len() == 0 {
        0
    } else {
        10 * digits_value(s.drop_last()) + (s.last() as nat - '0' as nat) as nat
    }
}

pub open spec fn has_sign(s: Seq<char>, signed: bool) -> bool {
    s.len() > 0 && (s[0] == '+' || (signed && s[0] == '-'))
}

/// The text behind its sign, if it has one.
pub open spec fn magnitude(s: Seq<char>, signed: bool) -> Seq<char> {
    if has_sign(s, signed) {
        s.skip(1)
    } else {
        s
    }
}

/// The integer that `s` stands for: decimal digits, at least one, behind a plus
/// sign or, where `signed`, a minus sign, or behind no sign.
pub open spec fn integer_of(s: Seq<char>, signed: bool) -> Option<int> {
    let digits = magnitude(s, signed);
    if digits.len() == 0 || !all_digits(digits) {
        None
    } else if signed && s[0] == '-' {
        Some(-(digits_value(digits) as int))
    } else {
        Some(digits_value(digits) as int)
    }
}

/// The least number that does not fit into 64 bits.
const TOO_LARGE: u128 = 0x1_0000_0000_0000_0000;

/// Whether `s` is led by a sign, and the number that its digits stand for, cut
/// off at `TOO_LARGE`.
fn read_integer(s: &str, signed: bool) -> (r: Option<(bool, u128)>)
    ensures
        match r {
            Some((negative, n)) => {
                let digits = magnitude(s@, signed);
                &&& integer_of(s@, signed) is Some
                &&& negative == (signed && s@[0] == '-')
                &&& n == (if digits_value(digits) < TOO_LARGE { digits_value(digits) as int } else { TOO_LARGE as int })
            },
            None => integer_of(s@, signed) is None,
        },
{
    let mut at_start: bool = true;
    let mut negative: bool = false;
    let mut some_digit: bool = false;
    let mut n: u128 = 0;
    let ghost digits = magnitude(s@, signed);
    let ghost skipped: int = s@.len() - digits.len();
    for c in it: s.chars()
        invariant
            it.seq() == s@,
            digits == magnitude(s@, signed),
            skipped == s@.len() - digits.len(),
            at_start == (it.index() == 0),
            negative == (it.index() > 0 && signed && s@[0] == '-'),
            some_digit == (it.index() > skipped),
            it.index() <= skipped ==> n == 0,
            it.index() > skipped ==> {
                let done = digits.take(it.index() - skipped);
                &&& all_digits(done)
                &&& n == (if digits_value(done) < TOO_LARGE { digits_value(done) as int } else { TOO_LARGE as int })
            },
            n <= TOO_LARGE,
    {
        let ghost i = it.index() as int;
        if at_start && (c == '+' || (signed && c == '-')) {
            negative = c == '-';
        } else {
            proof {
                assert(digits[i - skipped] == c);
            }
            if !('0' <= c && c <= '9') {
                proof {
                    assert(!is_digit(digits[i - skipped]));
                }
                return None;
            }
            let digit: u128 = (c as u32 - '0' as u32) as u128;
            proof {
                let done = digits.take(i - skipped);
                let more = digits.take(i - skipped + 1);
                assert(more.drop_last() =~= done);
                assert(more.last() == c);
                assert forall|k: int| 0 <= k < more.len() implies is_digit(#[trigger] more[k]) by {
                    if k < done.len() {
                        assert(done[k] == more[k]);
                    }
                }
                if i == skipped {
                    assert(done =~= Seq::<char>::empty());
                }
                assert(all_digits(more));
                assert(digits_value(more) == 10 * digits_value(done) + digit);
            }
            n = if n * 10 + digit < TOO_LARGE {
                n * 10 + digit
            } else {
                TOO_LARGE
            };
            some_digit = true;
        }
        at_start = false;
    }
    proof {
        assert(digits.take(digits.len() as int) =~= digits);
    }
    if some_digit {
        Some((negative, n))
    } else {
        None
    }
}

/// Reads a signed integer.
pub fn parse_i64(s: &str) -> (r: Option<i64>)
    ensures
        match r {
            Some(n) => integer_of(s@, true) == Some(n as int),
            None => integer_of(s@, true) matches Some(n) ==> n < i64::MIN || n > i64::MAX,
        },
{
    match read_integer(s, true) {
        Some((negative, n)) => {
            if negative {
                if n <= 0x8000_0000_0000_0000 {
                    Some((-(n as i128)) as i64)
                } else {
                    None
                }
            } else if n <= 0x7fff_ffff_ffff_ffff {
                Some(n as i64)
            } else {
                None
            }
        },
        None => None,
    }
}

/// Reads an unsigned integer that fits into the machine's word.
pub fn parse_usize(s: &str) -> (r: Option<usize>)
    ensures
        match r {
            Some(n) => integer_of(s@, false) == Some(n as int),
            None => integer_of(s@, false) matches Some(n) ==> n > usize::MAX,
        },
{
    match read_integer(s, false) {
        Some((_, n)) => {
            if n <= usize::MAX as u128 {
                Some(n as usize)
            } else {
                None
            }
        },
        None => None,
    }
}

} // verus!
