//! Frame and refresh rates: the texts that stand for them, and the whole numbers that the encoder
//! and the display take.
use vstd::prelude::*;
use crate::text::{all_digits, characters, is_digit};

verus! {

/// The end of the run of digits that starts at `from`.
pub open spec fn digits_end(s: Seq<char>, from: int) -> int
    decreases s.len() - from,
{
    if 0 <= from < s.len() && is_digit(s[from]) {
        digits_end(s, from + 1)
    } else {
        from
    }
}

/// A plus or a minus sign.
pub open spec fn is_sign(c: char) -> bool {
    c == '+' || c == '-'
}

/// A letter without its case.
pub open spec fn lower(c: char) -> char {
    if 0x41 <= c as u32 <= 0x5a {
        (c as u32 + 0x20) as char
    } else {
        c
    }
}

/// `s` is `word`, whatever the case of its letters.
pub open spec fn is_word(s: Seq<char>, word: Seq<char>) -> bool {
    &&& s.len() == word.len()
    &&& forall|i: int| 0 <= i < s.len() ==> lower(#[trigger] s[i]) == word[i]
}

/// What stands from `at` on is nothing or an exponent: `e`, a sign or none, and digits.
pub open spec fn is_exponent(s: Seq<char>, at: int) -> bool {
    ||| at == s.len()
    ||| {
        let from = if at + 1 < s.len() && is_sign(s[at + 1]) {
            at + 2
        } else {
            at + 1
        };
        at < s.len() && lower(s[at]) == 'e' && from < s.len() && digits_end(s, from) == s.len()
    }
}

/// Digits with at most one point among or beside them, and an exponent or none.
pub open spec fn is_number(s: Seq<char>) -> bool {
    let whole = digits_end(s, 0);
    if whole < s.len() && s[whole] == '.' {
        let end = digits_end(s, whole + 1);
        end > 1 && is_exponent(s, end)
    } else {
        whole > 0 && is_exponent(s, whole)
    }
}

/// The texts that stand for a floating point value: a sign or none, and then a number, an infinity
/// or no number at all.
pub open spec fn is_rate(s: Seq<char>) -> bool {
    let rest = if s.len() > 0 && is_sign(s.first()) {
        s.drop_first()
    } else {
        s
    };
    ||| is_number(rest)
    ||| is_word(rest, "inf"@)
    ||| is_word(rest, "infinity"@)
    ||| is_word(rest, "nan"@)
}

proof fn lemma_all_digits(s: Seq<char>, from: int)
    requires
        0 <= from <= s.len(),
        forall|i: int| 0 <= i < s.len() ==> is_digit(#[trigger] s[i]),
    ensures
        digits_end(s, from) == s.len(),
    decreases s.len() - from,
{
    if from < s.len() {
        lemma_all_digits(s, from + 1);
    }
}

/// The decimal digits of every number stand for a rate.
pub proof fn lemma_decimal_is_rate(n: nat)
    ensures
        is_rate(crate::text::decimal(n)),
{
    let s = crate::text::decimal(n);
    crate::text::lemma_decimal_digits(n);
    assert(is_digit(s[0]));
    lemma_all_digits(s, 0);
}

fn digits_end_of(cs: &Vec<char>, from: usize) -> (r: usize)
    requires
        from <= cs@.len(),
    ensures
        r == digits_end(cs@, from as int),
        from <= r <= cs@.len(),
{
    let mut i: usize = from;
    while i < cs.len() && 0x30 <= cs[i] as u32 && cs[i] as u32 <= 0x39
        invariant
            from <= i <= cs@.len(),
            digits_end(cs@, from as int) == digits_end(cs@, i as int),
        decreases cs@.len() - i,
    {
        i = i + 1;
    }
    i
}

fn lower_of(c: char) -> (r: char)
    ensures
        r == lower(c),
{
    let n: u32 = c as u32;
    if 0x41 <= n && n <= 0x5a {
        let m: u8 = (n + 0x20) as u8;
        m as char
    } else {
        c
    }
}

fn word_from(cs: &Vec<char>, from: usize, word: &str) -> (r: bool)
    requires
        from <= cs@.len(),
    ensures
        r == is_word(cs@.skip(from as int), word@),
{
    let w = characters(word);
    let n: usize = cs.len();
    if n - from != w.len() {
        return false;
    }
    let ghost s = cs@.skip(from as int);
    let mut i: usize = 0;
    while i < w.len()
        invariant
            i <= w@.len(),
            from <= cs@.len(),
            n == cs@.len(),
            n - from == w@.len(),
            w@ == word@,
            s == cs@.skip(from as int),
            forall|k: int| 0 <= k < i ==> lower(#[trigger] s[k]) == word@[k],
        decreases w@.len() - i,
    {
        if lower_of(cs[from + i]) != w[i] {
            assert(lower(s[i as int]) != word@[i as int]);
            return false;
        }
        assert(s[i as int] == cs@[from + i]);
        i = i + 1;
    }
    true
}

fn exponent_at(cs: &Vec<char>, at: usize) -> (r: bool)
    requires
        at <= cs@.len(),
    ensures
        r == is_exponent(cs@, at as int),
{
    let n: usize = cs.len();
    if at == n {
        return true;
    }
    if lower_of(cs[at]) != 'e' {
        return false;
    }
    let from: usize = if n - at > 1 && (cs[at + 1] == '+' || cs[at + 1] == '-') {
        at + 2
    } else {
        at + 1
    };
    from < n && digits_end_of(cs, from) == n
}

fn number(cs: &Vec<char>) -> (r: bool)
    ensures
        r == is_number(cs@),
{
    let whole = digits_end_of(cs, 0);
    if whole < cs.len() && cs[whole] == '.' {
        let end = digits_end_of(cs, whole + 1);
        end > 1 && exponent_at(cs, end)
    } else {
        whole > 0 && exponent_at(cs, whole)
    }
}

/// Whether `s` stands for a floating point value.
pub fn rate_text(s: &str) -> (r: bool)
    ensures
        r == is_rate(s@),
{
    let cs = characters(s);
    let mut rest: Vec<char> = Vec::new();
    let from: usize = if cs.len() > 0 && (cs[0] == '+' || cs[0] == '-') {
        1
    } else {
        0
    };
    let mut i: usize = from;
    while i < cs.len()
        invariant
            from <= i <= cs@.len(),
            rest@ == cs@.subrange(from as int, i as int),
        decreases cs@.len() - i,
    {
        rest.push(cs[i]);
        assert(cs@.subrange(from as int, i + 1) == cs@.subrange(from as int, i as int).push(
            cs@[i as int],
        ));
        i = i + 1;
    }
    proof {
        assert(rest@ == cs@.skip(from as int));
        assert(cs@.skip(1) == cs@.drop_first() || from == 0);
        assert(cs@.skip(0) == cs@);
        assert(rest@.skip(0) == rest@);
    }
    number(&rest) || word_from(&rest, 0, "inf") || word_from(&rest, 0, "infinity") || word_from(
        &rest,
        0,
        "nan",
    )
}

/// The message for a text that stands for no floating point value.
pub open spec fn rate_error(s: Seq<char>) -> Seq<char> {
    if s.len() == 0 {
        "cannot parse float from empty string"@
    } else {
        "invalid float literal"@
    }
}

/// A rate as its text. The value that it stands for is read where the whole numbers are taken
/// from it.
#[derive(Debug)]
pub struct Rate {
    text: String,
}

impl View for Rate {
    type V = Seq<char>;

    closed spec fn view(&self) -> Seq<char> {
        self.text@
    }
}

impl Clone for Rate {
    fn clone(&self) -> (r: Self)
        ensures
            r@ == self@,
    {
        Rate { text: self.text.clone() }
    }
}

impl Rate {
    /// The rate that `s` stands for, if it stands for any.
    pub fn from_text(s: &str) -> (r: Option<Rate>)
        ensures
            r is Some <==> is_rate(s@),
            r matches Some(rate) ==> rate@ == s@,
    {
        if rate_text(s) {
            Some(Rate { text: s.to_owned() })
        } else {
            None
        }
    }

    /// Reads a rate.
    pub fn parse(s: &str) -> (r: Result<Rate, String>)
        ensures
            match r {
                Ok(rate) => is_rate(s@) && rate@ == s@,
                Err(e) => !is_rate(s@) && e@ == rate_error(s@),
            },
    {
        match Rate::from_text(s) {
            Some(rate) => Ok(rate),
            None => {
                if s.unicode_len() == 0 {
                    Err("cannot parse float from empty string".to_owned())
                } else {
                    Err("invalid float literal".to_owned())
                }
            },
        }
    }

    /// The text of the rate.
    pub fn as_str(&self) -> (r: &str)
        ensures
            r@ == self@,
    {
        self.text.as_str()
    }
}

/// The whole numbers that an encoder takes of a frame rate.
#[derive(Clone, Copy, Debug, PartialEq, Eq, Structural)]
pub struct FrameRate {
    /// Frames per second, cut to a whole number.
    pub whole: u32,
    /// Frames per hundred seconds, cut to a whole number.
    pub centi: u64,
    /// Milliseconds between two frames, cut to a whole number.
    pub period_ms: u64,
}

proof fn lemma_digits_end(s: Seq<char>, from: int)
    requires
        0 <= from <= s.len(),
    ensures
        from <= digits_end(s, from) <= s.len(),
        forall|i: int| from <= i < digits_end(s, from) ==> is_digit(#[trigger] s[i]),
        digits_end(s, from) < s.len() ==> !is_digit(s[digits_end(s, from)]),
    decreases s.len() - from,
{
    if from < s.len() && is_digit(s[from]) {
        lemma_digits_end(s, from + 1);
    }
}

proof fn lemma_digits_end_at(s: Seq<char>, from: int, end: int)
    requires
        0 <= from <= end <= s.len(),
        forall|i: int| from <= i < end ==> is_digit(#[trigger] s[i]),
        end < s.len() ==> !is_digit(s[end]),
    ensures
        digits_end(s, from) == end,
{
    lemma_digits_end(s, from);
    if digits_end(s, from) < end {
        assert(is_digit(s[digits_end(s, from)]));
    }
}

/// One digit or more, with at most one point before, among or behind them.
pub open spec fn is_mantissa_text(m: Seq<char>) -> bool {
    ||| m.len() > 0 && all_digits(m)
    ||| m.len() > 1 && exists|p: int|
        0 <= p < m.len() && #[trigger] m[p] == '.' && all_digits(m.take(p)) && all_digits(
            m.skip(p + 1),
        )
}

/// Nothing, or the letter `e` in either case, a sign or none, and one digit or more.
pub open spec fn is_exponent_text(e: Seq<char>) -> bool {
    ||| e.len() == 0
    ||| e.len() > 1 && (e[0] == 'e' || e[0] == 'E') && all_digits(e.skip(1))
    ||| e.len() > 2 && (e[0] == 'e' || e[0] == 'E') && (e[1] == '+' || e[1] == '-') && all_digits(
        e.skip(2),
    )
}

/// A letter has two cases, and the letter without its case is the small one. What is no capital letter
/// stays.
pub proof fn law_lower(c: char, small: char)
    ensures
        'a' <= small <= 'z' ==> (lower(c) == small <==> c == small || c as u32 + 0x20
            == small as u32),
        !('A' <= c <= 'Z') ==> lower(c) == c,
{
}

proof fn lemma_exponent(s: Seq<char>, at: int)
    requires
        0 <= at <= s.len(),
    ensures
        is_exponent(s, at) <==> is_exponent_text(s.skip(at)),
{
    let e = s.skip(at);
    if at < s.len() {
        assert(e[0] == s[at]);
        law_lower(s[at], 'e');
        assert(lower(s[at]) == 'e' <==> s[at] == 'e' || s[at] == 'E');
        if at + 1 < s.len() {
            assert(e[1] == s[at + 1]);
            let from: int = if is_sign(s[at + 1]) {
                at + 2
            } else {
                at + 1
            };
            assert(is_sign(s[at + 1]) ==> !is_digit(s[at + 1]));
            let digits = s.skip(from);
            assert(from == at + 1 ==> e.skip(1) == digits);
            assert(from == at + 2 ==> e.skip(2) == digits);
            lemma_digits_end(s, from);
            if digits_end(s, from) == s.len() {
                assert forall|i: int| 0 <= i < digits.len() implies is_digit(
                    #[trigger] digits[i],
                ) by {
                    assert(is_digit(s[from + i]));
                }
            }
            if all_digits(digits) {
                assert forall|i: int| from <= i < s.len() implies is_digit(#[trigger] s[i]) by {
                    assert(is_digit(digits[i - from]));
                }
                lemma_digits_end_at(s, from, s.len() as int);
            }
            if all_digits(e.skip(1)) {
                assert(is_digit(e.skip(1)[0]));
            }
        }
    }
}

/// A number is digits with at most one point, and an exponent or none behind them.
pub proof fn law_number(s: Seq<char>)
    ensures
        is_number(s) <==> exists|n: int|
            0 <= n <= s.len() && #[trigger] is_mantissa_text(s.take(n)) && is_exponent_text(
                s.skip(n),
            ),
{
    let whole = digits_end(s, 0);
    lemma_digits_end(s, 0);
    if is_number(s) {
        if whole < s.len() && s[whole] == '.' {
            let end = digits_end(s, whole + 1);
            lemma_digits_end(s, whole + 1);
            lemma_exponent(s, end);
            let m = s.take(end);
            assert(m[whole] == '.');
            assert forall|i: int| 0 <= i < whole implies is_digit(#[trigger] m.take(whole)[i]) by {
                assert(is_digit(s[i]));
            }
            let behind = m.skip(whole + 1);
            assert forall|i: int| 0 <= i < behind.len() implies is_digit(#[trigger] behind[i]) by {
                assert(is_digit(s[whole + 1 + i]));
            }
            assert(is_mantissa_text(s.take(end)));
        } else {
            lemma_exponent(s, whole);
            let m = s.take(whole);
            assert forall|i: int| 0 <= i < whole implies is_digit(#[trigger] m[i]) by {
                assert(is_digit(s[i]));
            }
            assert(is_mantissa_text(s.take(whole)));
        }
    }
    if exists|n: int|
        0 <= n <= s.len() && #[trigger] is_mantissa_text(s.take(n)) && is_exponent_text(s.skip(n)) {
        let n = choose|n: int|
            0 <= n <= s.len() && #[trigger] is_mantissa_text(s.take(n)) && is_exponent_text(
                s.skip(n),
            );
        lemma_exponent(s, n);
        let m = s.take(n);
        if n < s.len() {
            assert(s.skip(n)[0] == s[n]);
            assert(!is_digit(s[n]));
        }
        if all_digits(m) {
            assert forall|i: int| 0 <= i < n implies is_digit(#[trigger] s[i]) by {
                assert(is_digit(m[i]));
            }
            lemma_digits_end_at(s, 0, n);
        } else {
            let p = choose|p: int|
                0 <= p < m.len() && #[trigger] m[p] == '.' && all_digits(m.take(p)) && all_digits(
                    m.skip(p + 1),
                );
            assert(s[p] == '.');
            assert forall|i: int| 0 <= i < p implies is_digit(#[trigger] s[i]) by {
                assert(is_digit(m.take(p)[i]));
            }
            lemma_digits_end_at(s, 0, p);
            assert forall|i: int| p + 1 <= i < n implies is_digit(#[trigger] s[i]) by {
                assert(is_digit(m.skip(p + 1)[i - p - 1]));
            }
            lemma_digits_end_at(s, p + 1, n);
        }
    }
}

/// The words for an infinity and for no number are read in either case of each of their letters.
pub proof fn law_rate_words(s: Seq<char>)
    ensures
        is_word(s, "inf"@) <==> s.len() == 3 && (s[0] == 'i' || s[0] == 'I') && (s[1] == 'n' || s[1]
            == 'N') && (s[2] == 'f' || s[2] == 'F'),
        is_word(s, "nan"@) <==> s.len() == 3 && (s[0] == 'n' || s[0] == 'N') && (s[1] == 'a' || s[1]
            == 'A') && (s[2] == 'n' || s[2] == 'N'),
        is_word(s, "infinity"@) <==> s.len() == 8 && is_word(s.take(3), "inf"@) && (s[3] == 'i'
            || s[3] == 'I') && (s[4] == 'n' || s[4] == 'N') && (s[5] == 'i' || s[5] == 'I') && (s[6]
            == 't' || s[6] == 'T') && (s[7] == 'y' || s[7] == 'Y'),
{
    reveal_strlit("inf");
    reveal_strlit("nan");
    reveal_strlit("infinity");
    if s.len() == 3 || s.len() == 8 {
        law_lower(s[0], 'i');
        law_lower(s[1], 'n');
        law_lower(s[2], 'f');
        law_lower(s[0], 'n');
        law_lower(s[1], 'a');
        law_lower(s[2], 'n');
    }
    if s.len() == 3 {
        assert(is_word(s, "inf"@) ==> lower(s[0]) == 'i' && lower(s[1]) == 'n' && lower(s[2])
            == 'f');
        assert(is_word(s, "nan"@) ==> lower(s[0]) == 'n' && lower(s[1]) == 'a' && lower(s[2])
            == 'n');
    }
    if s.len() == 8 {
        law_lower(s[3], 'i');
        law_lower(s[4], 'n');
        law_lower(s[5], 'i');
        law_lower(s[6], 't');
        law_lower(s[7], 'y');
        let t = s.take(3);
        assert(t[0] == s[0] && t[1] == s[1] && t[2] == s[2]);
        assert(is_word(t, "inf"@) ==> lower(t[0]) == 'i' && lower(t[1]) == 'n' && lower(t[2])
            == 'f');
        assert(is_word(s, "infinity"@) ==> lower(s[0]) == 'i' && lower(s[1]) == 'n' && lower(s[2])
            == 'f' && lower(s[3]) == 'i' && lower(s[4]) == 'n' && lower(s[5]) == 'i' && lower(s[6])
            == 't' && lower(s[7]) == 'y');
    }
}

/// Without a sign a rate is a number or one of the three words. One sign in front of it, of either kind,
/// makes no difference; a second one makes it none.
pub proof fn law_rate(s: Seq<char>, sign: char)
    requires
        sign == '+' || sign == '-',
    ensures
        s.len() > 0 && (s[0] == '+' || s[0] == '-') ==> !is_rate(seq![sign] + s),
        s.len() == 0 || (s[0] != '+' && s[0] != '-') ==> {
            &&& is_rate(seq![sign] + s) == is_rate(s)
            &&& is_rate(s) <==> is_number(s) || is_word(s, "inf"@) || is_word(s, "infinity"@)
                || is_word(s, "nan"@)
        },
        is_rate(s) ==> s.len() > 0,
{
    let signed = seq![sign] + s;
    assert(signed.drop_first() == s);
    law_rate_words(s);
    if s.len() > 0 && (s[0] == '+' || s[0] == '-') {
        assert(digits_end(s, 0) == 0);
        assert(!is_number(s));
        if is_word(s, "infinity"@) {
            assert(s.take(3)[0] == s[0]);
            law_rate_words(s.take(3));
        }
    }
    if s.len() == 0 {
        assert(!is_rate(s));
    }
}

/// An empty text has its own message.
pub proof fn law_rate_error(s: Seq<char>)
    ensures
        rate_error(s) == "cannot parse float from empty string"@ <==> s.len() == 0,
        rate_error(s) == "invalid float literal"@ <==> s.len() > 0,
{
    reveal_strlit("cannot parse float from empty string");
    reveal_strlit("invalid float literal");
    assert("cannot parse float from empty string"@.len() == 36);
    assert("invalid float literal"@.len() == 21);
}

} // verus!
