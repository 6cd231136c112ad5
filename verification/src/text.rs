//! Characters, pieces and numbers of the option strings, and the texts of error messages.
use vstd::prelude::*;

verus! {

/// The texts of a list of strings.
pub open spec fn texts(v: Seq<String>) -> Seq<Seq<char>> {
    v.map_values(|s: String| s@)
}

/// The Unicode property `White_Space`.
pub open spec fn is_white_space(c: char) -> bool {
    let n = c as u32;
    ||| 0x9 <= n <= 0xd
    ||| n == 0x20
    ||| n == 0x85
    ||| n == 0xa0
    ||| n == 0x1680
    ||| 0x2000 <= n <= 0x200a
    ||| n == 0x2028
    ||| n == 0x2029
    ||| n == 0x202f
    ||| n == 0x205f
    ||| n == 0x3000
}

fn white_space(c: char) -> (r: bool)
    ensures
        r == is_white_space(c),
{
    let n: u32 = c as u32;
    (0x9 <= n && n <= 0xd) || n == 0x20 || n == 0x85 || n == 0xa0 || n == 0x1680 || (0x2000 <= n
        && n <= 0x200a) || n == 0x2028 || n == 0x2029 || n == 0x202f || n == 0x205f || n == 0x3000
}

/// Nothing but white space.
pub open spec fn is_blank(s: Seq<char>) -> bool {
    forall|i: int| 0 <= i < s.len() ==> is_white_space(#[trigger] s[i])
}

/// `s` from its first character that is no white space.
pub open spec fn trim_start(s: Seq<char>) -> Seq<char>
    decreases s.len(),
{
    if s.len() > 0 && is_white_space(s.first()) {
        trim_start(s.drop_first())
    } else {
        s
    }
}

/// `s` up to its last character that is no white space.
pub open spec fn trim_end(s: Seq<char>) -> Seq<char>
    decreases s.len(),
{
    if s.len() > 0 && is_white_space(s.last()) {
        trim_end(s.drop_last())
    } else {
        s
    }
}

/// `s` without white space at either end.
pub open spec fn trimmed(s: Seq<char>) -> Seq<char> {
    trim_end(trim_start(s))
}

/// The pieces of `s` between the occurrences of `sep`. There is one more of them than there are
/// occurrences.
pub open spec fn split(s: Seq<char>, sep: char) -> Seq<Seq<char>>
    decreases s.len(),
{
    if s.len() == 0 {
        seq![Seq::<char>::empty()]
    } else {
        let before = split(s.drop_last(), sep);
        if s.last() == sep {
            before.push(Seq::empty())
        } else {
            before.update(before.len() - 1, before.last().push(s.last()))
        }
    }
}

/// The words of an option string: what stands between blanks, without pieces of white space only.
pub open spec fn words(s: Seq<char>) -> Seq<Seq<char>> {
    split(s, ' ').filter(|w: Seq<char>| !is_blank(w))
}

/// The pieces of `list` written one after the other, with `sep` between them.
pub open spec fn joined(list: Seq<Seq<char>>, sep: char) -> Seq<char>
    decreases list.len(),
{
    if list.len() == 0 {
        Seq::empty()
    } else if list.len() == 1 {
        list[0]
    } else {
        joined(list.drop_last(), sep).push(sep) + list.last()
    }
}

/// Splitting loses nothing: the pieces, joined with the separator, are the string again, and no
/// piece holds the separator.
pub proof fn law_split_joined(s: Seq<char>, sep: char)
    ensures
        split(s, sep).len() > 0,
        joined(split(s, sep), sep) == s,
        forall|i: int|
            #![trigger split(s, sep)[i]]
            0 <= i < split(s, sep).len() ==> !split(s, sep)[i].contains(sep),
    decreases s.len(),
{
    let pieces = split(s, sep);
    if s.len() == 0 {
        assert(pieces[0] == s);
    } else {
        let before = split(s.drop_last(), sep);
        law_split_joined(s.drop_last(), sep);
        if s.last() == sep {
            assert(pieces.drop_last() == before);
            assert(joined(pieces, sep) == joined(before, sep).push(sep) + Seq::<char>::empty());
            assert(joined(pieces, sep) == s);
        } else {
            assert(pieces.drop_last() == before.drop_last());
            assert(pieces.last() == before.last().push(s.last()));
            assert(joined(pieces, sep) == joined(before, sep).push(s.last()));
            assert(joined(pieces, sep) == s);
            assert forall|i: int|
                #![trigger pieces[i]]
                0 <= i < pieces.len() implies !pieces[i].contains(sep) by {
                if i == pieces.len() - 1 {
                    assert(!before[i].contains(sep));
                    if pieces[i].contains(sep) {
                        let k = choose|k: int|
                            0 <= k < pieces[i].len() && pieces[i][k] == sep;
                        assert(before[i][k] == sep);
                    }
                } else {
                    assert(pieces[i] == before[i]);
                }
            }
        }
    }
}

/// A separator between two strings separates their pieces.
pub proof fn law_split_append(a: Seq<char>, b: Seq<char>, sep: char)
    ensures
        split(a.push(sep) + b, sep) == split(a, sep) + split(b, sep),
    decreases b.len(),
{
    let s = a.push(sep) + b;
    if b.len() == 0 {
        assert(s == a.push(sep));
        assert(s.drop_last() == a);
    } else {
        law_split_append(a, b.drop_last(), sep);
        law_split_joined(b.drop_last(), sep);
        assert(s.drop_last() == a.push(sep) + b.drop_last());
        assert(s.last() == b.last());
    }
    assert(split(s, sep) == split(a, sep) + split(b, sep));
}

/// A string without separators is one piece.
pub proof fn lemma_split_single(a: Seq<char>, sep: char)
    requires
        !a.contains(sep),
    ensures
        split(a, sep) == seq![a],
    decreases a.len(),
{
    if a.len() > 0 {
        assert(a[a.len() - 1] == a.last());
        assert(!a.drop_last().contains(sep));
        lemma_split_single(a.drop_last(), sep);
        assert(split(a, sep) == seq![a.drop_last().push(a.last())]);
        assert(a.drop_last().push(a.last()) == a);
    } else {
        assert(a == Seq::<char>::empty());
    }
}

/// A blank between two option strings separates their words. How many blanks there are makes no
/// difference: a further one in front of the second string has no words before it.
pub proof fn law_words_append(a: Seq<char>, b: Seq<char>)
    ensures
        words(a.push(' ') + b) == words(a) + words(b),
        words(a.push(' ') + (seq![' '] + b)) == words(a.push(' ') + b),
{
    let keep = |w: Seq<char>| !is_blank(w);
    law_split_append(a, b, ' ');
    Seq::filter_distributes_over_add(split(a, ' '), split(b, ' '), keep);
    let more = seq![' '] + b;
    let nothing = Seq::<char>::empty();
    assert(more == nothing.push(' ') + b);
    law_split_append(nothing, b, ' ');
    Seq::filter_distributes_over_add(split(nothing, ' '), split(b, ' '), keep);
    lemma_blank_has_no_words(nothing);
    assert(words(more) == words(b));
    law_split_append(a, more, ' ');
    Seq::filter_distributes_over_add(split(a, ' '), split(more, ' '), keep);
}

/// The characters of `s`.
pub fn characters(s: &str) -> (r: Vec<char>)
    ensures
        r@ == s@,
{
    let n: usize = s.unicode_len();
    let mut out: Vec<char> = Vec::new();
    let mut i: usize = 0;
    while i < n
        invariant
            i <= n,
            n == s@.len(),
            out@ == s@.take(i as int),
        decreases n - i,
    {
        out.push(s.get_char(i));
        assert(s@.take(i + 1) == s@.take(i as int).push(s@[i as int]));
        i = i + 1;
    }
    assert(s@.take(n as int) == s@);
    out
}

/// Whether two strings hold the same characters.
pub fn same_text(a: &str, b: &str) -> (r: bool)
    ensures
        r == (a@ == b@),
{
    let x = characters(a);
    let y = characters(b);
    if x.len() != y.len() {
        return false;
    }
    let mut i: usize = 0;
    while i < x.len()
        invariant
            i <= x@.len(),
            x@ == a@,
            y@ == b@,
            x@.len() == y@.len(),
            x@.take(i as int) == y@.take(i as int),
        decreases x@.len() - i,
    {
        if x[i] != y[i] {
            return false;
        }
        assert(x@.take(i + 1) == x@.take(i as int).push(x@[i as int]));
        assert(y@.take(i + 1) == y@.take(i as int).push(y@[i as int]));
        i = i + 1;
    }
    assert(x@.take(i as int) == x@);
    assert(y@.take(i as int) == y@);
    true
}

/// `a` and `b` written one after the other.
pub fn joined_text(a: &str, b: &str) -> (r: String)
    ensures
        r@ == a@ + b@,
{
    let mut out = a.to_owned();
    out.append(b);
    out
}

/// `part` stands in `s` at `at`.
pub open spec fn stands_at(s: Seq<char>, part: Seq<char>, at: int) -> bool {
    &&& 0 <= at
    &&& at + part.len() <= s.len()
    &&& s.subrange(at, at + part.len()) == part
}

/// Where `part` stands in `s` first, from `from` on, if it does.
pub open spec fn found(s: Seq<char>, part: Seq<char>, from: int) -> Option<int>
    decreases s.len() - from + 1,
{
    if from + part.len() > s.len() {
        None
    } else if stands_at(s, part, from) {
        Some(from)
    } else {
        found(s, part, from + 1)
    }
}

/// `s` with `new` in place of the first `part`. Without one it stays.
pub open spec fn replaced(s: Seq<char>, part: Seq<char>, new: Seq<char>) -> Seq<char> {
    match found(s, part, 0) {
        Some(at) => s.take(at) + new + s.skip(at + part.len()),
        None => s,
    }
}

/// Writes `s` with `new` in place of the first `part`.
pub fn replace_first(s: &str, part: &str, new: &str) -> (r: String)
    ensures
        r@ == replaced(s@, part@, new@),
{
    let n: usize = s.unicode_len();
    let len: usize = part.unicode_len();
    let mut at: usize = 0;
    while len <= n && at <= n - len
        invariant
            n == s@.len(),
            len == part@.len(),
            len <= n ==> at <= n - len + 1,
            len > n ==> at == 0,
            found(s@, part@, 0) == found(s@, part@, at as int),
        decreases n - at,
    {
        if same_text(s.substring_char(at, at + len), part) {
            let mut out = s.substring_char(0, at).to_owned();
            out.append(new);
            out.append(s.substring_char(at + len, n));
            proof {
                assert(s@.subrange(0, at as int) == s@.take(at as int));
                assert(s@.subrange(at + len, n as int) == s@.skip(at + len));
            }
            return out;
        }
        proof {
            if at == n {
                assert(s@.subrange(at as int, at + len) == part@);
            }
        }
        at = at + 1;
    }
    s.to_owned()
}

/// Whether there is nothing but white space in `s`.
pub fn blank(s: &str) -> (r: bool)
    ensures
        r == is_blank(s@),
{
    let cs = characters(s);
    let mut i: usize = 0;
    while i < cs.len()
        invariant
            i <= cs@.len(),
            cs@ == s@,
            forall|k: int| 0 <= k < i ==> is_white_space(#[trigger] s@[k]),
        decreases cs@.len() - i,
    {
        if !white_space(cs[i]) {
            assert(!is_white_space(s@[i as int]));
            return false;
        }
        i = i + 1;
    }
    true
}

/// `s` without white space at either end.
pub fn trim(s: &str) -> (r: &str)
    ensures
        r@ == trimmed(s@),
{
    let cs = characters(s);
    let n: usize = cs.len();
    let mut from: usize = 0;
    assert(s@.skip(0) == s@);
    while from < n && white_space(cs[from])
        invariant
            from <= n,
            n == cs@.len(),
            cs@ == s@,
            trim_start(s@) == trim_start(s@.skip(from as int)),
        decreases n - from,
    {
        assert(s@.skip(from as int).drop_first() == s@.skip(from + 1));
        from = from + 1;
    }
    let ghost rest = s@.skip(from as int);
    assert(trim_start(s@) == rest);
    let mut to: usize = n;
    assert(rest.take(n - from) == rest);
    while to > from && white_space(cs[to - 1])
        invariant
            from <= to <= n,
            n == cs@.len(),
            cs@ == s@,
            rest == s@.skip(from as int),
            trim_end(rest) == trim_end(rest.take(to - from)),
        decreases to,
    {
        assert(rest.take(to - from).last() == s@[to - 1]);
        assert(rest.take(to - from).drop_last() == rest.take(to - from - 1));
        to = to - 1;
    }
    proof {
        if to > from {
            assert(rest.take(to - from).last() == s@[to - 1]);
        }
        assert(s@.subrange(from as int, to as int) == rest.take(to - from));
    }
    s.substring_char(from, to)
}

/// The pieces of `s` between the occurrences of `sep`.
pub fn split_text(s: &str, sep: char) -> (r: Vec<String>)
    ensures
        texts(r@) == split(s@, sep),
{
    let cs = characters(s);
    let n: usize = cs.len();
    let mut out: Vec<String> = Vec::new();
    let mut from: usize = 0;
    let mut i: usize = 0;
    assert(s@.take(0) == Seq::<char>::empty());
    assert(texts(out@).push(s@.subrange(0, 0)) == seq![Seq::<char>::empty()]);
    while i < n
        invariant
            from <= i <= n,
            n == cs@.len(),
            cs@ == s@,
            split(s@.take(i as int), sep) == texts(out@).push(s@.subrange(from as int, i as int)),
        decreases n - i,
    {
        let ghost before = texts(out@);
        assert(s@.take(i + 1).drop_last() == s@.take(i as int));
        assert(s@.take(i + 1).last() == s@[i as int]);
        if cs[i] == sep {
            let piece = s.substring_char(from, i).to_owned();
            out.push(piece);
            assert(texts(out@) == before.push(piece@));
            from = i + 1;
            assert(s@.subrange(from as int, i + 1) == Seq::<char>::empty());
        } else {
            assert(s@.subrange(from as int, i + 1) == s@.subrange(from as int, i as int).push(
                s@[i as int],
            ));
        }
        i = i + 1;
    }
    assert(s@.take(n as int) == s@);
    let ghost before = texts(out@);
    let piece = s.substring_char(from, n).to_owned();
    out.push(piece);
    assert(texts(out@) == before.push(piece@));
    out
}

/// The words of an option string.
pub fn words_of(s: &str) -> (r: Vec<String>)
    ensures
        texts(r@) == words(s@),
{
    let pieces = split_text(s, ' ');
    let ghost all = split(s@, ' ');
    let ghost keep = |w: Seq<char>| !is_blank(w);
    let mut out: Vec<String> = Vec::new();
    let mut i: usize = 0;
    proof {
        reveal(Seq::filter);
        assert(all.take(0).filter(keep) == texts(out@));
    }
    while i < pieces.len()
        invariant
            i <= pieces@.len(),
            all == texts(pieces@),
            keep == (|w: Seq<char>| !is_blank(w)),
            texts(out@) == all.take(i as int).filter(keep),
        decreases pieces@.len() - i,
    {
        let ghost before = texts(out@);
        proof {
            reveal(Seq::filter);
            assert(all.take(i + 1).drop_last() == all.take(i as int));
            assert(all.take(i + 1).last() == pieces@[i as int]@);
        }
        if !blank(pieces[i].as_str()) {
            let piece = pieces[i].clone();
            out.push(piece);
            assert(texts(out@) == before.push(piece@));
        }
        i = i + 1;
    }
    assert(all.take(i as int) == all);
    out
}

/// A string of white space only has no words.
pub proof fn lemma_blank_has_no_words(s: Seq<char>)
    requires
        is_blank(s),
    ensures
        words(s) == Seq::<Seq<char>>::empty(),
{
    lemma_blank_pieces(s, ' ');
    let keep = |w: Seq<char>| !is_blank(w);
    if words(s).len() > 0 {
        split(s, ' ').lemma_filter_pred(keep, 0);
        split(s, ' ').lemma_filter_contains_rev(keep, words(s)[0]);
    }
}

proof fn lemma_blank_pieces(s: Seq<char>, sep: char)
    requires
        is_blank(s),
    ensures
        split(s, sep).len() > 0,
        forall|i: int| 0 <= i < split(s, sep).len() ==> is_blank(#[trigger] split(s, sep)[i]),
    decreases s.len(),
{
    if s.len() > 0 {
        assert(is_white_space(s[s.len() - 1]));
        lemma_blank_pieces(s.drop_last(), sep);
        let before = split(s.drop_last(), sep);
        assert(is_blank(before[before.len() - 1]));
    }
}

/// A decimal digit.
pub open spec fn is_digit(c: char) -> bool {
    0x30 <= c as u32 <= 0x39
}

/// What a decimal digit stands for.
pub open spec fn digit_value(c: char) -> nat {
    (c as u32 - 0x30) as nat
}

/// Why a text is no unsigned number.
#[derive(Clone, Copy, Debug, PartialEq, Eq, Structural)]
pub enum IntError {
    /// There is nothing to read.
    Empty,
    /// A character is no digit.
    InvalidDigit,
    /// The number is larger than the largest one of its type.
    PosOverflow,
}

impl IntError {
    /// How the error is written in a message.
    pub open spec fn text(self) -> Seq<char> {
        match self {
            IntError::Empty => "ParseIntError { kind: Empty }"@,
            IntError::InvalidDigit => "ParseIntError { kind: InvalidDigit }"@,
            IntError::PosOverflow => "ParseIntError { kind: PosOverflow }"@,
        }
    }

    /// How the error is written in a message.
    pub fn to_text(self) -> (r: &'static str)
        ensures
            r@ == self.text(),
    {
        match self {
            IntError::Empty => "ParseIntError { kind: Empty }",
            IntError::InvalidDigit => "ParseIntError { kind: InvalidDigit }",
            IntError::PosOverflow => "ParseIntError { kind: PosOverflow }",
        }
    }
}

/// The digits of `s` read from the left, after digits that stand for `acc`. The first character
/// that is no digit, or that takes the number above `max`, decides the error.
pub open spec fn read_digits(s: Seq<char>, acc: nat, max: nat) -> Result<nat, IntError>
    decreases s.len(),
{
    if s.len() == 0 {
        Ok(acc)
    } else if !is_digit(s.first()) {
        Err(IntError::InvalidDigit)
    } else if acc * 10 + digit_value(s.first()) > max {
        Err(IntError::PosOverflow)
    } else {
        read_digits(s.drop_first(), acc * 10 + digit_value(s.first()), max)
    }
}

/// An unsigned number of at most `max`: decimal digits, which a plus sign may precede.
pub open spec fn unsigned(s: Seq<char>, max: nat) -> Result<nat, IntError> {
    if s.len() == 0 {
        Err(IntError::Empty)
    } else if s.first() == '+' {
        if s.len() == 1 {
            Err(IntError::InvalidDigit)
        } else {
            read_digits(s.drop_first(), 0, max)
        }
    } else {
        read_digits(s, 0, max)
    }
}

/// A signed number that lies in the range of `u32`: digits, which one sign may precede. With a
/// minus sign that is zero alone.
pub open spec fn signed_u32(s: Seq<char>) -> Option<u32> {
    if s.len() > 1 && s.first() == '-' {
        match read_digits(s.drop_first(), 0, 0) {
            Ok(_) => Some(0),
            Err(_) => None,
        }
    } else {
        match unsigned(s, u32::MAX as nat) {
            Ok(n) => Some(n as u32),
            Err(_) => None,
        }
    }
}

fn digits_from(cs: &Vec<char>, from: usize, max: u64) -> (r: Result<u64, IntError>)
    requires
        from <= cs@.len(),
    ensures
        match r {
            Ok(n) => read_digits(cs@.skip(from as int), 0, max as nat) == Ok::<nat, IntError>(
                n as nat,
            ),
            Err(e) => read_digits(cs@.skip(from as int), 0, max as nat) == Err::<nat, IntError>(e),
        },
        r matches Ok(n) ==> n <= max,
{
    let mut acc: u64 = 0;
    let mut i: usize = from;
    while i < cs.len()
        invariant
            from <= i <= cs@.len(),
            acc <= max,
            read_digits(cs@.skip(from as int), 0, max as nat) == read_digits(
                cs@.skip(i as int),
                acc as nat,
                max as nat,
            ),
        decreases cs@.len() - i,
    {
        let n: u32 = cs[i] as u32;
        assert(cs@.skip(i as int).first() == cs@[i as int]);
        assert(cs@.skip(i as int).drop_first() == cs@.skip(i + 1));
        if n < 0x30 || n > 0x39 {
            return Err(IntError::InvalidDigit);
        }
        let next: u128 = acc as u128 * 10 + (n - 0x30) as u128;
        if next > max as u128 {
            return Err(IntError::PosOverflow);
        }
        acc = next as u64;
        i = i + 1;
    }
    Ok(acc)
}

/// Reads an unsigned number of at most `max`.
pub fn parse_unsigned(s: &str, max: u64) -> (r: Result<u64, IntError>)
    ensures
        match r {
            Ok(n) => unsigned(s@, max as nat) == Ok::<nat, IntError>(n as nat),
            Err(e) => unsigned(s@, max as nat) == Err::<nat, IntError>(e),
        },
        r matches Ok(n) ==> n <= max,
{
    let cs = characters(s);
    if cs.len() == 0 {
        Err(IntError::Empty)
    } else if cs[0] == '+' {
        if cs.len() == 1 {
            Err(IntError::InvalidDigit)
        } else {
            assert(cs@.skip(1) == cs@.drop_first());
            digits_from(&cs, 1, max)
        }
    } else {
        assert(cs@.skip(0) == cs@);
        digits_from(&cs, 0, max)
    }
}

/// Reads a signed number that lies in the range of `u32`.
pub fn parse_signed_u32(s: &str) -> (r: Option<u32>)
    ensures
        r == signed_u32(s@),
{
    let cs = characters(s);
    if cs.len() > 1 && cs[0] == '-' {
        assert(cs@.skip(1) == cs@.drop_first());
        match digits_from(&cs, 1, 0) {
            Ok(_) => Some(0),
            Err(_) => None,
        }
    } else {
        match parse_unsigned(s, u32::MAX as u64) {
            Ok(n) => Some(n as u32),
            Err(_) => None,
        }
    }
}

/// `n` in decimal digits, without leading zeros.
pub open spec fn decimal(n: nat) -> Seq<char>
    decreases n,
{
    if n < 10 {
        seq![digit_char(n)]
    } else {
        decimal(n / 10).push(digit_char(n % 10))
    }
}

/// The decimal digit for a number below ten.
pub open spec fn digit_char(n: nat) -> char {
    (0x30 + n) as char
}

/// `n` in decimal digits, with a minus sign in front where it is negative.
pub open spec fn signed_decimal(n: int) -> Seq<char> {
    if n < 0 {
        seq!['-'] + decimal((-n) as nat)
    } else {
        decimal(n as nat)
    }
}

fn digit_text(n: u64) -> (r: &'static str)
    requires
        n < 10,
    ensures
        r@ == seq![digit_char(n as nat)],
{
    proof {
        reveal_strlit("0");
        reveal_strlit("1");
        reveal_strlit("2");
        reveal_strlit("3");
        reveal_strlit("4");
        reveal_strlit("5");
        reveal_strlit("6");
        reveal_strlit("7");
        reveal_strlit("8");
        reveal_strlit("9");
    }
    if n == 0 {
        "0"
    } else if n == 1 {
        "1"
    } else if n == 2 {
        "2"
    } else if n == 3 {
        "3"
    } else if n == 4 {
        "4"
    } else if n == 5 {
        "5"
    } else if n == 6 {
        "6"
    } else if n == 7 {
        "7"
    } else if n == 8 {
        "8"
    } else {
        "9"
    }
}

/// Writes `n` in decimal digits.
pub fn write_decimal(n: u64) -> (r: String)
    ensures
        r@ == decimal(n as nat),
    decreases n,
{
    if n < 10 {
        digit_text(n).to_owned()
    } else {
        let mut out = write_decimal(n / 10);
        out.append(digit_text(n % 10));
        assert(out@ == decimal(n as nat));
        out
    }
}

/// Writes `n` in decimal digits, with a minus sign in front where it is negative.
pub fn write_signed(n: i32) -> (r: String)
    ensures
        r@ == signed_decimal(n as int),
{
    if n < 0 {
        proof {
            reveal_strlit("-");
        }
        let mut out = "-".to_owned();
        out.append(write_decimal((-(n as i64)) as u64).as_str());
        assert("-"@ == seq!['-']);
        out
    } else {
        write_decimal(n as u64)
    }
}

/// Digits behind digits are read after them.
proof fn lemma_read_digits_append(a: Seq<char>, b: Seq<char>, acc: nat, max: nat)
    ensures
        read_digits(a + b, acc, max) == match read_digits(a, acc, max) {
            Ok(n) => read_digits(b, n, max),
            Err(e) => Err(e),
        },
    decreases a.len(),
{
    if a.len() == 0 {
        assert(a + b == b);
    } else {
        assert((a + b).first() == a.first());
        assert((a + b).drop_first() == a.drop_first() + b);
        if is_digit(a.first()) && acc * 10 + digit_value(a.first()) <= max {
            lemma_read_digits_append(
                a.drop_first(),
                b,
                acc * 10 + digit_value(a.first()),
                max,
            );
        }
    }
}

/// Decimal digits are digits, at least one of them.
pub proof fn lemma_decimal_digits(n: nat)
    ensures
        decimal(n).len() > 0,
        forall|i: int| 0 <= i < decimal(n).len() ==> is_digit(#[trigger] decimal(n)[i]),
    decreases n,
{
    if n >= 10 {
        lemma_decimal_digits(n / 10);
    }
}

/// Reading gives back what was written: the decimal digits of every number in range are read as
/// that number.
pub proof fn law_decimal_read(n: nat, max: nat)
    requires
        n <= max,
    ensures
        unsigned(decimal(n), max) == Ok::<nat, IntError>(n),
        read_digits(decimal(n), 0, max) == Ok::<nat, IntError>(n),
    decreases n,
{
    lemma_decimal_digits(n);
    assert(is_digit(decimal(n)[0]));
    if n < 10 {
        let s = seq![digit_char(n)];
        assert(s.drop_first() == Seq::<char>::empty());
        assert(read_digits(s.drop_first(), n, max) == Ok::<nat, IntError>(n));
    } else {
        law_decimal_read(n / 10, max);
        let last = seq![digit_char(n % 10)];
        assert(decimal(n) == decimal(n / 10) + last);
        lemma_read_digits_append(decimal(n / 10), last, 0, max);
        assert(last.drop_first() == Seq::<char>::empty());
        assert(read_digits(last.drop_first(), n, max) == Ok::<nat, IntError>(n));
    }
}

/// The white space of Unicode is twenty-five characters. No digit, no letter of the alphabet, no sign and
/// no point is among them.
pub proof fn law_white_space(c: char)
    ensures
        is_white_space(c) <==> seq![
            0x9u32,
            0xa,
            0xb,
            0xc,
            0xd,
            0x20,
            0x85,
            0xa0,
            0x1680,
            0x2000,
            0x2001,
            0x2002,
            0x2003,
            0x2004,
            0x2005,
            0x2006,
            0x2007,
            0x2008,
            0x2009,
            0x200a,
            0x2028,
            0x2029,
            0x202f,
            0x205f,
            0x3000,
        ].contains(c as u32),
        0x21 <= c as u32 <= 0x7e ==> !is_white_space(c),
{
    let all = seq![
        0x9u32,
        0xa,
        0xb,
        0xc,
        0xd,
        0x20,
        0x85,
        0xa0,
        0x1680,
        0x2000,
        0x2001,
        0x2002,
        0x2003,
        0x2004,
        0x2005,
        0x2006,
        0x2007,
        0x2008,
        0x2009,
        0x200a,
        0x2028,
        0x2029,
        0x202f,
        0x205f,
        0x3000,
    ];
    let n = c as u32;
    if is_white_space(c) {
        let i: int = if n <= 0xd {
            n - 9
        } else if n == 0x20 {
            5
        } else if n == 0x85 {
            6
        } else if n == 0xa0 {
            7
        } else if n == 0x1680 {
            8
        } else if n <= 0x200a {
            n - 0x2000 + 9
        } else if n == 0x2028 {
            20
        } else if n == 0x2029 {
            21
        } else if n == 0x202f {
            22
        } else if n == 0x205f {
            23
        } else {
            24
        };
        assert(all[i] == n);
    }
}

proof fn lemma_trim_start(s: Seq<char>) -> (a: Seq<char>)
    ensures
        is_blank(a),
        s == a + trim_start(s),
        trim_start(s).len() > 0 ==> !is_white_space(trim_start(s).first()),
    decreases s.len(),
{
    if s.len() > 0 && is_white_space(s.first()) {
        let rest = lemma_trim_start(s.drop_first());
        let a = seq![s.first()] + rest;
        assert(s == seq![s.first()] + s.drop_first());
        assert(s == a + trim_start(s));
        a
    } else {
        assert(s == Seq::<char>::empty() + s);
        Seq::empty()
    }
}

proof fn lemma_trim_end(s: Seq<char>) -> (b: Seq<char>)
    ensures
        is_blank(b),
        s == trim_end(s) + b,
        trim_end(s).len() > 0 ==> !is_white_space(trim_end(s).last()),
    decreases s.len(),
{
    if s.len() > 0 && is_white_space(s.last()) {
        let rest = lemma_trim_end(s.drop_last());
        let b = rest.push(s.last());
        assert(s == s.drop_last().push(s.last()));
        assert(s == trim_end(s) + b);
        b
    } else {
        assert(s == s + Seq::<char>::empty());
        Seq::empty()
    }
}

/// Trimming takes white space away at the ends and nothing else, and leaves none there.
pub proof fn law_trimmed(s: Seq<char>)
    ensures
        exists|a: Seq<char>, b: Seq<char>|
            #![trigger is_blank(a), is_blank(b)]
            is_blank(a) && is_blank(b) && s == a + trimmed(s) + b,
        trimmed(s).len() > 0 ==> !is_white_space(trimmed(s).first()) && !is_white_space(
            trimmed(s).last(),
        ),
        trimmed(s).len() == 0 <==> is_blank(s),
{
    let a = lemma_trim_start(s);
    let rest = trim_start(s);
    let b = lemma_trim_end(rest);
    assert(s == a + trimmed(s) + b);
    assert(is_blank(a) && is_blank(b));
    let t = trimmed(s);
    if t.len() > 0 {
        assert(rest.first() == t.first());
        assert(s[a.len() as int] == t.first());
    } else {
        assert forall|i: int| 0 <= i < s.len() implies is_white_space(#[trigger] s[i]) by {
            if i < a.len() {
                assert(s[i] == a[i]);
            } else {
                assert(s[i] == b[i - a.len()]);
            }
        }
    }
}

/// What stands between blanks is one word, unless it is white space.
pub proof fn law_one_word(w: Seq<char>)
    requires
        !w.contains(' '),
    ensures
        !is_blank(w) ==> words(w) == seq![w],
        is_blank(w) ==> words(w) == Seq::<Seq<char>>::empty(),
{
    lemma_split_single(w, ' ');
    reveal(Seq::filter);
    let pieces = seq![w];
    assert(pieces.drop_last() == Seq::<Seq<char>>::empty());
    assert(pieces.last() == w);
    if is_blank(w) {
        lemma_blank_has_no_words(w);
    } else {
        assert(pieces.drop_last().filter(|x: Seq<char>| !is_blank(x)) == Seq::<
            Seq<char>,
        >::empty());
        assert(words(w) == seq![w]);
    }
}

/// Joining writes the pieces in their order, with the separator between them and nowhere else.
pub proof fn law_joined(list: Seq<Seq<char>>, last: Seq<char>, sep: char)
    ensures
        joined(Seq::empty(), sep) == Seq::<char>::empty(),
        joined(seq![last], sep) == last,
        list.len() > 0 ==> joined(list.push(last), sep) == joined(list, sep) + seq![sep] + last,
{
    if list.len() > 0 {
        assert(list.push(last).drop_last() == list);
        assert(list.push(last).last() == last);
        assert(joined(list, sep).push(sep) + last == joined(list, sep) + seq![sep] + last);
    }
}

/// A text stands in another one where the other is written with something before it and something
/// behind it.
pub proof fn law_stands_at(before: Seq<char>, part: Seq<char>, behind: Seq<char>, at: int)
    ensures
        stands_at(before + part + behind, part, before.len() as int),
        stands_at(before, part, at) ==> before == before.take(at) + part + before.skip(
            at + part.len(),
        ),
{
    let s = before + part + behind;
    let from: int = before.len() as int;
    assert(s.subrange(from, from + part.len()) == part);
    if stands_at(before, part, at) {
        assert(before == before.take(at) + before.subrange(at, at + part.len()) + before.skip(
            at + part.len(),
        ));
    }
}

/// A search finds the first place, and nothing where there is none.
pub proof fn law_found(s: Seq<char>, part: Seq<char>, from: int)
    requires
        0 <= from,
    ensures
        match found(s, part, from) {
            Some(at) => from <= at && stands_at(s, part, at) && forall|i: int|
                from <= i < at ==> !#[trigger] stands_at(s, part, i),
            None => forall|i: int| from <= i ==> !#[trigger] stands_at(s, part, i),
        },
    decreases s.len() - from + 1,
{
    if from + part.len() <= s.len() && !stands_at(s, part, from) {
        law_found(s, part, from + 1);
    }
}

/// Replacing changes the first place where the part stands, and nothing before it or behind it. A text
/// in which the part does not stand stays.
pub proof fn law_replaced(s: Seq<char>, part: Seq<char>, new: Seq<char>, at: int)
    ensures
        stands_at(s, part, at) && (forall|i: int| 0 <= i < at ==> !#[trigger] stands_at(s, part, i))
            ==> replaced(s, part, new) == s.take(at) + new + s.skip(at + part.len()),
        (forall|i: int| !#[trigger] stands_at(s, part, i)) ==> replaced(s, part, new) == s,
{
    law_found(s, part, 0);
}

/// Nothing but digits.
pub open spec fn all_digits(s: Seq<char>) -> bool {
    forall|i: int| 0 <= i < s.len() ==> is_digit(#[trigger] s[i])
}

/// What digits stand for: each counts ten times as much as the one behind it.
pub open spec fn place_value(s: Seq<char>) -> nat
    decreases s.len(),
{
    if s.len() == 0 {
        0
    } else {
        place_value(s.drop_last()) * 10 + digit_value(s.last())
    }
}

/// The digits of the alphabet stand for the numbers up to nine, and every number up to nine is written
/// with its digit.
pub proof fn law_digits(c: char, n: nat)
    ensures
        is_digit(c) <==> '0' <= c <= '9',
        is_digit(c) ==> digit_value(c) == c as u32 - '0' as u32,
        is_digit(c) ==> digit_value(c) <= 9 && digit_char(digit_value(c)) == c,
        n <= 9 ==> is_digit(digit_char(n)) && digit_value(digit_char(n)) == n,
{
}

/// Reading breaks off at character `k`: what stands before it is a number in range, and the character
/// is no digit, or takes the number out of range.
pub open spec fn breaks_at(s: Seq<char>, k: int, max: nat, e: IntError) -> bool {
    &&& 0 <= k < s.len()
    &&& all_digits(s.take(k))
    &&& place_value(s.take(k)) <= max
    &&& match e {
        IntError::Empty => false,
        IntError::InvalidDigit => !is_digit(s[k]),
        IntError::PosOverflow => is_digit(s[k]) && place_value(s.take(k + 1)) > max,
    }
}

/// Digits are read as what they stand for, where that is in range. Everything else is an error, which is
/// that of the first character at which reading breaks off.
pub proof fn law_digits_are_read(s: Seq<char>, max: nat)
    ensures
        match read_digits(s, 0, max) {
            Ok(n) => all_digits(s) && n == place_value(s) && n <= max,
            Err(e) => (!all_digits(s) || place_value(s) > max) && exists|k: int|
                #[trigger] breaks_at(s, k, max, e),
        },
    decreases s.len(),
{
    if s.len() > 0 {
        let a = s.drop_last();
        let c = s.last();
        law_digits_are_read(a, max);
        assert(s == a + seq![c]);
        lemma_read_digits_append(a, seq![c], 0, max);
        assert(seq![c].drop_first() == Seq::<char>::empty());
        assert(s.take(s.len() - 1) == a);
        assert(s.take(s.len() as int) == s);
        assert(s[s.len() - 1] == c);
        match read_digits(a, 0, max) {
            Ok(n) => {
                assert(read_digits(seq![c].drop_first(), n * 10 + digit_value(c), max) == Ok::<
                    nat,
                    IntError,
                >(n * 10 + digit_value(c)));
                if !is_digit(c) {
                    assert(breaks_at(s, s.len() - 1, max, IntError::InvalidDigit));
                } else if n * 10 + digit_value(c) > max {
                    assert(breaks_at(s, s.len() - 1, max, IntError::PosOverflow));
                } else {
                    assert forall|i: int| 0 <= i < s.len() implies is_digit(#[trigger] s[i]) by {
                        if i < a.len() {
                            assert(is_digit(a[i]));
                        }
                    }
                }
            },
            Err(e) => {
                let k = choose|k: int| #[trigger] breaks_at(a, k, max, e);
                assert(s.take(k) == a.take(k));
                assert(s.take(k + 1) == a.take(k + 1));
                assert(breaks_at(s, k, max, e));
                if all_digits(s) {
                    assert forall|i: int| 0 <= i < a.len() implies is_digit(#[trigger] a[i]) by {
                        assert(is_digit(s[i]));
                    }
                }
            },
        }
    }
}

/// An unsigned number is digits, at least one, and is read as what they stand for, where that is in range.
/// A plus sign in front makes no difference to digits. An empty text has its own error, which a sign
/// alone has not.
pub proof fn law_unsigned(s: Seq<char>, max: nat)
    requires
        s.len() > 0 ==> s[0] != '+',
    ensures
        unsigned(s, max) is Ok <==> s.len() > 0 && all_digits(s) && place_value(s) <= max,
        unsigned(s, max) matches Ok(n) ==> n == place_value(s),
        unsigned(s, max) == Err::<nat, IntError>(IntError::Empty) <==> s.len() == 0,
        unsigned(s, max) matches Err(e) ==> s.len() > 0 ==> exists|k: int|
            #[trigger] breaks_at(s, k, max, e),
        s.len() > 0 ==> unsigned(seq!['+'] + s, max) == unsigned(s, max),
        unsigned(seq!['+'], max) == Err::<nat, IntError>(IntError::InvalidDigit),
{
    law_digits_are_read(s, max);
    assert((seq!['+'] + s).drop_first() == s);
}

/// One sign at most stands in front of an unsigned number.
pub proof fn law_one_sign(s: Seq<char>, max: nat)
    requires
        s.len() > 1,
        s[0] == '+',
        s[1] == '+',
    ensures
        unsigned(s, max) == Err::<nat, IntError>(IntError::InvalidDigit),
{
    assert(s.drop_first().first() == s[1]);
}

/// A minus sign leaves zero alone in the range of `u32`. Without one a number is read as an unsigned
/// number is.
pub proof fn law_signed_u32(s: Seq<char>)
    ensures
        s.len() > 0 && s[0] == '-' ==> (signed_u32(s) is Some <==> s.len() > 1 && forall|i: int|
            1 <= i < s.len() ==> #[trigger] s[i] == '0'),
        s.len() > 0 && s[0] == '-' && signed_u32(s) is Some ==> signed_u32(s) == Some(0u32),
        s.len() == 0 || s[0] != '-' ==> match unsigned(s, 0xffff_ffff) {
            Ok(n) => signed_u32(s) is Some && signed_u32(s)->0 == n,
            Err(_) => signed_u32(s) is None,
        },
{
    law_digits_are_read(s, 0xffff_ffff);
    law_digits_are_read(s.drop_first(), 0xffff_ffff);
    if s.len() > 0 && s[0] == '-' {
        let rest = s.drop_first();
        law_digits_are_read(rest, 0);
        lemma_zeros(rest);
        assert forall|i: int| 0 <= i < rest.len() implies #[trigger] rest[i] == s[i + 1] by {}
        assert forall|i: int| 1 <= i < s.len() implies #[trigger] s[i] == rest[i - 1] by {}
        if s.len() == 1 {
            assert(!is_digit(s[0]));
        }
    }
}

proof fn lemma_zeros(s: Seq<char>)
    ensures
        all_digits(s) && place_value(s) == 0 <==> forall|i: int|
            0 <= i < s.len() ==> #[trigger] s[i] == '0',
    decreases s.len(),
{
    if s.len() > 0 {
        let a = s.drop_last();
        lemma_zeros(a);
        assert(s[s.len() - 1] == s.last());
        assert forall|i: int| 0 <= i < a.len() implies #[trigger] a[i] == s[i] by {}
        if all_digits(s) && place_value(s) == 0 {
            assert(is_digit(s[s.len() - 1]));
            assert forall|i: int| 0 <= i < a.len() implies is_digit(#[trigger] a[i]) by {
                assert(is_digit(s[i]));
            }
            law_digits(s.last(), 0);
            assert(digit_value(s.last()) == 0);
            assert(s.last() == digit_char(0));
            assert(digit_char(0) == '0');
            assert forall|i: int| 0 <= i < s.len() implies #[trigger] s[i] == '0' by {
                if i < a.len() {
                    assert(a[i] == s[i]);
                }
            }
        }
        if forall|i: int| 0 <= i < s.len() ==> #[trigger] s[i] == '0' {
            assert forall|i: int| 0 <= i < a.len() implies #[trigger] a[i] == '0' by {
                assert(s[i] == '0');
            }
            assert(s[s.len() - 1] == '0');
        }
    }
}

/// Decimal digits stand for the number that they are written for, and start with a zero for zero alone.
pub proof fn law_decimal(n: nat)
    ensures
        all_digits(decimal(n)),
        place_value(decimal(n)) == n,
        decimal(n).len() > 0,
        decimal(n)[0] == '0' <==> n == 0,
        n == 0 ==> decimal(n).len() == 1,
    decreases n,
{
    lemma_decimal_digits(n);
    if n < 10 {
        let s = seq![digit_char(n)];
        assert(s.drop_last() == Seq::<char>::empty());
        assert(place_value(s.drop_last()) == 0);
    } else {
        law_decimal(n / 10);
        assert(decimal(n).drop_last() == decimal(n / 10));
        assert(decimal(n)[0] == decimal(n / 10)[0]);
    }
}

/// A negative number is written as the number without its sign, behind a minus sign. No other number has
/// one.
pub proof fn law_signed_decimal(n: int)
    ensures
        n > 0 ==> signed_decimal(-n) == seq!['-'] + signed_decimal(n),
        n >= 0 ==> all_digits(signed_decimal(n)) && place_value(signed_decimal(n)) == n,
        signed_decimal(n).len() > 0,
        signed_decimal(n)[0] == '-' <==> n < 0,
{
    if n >= 0 {
        law_decimal(n as nat);
        assert(is_digit(decimal(n as nat)[0]));
    } else {
        law_decimal((-n) as nat);
    }
}

/// The errors are written as their kinds.
pub proof fn law_int_error_texts(e: IntError)
    ensures
        e.text() == "ParseIntError { kind: Empty }"@ <==> e == IntError::Empty,
        e.text() == "ParseIntError { kind: InvalidDigit }"@ <==> e == IntError::InvalidDigit,
        e.text() == "ParseIntError { kind: PosOverflow }"@ <==> e == IntError::PosOverflow,
{
    reveal_strlit("ParseIntError { kind: Empty }");
    reveal_strlit("ParseIntError { kind: InvalidDigit }");
    reveal_strlit("ParseIntError { kind: PosOverflow }");
    assert("ParseIntError { kind: Empty }"@.len() == 29);
    assert("ParseIntError { kind: InvalidDigit }"@.len() == 36);
    assert("ParseIntError { kind: PosOverflow }"@.len() == 35);
}

} // verus!
