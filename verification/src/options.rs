//! Option strings: words such as `-r 1920x1080 --codec hevc`, and the table of options that they
//! are matched against.
use std::str::FromStr;
use clap::builder::{ValueParser, ValueParserFactory};
use clap::{Arg, ArgMatches, Command};
use vstd::prelude::*;
use crate::rate::{is_rate, Rate};
use crate::text::{
    law_replaced, law_words_append, replace_first, replaced, signed_u32, stands_at, texts, unsigned,
    words_of,
};
use crate::Resolution;

verus! {

/// What an option takes.
#[derive(Debug)]
pub enum ValueKind {
    /// A number of 32 bits.
    Number,
    /// A number of 64 bits.
    Long,
    /// A floating point value.
    Rate,
    /// A width and a height.
    Resolution,
    /// The word `true` or the word `false`.
    Flag,
    /// One of these words.
    Words(Vec<&'static str>),
}

/// What an option takes, with its texts.
pub enum ValueShape {
    Number,
    Long,
    Rate,
    Resolution,
    Flag,
    Words(Seq<Seq<char>>),
}

/// The texts of a list of words.
pub open spec fn names(v: Seq<&'static str>) -> Seq<Seq<char>> {
    v.map_values(|s: &'static str| s@)
}

impl View for ValueKind {
    type V = ValueShape;

    open spec fn view(&self) -> ValueShape {
        match self {
            ValueKind::Number => ValueShape::Number,
            ValueKind::Long => ValueShape::Long,
            ValueKind::Rate => ValueShape::Rate,
            ValueKind::Resolution => ValueShape::Resolution,
            ValueKind::Flag => ValueShape::Flag,
            ValueKind::Words(v) => ValueShape::Words(names(v@)),
        }
    }
}

/// The text `s` is a value of this kind.
pub open spec fn accepts(kind: ValueShape, s: Seq<char>) -> bool {
    match kind {
        ValueShape::Number => signed_u32(s) is Some,
        ValueShape::Long => unsigned(s, u64::MAX as nat) is Ok,
        ValueShape::Rate => is_rate(s),
        ValueShape::Resolution => Resolution::of(s) is Ok,
        ValueShape::Flag => s == "true"@ || s == "false"@,
        ValueShape::Words(words) => words.contains(s),
    }
}

/// One option of a table.
#[derive(Debug)]
pub struct OptionSpec {
    /// The name behind two hyphens.
    pub long: &'static str,
    /// The letter behind one hyphen.
    pub short: Option<char>,
    /// What stands for the value in a message.
    pub value_name: &'static str,
    /// What the option is for.
    pub help: Option<&'static str>,
    /// What the option takes.
    pub kind: ValueKind,
    /// The least number of values that follow the option. The largest is one.
    pub min_values: usize,
    /// The value of an option that stands without one.
    pub missing: Option<&'static str>,
    /// The value of an option that is left out.
    pub default_value: Option<&'static str>,
}

/// An option of a table with its texts.
pub struct OptionShape {
    pub long: Seq<char>,
    pub short: Option<char>,
    pub value_name: Seq<char>,
    pub help: Option<Seq<char>>,
    pub kind: ValueShape,
    pub min_values: usize,
    pub missing: Option<Seq<char>>,
    pub default_value: Option<Seq<char>>,
}

/// The text of a value that may be left out.
pub open spec fn given(s: Option<&'static str>) -> Option<Seq<char>> {
    match s {
        Some(t) => Some(t@),
        None => None,
    }
}

impl View for OptionSpec {
    type V = OptionShape;

    open spec fn view(&self) -> OptionShape {
        OptionShape {
            long: self.long@,
            short: self.short,
            value_name: self.value_name@,
            help: given(self.help),
            kind: self.kind@,
            min_values: self.min_values,
            missing: given(self.missing),
            default_value: given(self.default_value),
        }
    }
}

impl OptionSpec {
    /// An option that takes one value.
    pub fn new(
        long: &'static str,
        short: Option<char>,
        value_name: &'static str,
        help: Option<&'static str>,
        kind: ValueKind,
        default_value: Option<&'static str>,
    ) -> (r: OptionSpec)
        ensures
            r@ == valued(long@, short, value_name@, given(help), kind@, given(default_value)),
    {
        OptionSpec {
            long,
            short,
            value_name,
            help,
            kind,
            min_values: 1,
            missing: None,
            default_value,
        }
    }
}

/// The shape of an option that takes one value.
pub open spec fn valued(
    long: Seq<char>,
    short: Option<char>,
    value_name: Seq<char>,
    help: Option<Seq<char>>,
    kind: ValueShape,
    default_value: Option<Seq<char>>,
) -> OptionShape {
    OptionShape { long, short, value_name, help, kind, min_values: 1, missing: None, default_value }
}

/// The shapes of the options of a table.
pub open spec fn shapes(table: Seq<OptionSpec>) -> Seq<OptionShape> {
    table.map_values(|o: OptionSpec| o@)
}

/// An option that can be told from `--help`, `-h`, `--version` and `-V`, that has a value wherever it stands, and that
/// takes the values it has by itself.
pub open spec fn is_option(o: OptionShape) -> bool {
    &&& o.long.len() > 0
    &&& o.long[0] != '-'
    &&& o.long != "help"@
    &&& o.long != "version"@
    &&& o.short != Some('h')
    &&& o.short != Some('V')
    &&& o.short != Some('-')
    &&& o.min_values <= 1
    &&& o.min_values == 0 ==> o.missing is Some
    &&& o.missing matches Some(s) ==> accepts(o.kind, s)
    &&& o.default_value matches Some(s) ==> accepts(o.kind, s)
}

/// A table of options in which each has a name and a letter of its own.
pub open spec fn is_table(table: Seq<OptionShape>) -> bool {
    &&& forall|i: int| 0 <= i < table.len() ==> is_option(#[trigger] table[i])
    &&& forall|i: int, j: int|
        #![trigger table[i], table[j]]
        0 <= i < j < table.len() ==> table[i].long != table[j].long && (table[i].short is Some
            ==> table[i].short != table[j].short)
}

/// What `clap` found, by the names of the options.
#[verifier::external_type_specification]
#[verifier::external_body]
pub struct ExArgMatches(ArgMatches);

/// The text of each option that has a value, by the name of the option.
pub uninterp spec fn held(m: ArgMatches) -> Map<Seq<char>, Seq<char>>;

/// What `clap` makes of `words` by a command named `program` of this version with the options of
/// `table`: the text of each option that has a value, or the text of the error.
pub uninterp spec fn matched(
    program: Seq<char>,
    version: Seq<char>,
    table: Seq<OptionShape>,
    words: Seq<Seq<char>>,
) -> Result<Map<Seq<char>, Seq<char>>, Seq<char>>;

/// The texts of what `clap` returned.
pub open spec fn outcome(r: Result<ArgMatches, String>) -> Result<
    Map<Seq<char>, Seq<char>>,
    Seq<char>,
> {
    match r {
        Ok(m) => Ok(held(m)),
        Err(e) => Err(e@),
    }
}

/// Each option with a default has a value, and every value is one that its option takes.
pub open spec fn suits(m: Map<Seq<char>, Seq<char>>, table: Seq<OptionShape>) -> bool {
    forall|i: int|
        0 <= i < table.len() ==> {
            let o = #[trigger] table[i];
            &&& o.default_value is Some ==> m.contains_key(o.long)
            &&& m.contains_key(o.long) ==> accepts(o.kind, m[o.long])
        }
}

/// Each option of the table has its text in `m`, or none.
pub open spec fn selected(m: Map<Seq<char>, Seq<char>>, table: Seq<OptionShape>) -> Seq<
    Option<Seq<char>>,
> {
    table.map_values(
        |o: OptionShape|
            if m.contains_key(o.long) {
                Some(m[o.long])
            } else {
                None
            },
    )
}

/// The defaults of the options of a table.
pub open spec fn defaults(table: Seq<OptionShape>) -> Seq<Option<Seq<char>>> {
    table.map_values(|o: OptionShape| o.default_value)
}

/// Calls `clap::Command::try_get_matches_from` for a command with the options of `table`. The result
/// is a function of the arguments alone. An option with a default has a value. Every value is one
/// that the value parser of its option takes: the parsers of `u32` and `u64` take what stands for
/// such a number, the parser of `bool` takes `true` and `false`, the parser of possible values takes one
/// of its words, and a function is a parser that takes what it reads. Where there are no words each option has its default, or no value. The
/// options have names and letters of their own, and defaults that they take, because `clap` panics
/// where they do not.
#[verifier::external_body]
fn match_words(
    program: &'static str,
    version: &'static str,
    table: &Vec<OptionSpec>,
    words: &Vec<String>,
) -> (r: Result<ArgMatches, String>)
    requires
        is_table(shapes(table@)),
    ensures
        outcome(r) == matched(program@, version@, shapes(table@), texts(words@)),
        r matches Ok(m) ==> suits(held(m), shapes(table@)),
        words@.len() == 0 ==> r is Ok && selected(held(r->Ok_0), shapes(table@)) == defaults(
            shapes(table@),
        ),
{
    Command::new(program).version(version).no_binary_name(true).args(table.iter().map(|o|
        Arg::new(o.long).long(o.long).short(o.short).value_name(o.value_name).help(o.help)
            .num_args(o.min_values..=1).default_missing_value(o.missing)
            .default_value(o.default_value).value_parser(match &o.kind {
                ValueKind::Flag => ValueParser::bool(),
                ValueKind::Number => u32::value_parser().into(),
                ValueKind::Long => u64::value_parser().into(),
                ValueKind::Rate => Rate::parse.into(),
                ValueKind::Resolution => Resolution::from_str.into(),
                ValueKind::Words(names) => names.clone().into(),
            }),
    )).try_get_matches_from(words).map_err(|e| format!("{:?}", e))
}

/// Calls `clap::ArgMatches::try_get_raw`: the text of the option named `long`, if it has one.
#[verifier::external_body]
fn raw_value(m: &ArgMatches, long: &str) -> (r: Option<String>)
    ensures
        r is Some <==> held(*m).contains_key(long@),
        r matches Some(s) ==> s@ == held(*m)[long@],
{
    let value = m.try_get_raw(long).ok().flatten().and_then(|mut v| v.next());
    value.map(|s| s.to_string_lossy().into_owned())
}

/// The texts of the values of the options, in the order of the table.
pub open spec fn values(v: Seq<Option<String>>) -> Seq<Option<Seq<char>>> {
    v.map_values(
        |s: Option<String>|
            match s {
                Some(t) => Some(t@),
                None => None,
            },
    )
}

/// `v` has a value for each option with a default, and no value that its option does not take.
pub open spec fn valid(v: Seq<Option<Seq<char>>>, table: Seq<OptionShape>) -> bool {
    &&& v.len() == table.len()
    &&& forall|i: int|
        0 <= i < v.len() ==> {
            &&& table[i].default_value is Some ==> #[trigger] v[i] is Some
            &&& v[i] matches Some(s) ==> accepts(table[i].kind, s)
        }
}

/// An error of `clap` with the reason of a rate that cannot be read written as the error of a floating
/// point value, not as a message.
pub open spec fn with_rate_reason(e: Seq<char>) -> Seq<char> {
    replaced(
        replaced(
            e,
            "source: Some(\"invalid float literal\")"@,
            "source: Some(ParseFloatError { kind: Invalid })"@,
        ),
        "source: Some(\"cannot parse float from empty string\")"@,
        "source: Some(ParseFloatError { kind: Empty })"@,
    )
}

fn write_rate_reason(e: &str) -> (r: String)
    ensures
        r@ == with_rate_reason(e@),
{
    let invalid = replace_first(
        e,
        "source: Some(\"invalid float literal\")",
        "source: Some(ParseFloatError { kind: Invalid })",
    );
    replace_first(
        invalid.as_str(),
        "source: Some(\"cannot parse float from empty string\")",
        "source: Some(ParseFloatError { kind: Empty })",
    )
}

/// What the option string `s` says of the options of `table`.
pub open spec fn option_values(table: Seq<OptionShape>, s: Seq<char>) -> Result<
    Seq<Option<Seq<char>>>,
    Seq<char>,
> {
    match matched("rhinostream"@, "0.1.0"@, table, crate::text::words(s)) {
        Ok(m) => Ok(selected(m, table)),
        Err(e) => Err(with_rate_reason(e)),
    }
}

/// How many blanks stand between two parts of an option string makes no difference to what it says.
pub proof fn law_blanks_do_not_matter(table: Seq<OptionShape>, a: Seq<char>, b: Seq<char>)
    ensures
        option_values(table, a.push(' ') + (seq![' '] + b)) == option_values(table, a.push(' ') + b),
{
    law_words_append(a, b);
}

/// Reads the option string `s` by the options of `table`.
pub fn read_options(table: &Vec<OptionSpec>, s: &str) -> (r: Result<Vec<Option<String>>, String>)
    requires
        is_table(shapes(table@)),
    ensures
        match r {
            Ok(v) => option_values(shapes(table@), s@) == Ok::<Seq<Option<Seq<char>>>, Seq<char>>(
                values(v@),
            ) && valid(values(v@), shapes(table@)),
            Err(e) => option_values(shapes(table@), s@) == Err::<
                Seq<Option<Seq<char>>>,
                Seq<char>,
            >(e@),
        },
        crate::text::is_blank(s@) ==> r is Ok && values(r->Ok_0@) == defaults(shapes(table@)),
{
    let words = words_of(s);
    proof {
        if crate::text::is_blank(s@) {
            crate::text::lemma_blank_has_no_words(s@);
            assert(words@.len() == texts(words@).len());
        }
    }
    let m = match match_words("rhinostream", "0.1.0", table, &words) {
        Ok(m) => m,
        Err(e) => {
            return Err(write_rate_reason(e.as_str()));
        },
    };
    let ghost all = shapes(table@);
    let mut found: Vec<Option<String>> = Vec::new();
    let mut i: usize = 0;
    while i < table.len()
        invariant
            i <= table@.len(),
            all == shapes(table@),
            found@.len() == i,
            suits(held(m), all),
            forall|k: int|
                0 <= k < i ==> #[trigger] values(found@)[k] == selected(held(m), all)[k],
        decreases table@.len() - i,
    {
        let value = raw_value(&m, table[i].long);
        let ghost before = found@;
        found.push(value);
        proof {
            assert(all[i as int].long == table@[i as int].long@);
            assert forall|k: int| 0 <= k < i + 1 implies #[trigger] values(found@)[k] == selected(
                held(m),
                all,
            )[k] by {
                if k < i {
                    assert(values(before)[k] == selected(held(m), all)[k]);
                }
            }
        }
        i = i + 1;
    }
    proof {
        assert(values(found@) == selected(held(m), all));
        assert forall|k: int| 0 <= k < all.len() implies {
            &&& all[k].default_value is Some ==> #[trigger] values(found@)[k] is Some
            &&& values(found@)[k] matches Some(t) ==> accepts(all[k].kind, t)
        } by {
            let o = all[k];
        }
    }
    Ok(found)
}

/// The value of option `i`, which has one.
pub fn value_at(v: &Vec<Option<String>>, i: usize) -> (r: &str)
    requires
        i < v@.len(),
        values(v@)[i as int] is Some,
    ensures
        Some(r@) == values(v@)[i as int],
{
    match &v[i] {
        Some(s) => s.as_str(),
        None => "",
    }
}

/// What a kind of value takes: numbers that fit, rates, resolutions, the two words of a flag, and the words of
/// a list.
pub proof fn law_accepts(kind: ValueShape, s: Seq<char>)
    ensures
        kind is Number ==> (accepts(kind, s) <==> signed_u32(s) is Some),
        kind is Long ==> (accepts(kind, s) <==> unsigned(s, 0xffff_ffff_ffff_ffff) is Ok),
        kind is Rate ==> (accepts(kind, s) <==> is_rate(s)),
        kind is Resolution ==> (accepts(kind, s) <==> Resolution::of(s) is Ok),
        kind is Flag ==> (accepts(kind, s) <==> s == "true"@ || s == "false"@),
        kind matches ValueShape::Words(words) ==> (accepts(kind, s) <==> exists|i: int|
            0 <= i < words.len() && #[trigger] words[i] == s),
{
}

/// An option string gives each option of the table its value, in the order of the table, as far as `clap`
/// found one for its name among the words of the string.
pub proof fn law_option_values(table: Seq<OptionShape>, s: Seq<char>)
    ensures
        match matched("rhinostream"@, "0.1.0"@, table, crate::text::words(s)) {
            Ok(m) => {
                let r = option_values(table, s);
                &&& r is Ok
                &&& r->Ok_0.len() == table.len()
                &&& forall|i: int|
                    0 <= i < table.len() ==> {
                        &&& #[trigger] r->Ok_0[i] is Some <==> m.contains_key(table[i].long)
                        &&& r->Ok_0[i] matches Some(v) ==> v == m[table[i].long]
                    }
            },
            Err(e) => option_values(table, s) is Err && option_values(table, s)->Err_0
                == with_rate_reason(e),
        },
{
}

/// The defaults of a table are those of its options.
pub proof fn law_defaults(table: Seq<OptionShape>, i: int)
    requires
        0 <= i < table.len(),
    ensures
        defaults(table).len() == table.len(),
        defaults(table)[i] == table[i].default_value,
{
}

/// An option that takes one value takes no fewer, and keeps what it is made of.
pub proof fn law_valued(
    long: Seq<char>,
    short: Option<char>,
    value_name: Seq<char>,
    help: Option<Seq<char>>,
    kind: ValueShape,
    default_value: Option<Seq<char>>,
)
    ensures
        ({
            let o = valued(long, short, value_name, help, kind, default_value);
            &&& o.long == long
            &&& o.short == short
            &&& o.value_name == value_name
            &&& o.help == help
            &&& o.kind == kind
            &&& o.default_value == default_value
            &&& o.min_values == 1
            &&& o.missing is None
        }),
{
}

/// Values fit a table where there is one for each option, none that its option does not take, and none
/// missing that has a default.
pub proof fn law_valid(v: Seq<Option<Seq<char>>>, table: Seq<OptionShape>, i: int)
    requires
        valid(v, table),
        0 <= i < table.len(),
    ensures
        v.len() == table.len(),
        table[i].default_value is Some ==> v[i] is Some,
        v[i] matches Some(s) ==> accepts(table[i].kind, s),
{
    assert(v[i] is Some || v[i] is None);
}

/// An error that gives no reason for a rate stays as it is. The reason is written anew where it stands first,
/// and what stands before it and behind it stays.
pub proof fn law_rate_reason(e: Seq<char>, at: int)
    ensures
        ({
            let invalid = "source: Some(\"invalid float literal\")"@;
            let empty = "source: Some(\"cannot parse float from empty string\")"@;
            let now_invalid = "source: Some(ParseFloatError { kind: Invalid })"@;
            let now_empty = "source: Some(ParseFloatError { kind: Empty })"@;
            let none_invalid = forall|i: int| !#[trigger] stands_at(e, invalid, i);
            let none_empty = forall|i: int| !#[trigger] stands_at(e, empty, i);
            let changed = e.take(at) + now_invalid + e.skip(at + invalid.len());
            &&& none_invalid && none_empty ==> with_rate_reason(e) == e
            &&& none_invalid && stands_at(e, empty, at) && (forall|i: int|
                0 <= i < at ==> !#[trigger] stands_at(e, empty, i)) ==> with_rate_reason(e)
                == e.take(at) + now_empty + e.skip(at + empty.len())
            &&& stands_at(e, invalid, at) && (forall|i: int|
                0 <= i < at ==> !#[trigger] stands_at(e, invalid, i)) && (forall|i: int|
                !#[trigger] stands_at(changed, empty, i)) ==> with_rate_reason(e) == changed
        }),
{
    let invalid = "source: Some(\"invalid float literal\")"@;
    let empty = "source: Some(\"cannot parse float from empty string\")"@;
    let now_invalid = "source: Some(ParseFloatError { kind: Invalid })"@;
    let now_empty = "source: Some(ParseFloatError { kind: Empty })"@;
    law_replaced(e, invalid, now_invalid, at);
    law_replaced(e, empty, now_empty, at);
    law_replaced(replaced(e, invalid, now_invalid), empty, now_empty, at);
}

/// The shape of an option has the texts of the option, and all else as it is.
pub proof fn law_option_shape(o: OptionSpec)
    ensures
        o@.long == o.long@,
        o@.short == o.short,
        o@.value_name == o.value_name@,
        o@.min_values == o.min_values,
        o@.kind == o.kind@,
        o.help is None <==> o@.help is None,
        o.help matches Some(s) ==> o@.help == Some(s@),
        o.missing is None <==> o@.missing is None,
        o.missing matches Some(s) ==> o@.missing == Some(s@),
        o.default_value is None <==> o@.default_value is None,
        o.default_value matches Some(s) ==> o@.default_value == Some(s@),
        o@.kind is Number <==> o.kind is Number,
        o@.kind is Long <==> o.kind is Long,
        o@.kind is Rate <==> o.kind is Rate,
        o@.kind is Resolution <==> o.kind is Resolution,
        o@.kind is Flag <==> o.kind is Flag,
        o.kind matches ValueKind::Words(words) ==> o@.kind == ValueShape::Words(names(words@)),
{
}

/// Lists are seen item by item: as many texts as there are items, each that of its item.
pub proof fn law_lists_item_by_item(
    found: Seq<Option<String>>,
    table: Seq<OptionSpec>,
    words: Seq<&'static str>,
    list: Seq<String>,
)
    ensures
        values(found).len() == found.len(),
        forall|i: int|
            0 <= i < found.len() ==> {
                &&& #[trigger] values(found)[i] is Some <==> found[i] is Some
                &&& found[i] matches Some(s) ==> values(found)[i] == Some(s@)
            },
        shapes(table).len() == table.len(),
        forall|i: int| 0 <= i < table.len() ==> #[trigger] shapes(table)[i] == table[i]@,
        names(words).len() == words.len(),
        forall|i: int| 0 <= i < words.len() ==> #[trigger] names(words)[i] == words[i]@,
        texts(list).len() == list.len(),
        forall|i: int| 0 <= i < list.len() ==> #[trigger] texts(list)[i] == list[i]@,
{
}

} // verus!
