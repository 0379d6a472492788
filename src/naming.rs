//! Identifier helpers for the protocol model: shape names and case conversion.
use crate::text::{find_char, index_of_char, lemma_index_of_char_bounds};
use vstd::prelude::*;

verus! {

/// Whether a character has the Unicode `Uppercase` property.
pub uninterp spec fn upper_class(c: char) -> bool;

/// Whether a character is in a Unicode numeric category.
pub uninterp spec fn numeric_class(c: char) -> bool;

/// Whether a character is alphabetic or numeric in Unicode.
pub uninterp spec fn alnum_class(c: char) -> bool;

/// The first character of the Unicode lower-case mapping of a character.
pub uninterp spec fn lower_first(c: char) -> char;

/// The first character of the Unicode upper-case mapping of a character.
pub uninterp spec fn upper_first(c: char) -> char;

/// Relies on char::is_uppercase.
#[verifier::external_body]
fn is_uppercase(c: char) -> (r: bool)
    ensures
        r == upper_class(c),
{
    c.is_uppercase()
}

/// Relies on char::is_numeric.
#[verifier::external_body]
fn is_numeric(c: char) -> (r: bool)
    ensures
        r == numeric_class(c),
{
    c.is_numeric()
}

/// Relies on char::is_alphanumeric.
#[verifier::external_body]
fn is_alphanumeric(c: char) -> (r: bool)
    ensures
        r == alnum_class(c),
{
    c.is_alphanumeric()
}

/// Relies on char::to_lowercase, whose mapping always holds at least one character.
#[verifier::external_body]
fn to_lower_first(c: char) -> (r: char)
    ensures
        r == lower_first(c),
{
    c.to_lowercase().next().unwrap_or(c)
}

/// Relies on char::to_uppercase, whose mapping always holds at least one character.
#[verifier::external_body]
fn to_upper_first(c: char) -> (r: char)
    ensures
        r == upper_first(c),
{
    c.to_uppercase().next().unwrap_or(c)
}

/// Relies on String::push to append one character.
#[verifier::external_body]
fn push_char(s: &mut String, c: char)
    ensures
        final(s)@ == old(s)@.push(c),
{
    s.push(c)
}

/// Relies on String::pop to remove the last character.
#[verifier::external_body]
fn pop_char(s: &mut String) -> (r: char)
    requires
        old(s)@.len() > 0,
    ensures
        r == old(s)@.last(),
        final(s)@ == old(s)@.drop_last(),
{
    s.pop().unwrap_or(' ')
}

/// What follows the first `#` of `s`, or all of `s` when it holds none.
pub open spec fn unprefix_of(s: Seq<char>) -> Seq<char> {
    let i = index_of_char(s, '#');
    if i < s.len() {
        s.skip(i + 1)
    } else {
        s
    }
}

/// Drops the `namespace#` prefix of a shape id.
pub fn unprefix(s: &str) -> (r: String)
    ensures
        r@ == unprefix_of(s@),
{
    let n = s.unicode_len();
    let i = find_char(s, '#');
    proof {
        lemma_index_of_char_bounds(s@, '#');
    }
    if i < n {
        s.substring_char(i + 1, n).to_owned()
    } else {
        s.to_owned()
    }
}

/// The length of the current run of upper-case letters and digits, counted up to 2.
pub open spec fn next_streak(streak: nat) -> nat {
    if streak < 2 {
        streak + 1
    } else {
        2
    }
}

/// What the case conversions read of one character.
#[derive(Debug, Clone, Copy, PartialEq, Eq, Structural)]
pub struct CharCase {
    /// Upper-case or numeric.
    pub capital: bool,
    /// Alphabetic or numeric.
    pub alnum: bool,
    /// The first character of its lower-case mapping.
    pub lower: char,
    /// The first character of the upper-case mapping of `lower`.
    pub lower_upper: char,
}

/// The facts about `c` that the Unicode tables give.
pub open spec fn case_of(c: char) -> CharCase {
    CharCase {
        capital: upper_class(c) || numeric_class(c),
        alnum: alnum_class(c),
        lower: lower_first(c),
        lower_upper: upper_first(lower_first(c)),
    }
}

/// The facts about each character of `s`.
pub open spec fn cases_of(s: Seq<char>) -> Seq<CharCase> {
    s.map_values(|c: char| case_of(c))
}

/// One character of the conversion to camel case: a run of capitals keeps its
/// first letter and lowers the rest; when a run of two or more ends, its last
/// letter (lowered, given by `prev`) is raised again to start the next word.
pub open spec fn camel_step(out: Seq<char>, streak: nat, c: char, f: CharCase, prev: CharCase) -> (Seq<char>, nat) {
    if f.capital {
        (out.push(if streak == 0 { c } else { f.lower }), next_streak(streak))
    } else if streak > 1 {
        (out.drop_last().push(prev.lower_upper).push(c), 0)
    } else {
        (out.push(c), 0)
    }
}

/// The camel-case conversion of `s`, given the facts `fs` about each of its characters.
pub open spec fn camel_run(s: Seq<char>, fs: Seq<CharCase>) -> (Seq<char>, nat)
    decreases s.len(),
{
    if s.len() == 0 {
        (seq![], 0)
    } else {
        let (out, streak) = camel_run(s.drop_last(), fs.drop_last());
        let prev = if s.len() > 1 {
            fs[s.len() - 2]
        } else {
            fs[s.len() - 1]
        };
        camel_step(out, streak, s.last(), fs[s.len() - 1], prev)
    }
}

/// One character of the conversion to snake case: a capital or digit that
/// starts a run opens a new word with `_` and is lowered; any other character
/// that is not alphanumeric becomes `_`; when a run of two or more ends, its
/// last letter moves to the next word.
pub open spec fn snake_step(out: Seq<char>, streak: nat, c: char, f: CharCase) -> (Seq<char>, nat) {
    if f.capital {
        let opened = if streak == 0 && out.len() > 0 && out.last() != '_' {
            out.push('_')
        } else {
            out
        };
        (opened.push(f.lower), next_streak(streak))
    } else {
        let d = if !f.alnum {
            '_'
        } else {
            c
        };
        let split = if streak > 1 && d != '_' {
            out.drop_last().push('_').push(out.last())
        } else {
            out
        };
        (split.push(d), 0)
    }
}

/// The snake-case conversion of `s`, given the facts `fs` about each of its characters.
pub open spec fn snake_run(s: Seq<char>, fs: Seq<CharCase>) -> (Seq<char>, nat)
    decreases s.len(),
{
    if s.len() == 0 {
        (seq![], 0)
    } else {
        let (out, streak) = snake_run(s.drop_last(), fs.drop_last());
        snake_step(out, streak, s.last(), fs[s.len() - 1])
    }
}

fn char_case(c: char) -> (r: CharCase)
    ensures
        r == case_of(c),
{
    let lower = to_lower_first(c);
    CharCase {
        capital: is_uppercase(c) || is_numeric(c),
        alnum: is_alphanumeric(c),
        lower,
        lower_upper: to_upper_first(lower),
    }
}

/// The facts about each character of `s`.
pub fn char_cases(s: &str) -> (r: Vec<CharCase>)
    ensures
        r@ == cases_of(s@),
{
    let n = s.unicode_len();
    let mut out: Vec<CharCase> = Vec::new();
    let mut i: usize = 0;
    while i < n
        invariant
            n == s@.len(),
            i <= n,
            out@ =~= cases_of(s@.take(i as int)),
        decreases n - i,
    {
        out.push(char_case(s.get_char(i)));
        i = i + 1;
        assert(out@ =~= cases_of(s@.take(i as int)));
    }
    assert(s@.take(n as int) =~= s@);
    out
}

/// The camel-case conversion of `s`, given the facts about its characters.
pub fn camel_cased(s: &str, cases: &Vec<CharCase>) -> (r: String)
    requires
        cases@.len() == s@.len(),
    ensures
        r@ == camel_run(s@, cases@).0,
{
    let n = s.unicode_len();
    let mut out = String::new();
    let mut streak: u8 = 0;
    let mut i: usize = 0;
    while i < n
        invariant
            n == s@.len(),
            cases@.len() == n,
            i <= n,
            streak <= 2,
            streak <= out@.len(),
            streak <= i,
            camel_run(s@.take(i as int), cases@.take(i as int)) == (out@, streak as nat),
        decreases n - i,
    {
        assert(s@.take(i + 1).drop_last() =~= s@.take(i as int));
        assert(cases@.take(i + 1).drop_last() =~= cases@.take(i as int));
        let c = s.get_char(i);
        let f = cases[i];
        if f.capital {
            if streak == 0 {
                push_char(&mut out, c);
            } else {
                push_char(&mut out, f.lower);
            }
            if streak < 2 {
                streak = streak + 1;
            }
        } else {
            if streak > 1 {
                let _ = pop_char(&mut out);
                push_char(&mut out, cases[i - 1].lower_upper);
            }
            push_char(&mut out, c);
            streak = 0;
        }
        i = i + 1;
    }
    assert(s@.take(n as int) =~= s@);
    assert(cases@.take(n as int) =~= cases@);
    out
}

/// The snake-case conversion of `s`, given the facts about its characters.
pub fn snake_cased(s: &str, cases: &Vec<CharCase>) -> (r: String)
    requires
        cases@.len() == s@.len(),
    ensures
        r@ == snake_run(s@, cases@).0,
{
    let n = s.unicode_len();
    let mut out = String::new();
    let mut streak: u8 = 0;
    let mut i: usize = 0;
    while i < n
        invariant
            n == s@.len(),
            cases@.len() == n,
            i <= n,
            streak <= 2,
            streak <= out@.len(),
            snake_run(s@.take(i as int), cases@.take(i as int)) == (out@, streak as nat),
        decreases n - i,
    {
        assert(s@.take(i + 1).drop_last() =~= s@.take(i as int));
        assert(cases@.take(i + 1).drop_last() =~= cases@.take(i as int));
        let c = s.get_char(i);
        let f = cases[i];
        if f.capital {
            let len = out.as_str().unicode_len();
            if streak == 0 && len > 0 && out.as_str().get_char(len - 1) != '_' {
                push_char(&mut out, '_');
            }
            push_char(&mut out, f.lower);
            if streak < 2 {
                streak = streak + 1;
            }
        } else {
            let d = if !f.alnum {
                '_'
            } else {
                c
            };
            if streak > 1 && d != '_' {
                let last = pop_char(&mut out);
                push_char(&mut out, '_');
                push_char(&mut out, last);
            }
            push_char(&mut out, d);
            streak = 0;
        }
        i = i + 1;
    }
    assert(s@.take(n as int) =~= s@);
    assert(cases@.take(n as int) =~= cases@);
    out
}

/// Changes `MIXOfUPPERCaseAndCamelCase` to `MixOfUpperCaseAndCamelCase`.
pub fn camel(s: &str) -> (r: String)
    ensures
        r@ == camel_run(s@, cases_of(s@)).0,
{
    let cases = char_cases(s);
    camel_cased(s, &cases)
}

/// Changes `CamelCase` to `snake_case`.
pub fn snake(s: &str) -> (r: String)
    ensures
        r@ == snake_run(s@, cases_of(s@)).0,
{
    let cases = char_cases(s);
    snake_cased(s, &cases)
}

/// The kinds of shape in the protocol model.
#[derive(Debug, Clone, Copy, PartialEq, Eq, Structural)]
pub enum SmithyType {
    Boolean,
    Byte,
    Short,
    Integer,
    Long,
    Float,
    Double,
    BigInteger,
    BigDecimal,
    Blob,
    String,
    Timestamp,
    Document,
    Member,
    List,
    /// The `set` shape.
    SetOf,
    /// The `map` shape.
    MapOf,
    Structure,
    Union,
    Service,
    Operation,
    Resource,
}

impl SmithyType {
    /// Blobs and the numeric and boolean shapes always carry a value.
    pub open spec fn spec_always_required(&self) -> bool {
        match self {
            SmithyType::Blob | SmithyType::Boolean | SmithyType::Byte | SmithyType::Short
            | SmithyType::Integer | SmithyType::Long | SmithyType::Float | SmithyType::Double
            | SmithyType::BigInteger | SmithyType::BigDecimal => true,
            _ => false,
        }
    }

    pub fn is_always_required(&self) -> (r: bool)
        ensures
            r == self.spec_always_required(),
    {
        match self {
            SmithyType::Blob | SmithyType::Boolean | SmithyType::Byte | SmithyType::Short
            | SmithyType::Integer | SmithyType::Long | SmithyType::Float | SmithyType::Double
            | SmithyType::BigInteger | SmithyType::BigDecimal => true,
            _ => false,
        }
    }
}

} // verus!
