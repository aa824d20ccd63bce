//! Text primitives: comparison, prefixes, trimming and decimal numerals.

use vstd::prelude::*;
use vstd::string::*;

verus! {

/// The texts held by a list of strings, in order.
pub open spec fn texts(strings: Seq<String>) -> Seq<Seq<char>> {
    strings.map_values(|s: String| s@)
}

/// The text held by an optional string.
pub open spec fn text_of(string: Option<String>) -> Option<Seq<char>> {
    match string {
        Some(s) => Some(s@),
        None => None,
    }
}

/// Whether the first character of `s` is `c`.
pub open spec fn begins_with(s: Seq<char>, c: char) -> bool {
    s.len() > 0 && s[0] == c
}

/// The characters that Unicode lists as `White_Space`.
pub open spec fn is_white_space(c: char) -> bool {
    ||| '\u{9}' <= c <= '\u{d}'
    ||| c == ' '
    ||| c == '\u{85}'
    ||| c == '\u{a0}'
    ||| c == '\u{1680}'
    ||| '\u{2000}' <= c <= '\u{200a}'
    ||| c == '\u{2028}'
    ||| c == '\u{2029}'
    ||| c == '\u{202f}'
    ||| c == '\u{205f}'
    ||| c == '\u{3000}'
}

/// `s` without its leading white space.
pub open spec fn without_leading(s: Seq<char>) -> Seq<char>
    decreases s.len(),
{
    if s.len() > 0 && is_white_space(s.first()) {
        without_leading(s.drop_first())
    } else {
        s
    }
}

/// `s` without its trailing white space.
pub open spec fn without_trailing(s: Seq<char>) -> Seq<char>
    decreases s.len(),
{
    if s.len() > 0 && is_white_space(s.last()) {
        without_trailing(s.drop_last())
    } else {
        s
    }
}

/// `s` without white space at either end.
pub open spec fn trimmed(s: Seq<char>) -> Seq<char> {
    without_trailing(without_leading(s))
}

/// The numeral of a digit.
pub open spec fn digit(d: nat) -> Seq<char> {
    if d == 0 {
        "0"@
    } else if d == 1 {
        "1"@
    } else if d == 2 {
        "2"@
    } else if d == 3 {
        "3"@
    } else if d == 4 {
        "4"@
    } else if d == 5 {
        "5"@
    } else if d == 6 {
        "6"@
    } else if d == 7 {
        "7"@
    } else if d == 8 {
        "8"@
    } else {
        "9"@
    }
}

/// The decimal numeral of `n`.
pub open spec fn decimal(n: nat) -> Seq<char>
    decreases n,
{
    if n < 10 {
        digit(n)
    } else {
        decimal(n / 10) + digit(n % 10)
    }
}

/// Whether two strings hold the same text.
pub fn same_text(a: &str, b: &str) -> (same: bool)
    ensures
        same == (a@ == b@),
{
    a.to_string() == b.to_string()
}

/// Whether some string of the list is `wanted`.
pub fn any_is(strings: &Vec<String>, wanted: &str) -> (found: bool)
    ensures
        found == texts(strings@).contains(wanted@),
{
    let mut i: usize = 0;
    while i < strings.len()
        invariant
            i <= strings@.len(),
            forall|j: int| 0 <= j < i ==> (#[trigger] strings@[j])@ != wanted@,
        decreases strings@.len() - i,
    {
        if same_text(strings[i].as_str(), wanted) {
            proof {
                assert(texts(strings@)[i as int] == wanted@);
            }
            return true;
        }
        i = i + 1;
    }
    proof {
        assert forall|j: int| 0 <= j < strings@.len() implies texts(strings@)[j] != wanted@ by {
            assert(strings@[j]@ != wanted@);
        }
    }
    false
}

/// The characters of a string.
fn characters(s: &str) -> (characters: Vec<char>)
    ensures
        characters@ == s@,
{
    let mut characters: Vec<char> = Vec::new();
    for c in it: s.chars()
        invariant
            it.seq() == s@,
            characters@ == s@.take(it.index() as int),
    {
        characters.push(c);
    }
    proof {
        assert(s@.take(s@.len() as int) =~= s@);
    }
    characters
}

/// Whether the first character of `s` is `c`.
pub fn starts_with_char(s: &str, c: char) -> (starts: bool)
    ensures
        starts == begins_with(s@, c),
{
    !s.is_empty() && s.get_char(0) == c
}

/// What follows `prefix` in `s`, if `s` begins with it.
pub fn strip_prefix(s: &str, prefix: &str) -> (rest: Option<String>)
    ensures
        rest is Some <==> prefix@.is_prefix_of(s@),
        rest is Some ==> rest->0@ == s@.skip(prefix@.len() as int),
{
    let whole: Vec<char> = characters(s);
    let head: Vec<char> = characters(prefix);
    if head.len() > whole.len() {
        return None;
    }
    let mut i: usize = 0;
    while i < head.len()
        invariant
            i <= head@.len() <= whole@.len(),
            whole@ == s@,
            head@ == prefix@,
            forall|j: int| 0 <= j < i ==> s@[j] == prefix@[j],
        decreases head@.len() - i,
    {
        if whole[i] != head[i] {
            proof {
                assert(s@.subrange(0, prefix@.len() as int)[i as int] == s@[i as int]);
            }
            return None;
        }
        i = i + 1;
    }
    proof {
        assert(s@.subrange(0, prefix@.len() as int) =~= prefix@);
        assert(s@.subrange(prefix@.len() as int, s@.len() as int) =~= s@.skip(prefix@.len() as int));
    }
    Some(s.substring_char(head.len(), whole.len()).to_string())
}

/// Whether `c` is white space.
pub fn white_space(c: char) -> (white: bool)
    ensures
        white == is_white_space(c),
{
    ('\u{9}' <= c && c <= '\u{d}') || c == ' ' || c == '\u{85}' || c == '\u{a0}' || c == '\u{1680}'
        || ('\u{2000}' <= c && c <= '\u{200a}') || c == '\u{2028}' || c == '\u{2029}' || c
        == '\u{202f}' || c == '\u{205f}' || c == '\u{3000}'
}

/// `s` without white space at either end.
pub fn trim(s: &str) -> (inner: String)
    ensures
        inner@ == trimmed(s@),
{
    let all: Vec<char> = characters(s);
    let mut from: usize = 0;
    proof {
        assert(s@.skip(0) =~= s@);
    }
    while from < all.len() && white_space(all[from])
        invariant
            from <= all@.len(),
            all@ == s@,
            without_leading(s@) == without_leading(s@.skip(from as int)),
        decreases all@.len() - from,
    {
        proof {
            assert(s@.skip(from as int).drop_first() =~= s@.skip(from + 1));
        }
        from = from + 1;
    }
    let ghost rest = s@.skip(from as int);
    proof {
        assert(without_leading(s@) == rest);
    }
    let mut to: usize = all.len();
    proof {
        assert(s@.subrange(from as int, to as int) =~= rest);
    }
    while to > from && white_space(all[to - 1])
        invariant
            from <= to <= all@.len(),
            all@ == s@,
            without_trailing(rest) == without_trailing(s@.subrange(from as int, to as int)),
        decreases to,
    {
        proof {
            assert(s@.subrange(from as int, to as int).drop_last() =~= s@.subrange(
                from as int,
                to - 1,
            ));
        }
        to = to - 1;
    }
    s.substring_char(from, to).to_string()
}

/// The numeral of a digit.
fn digit_text(d: u64) -> (numeral: &'static str)
    requires
        d < 10,
    ensures
        numeral@ == digit(d as nat),
{
    match d {
        0 => "0",
        1 => "1",
        2 => "2",
        3 => "3",
        4 => "4",
        5 => "5",
        6 => "6",
        7 => "7",
        8 => "8",
        _ => "9",
    }
}

/// The decimal numeral of `n`.
pub fn decimal_text(n: u64) -> (numeral: String)
    ensures
        numeral@ == decimal(n as nat),
    decreases n,
{
    if n < 10 {
        digit_text(n).to_string()
    } else {
        decimal_text(n / 10).concat(digit_text(n % 10))
    }
}

/// Trimming leaves nothing to trim: what remains is empty, or begins and ends with a
/// character that is not white space.
pub proof fn trimmed_has_bare_ends(s: Seq<char>)
    ensures
        trimmed(s).len() == 0 || (!is_white_space(trimmed(s).first()) && !is_white_space(
            trimmed(s).last(),
        )),
{
    let t = without_leading(s);
    leading_is_bare(s);
    trailing_is_bare(t);
}

proof fn leading_is_bare(s: Seq<char>)
    ensures
        without_leading(s).len() == 0 || !is_white_space(without_leading(s).first()),
    decreases s.len(),
{
    if s.len() > 0 && is_white_space(s.first()) {
        leading_is_bare(s.drop_first());
    }
}

proof fn trailing_is_bare(s: Seq<char>)
    ensures
        without_trailing(s).len() == 0 || !is_white_space(without_trailing(s).last()),
        without_trailing(s).len() > 0 ==> without_trailing(s).first() == s.first(),
    decreases s.len(),
{
    if s.len() > 0 && is_white_space(s.last()) {
        trailing_is_bare(s.drop_last());
    }
}

/// Whether `s` holds nothing but white space.
pub open spec fn is_blank(s: Seq<char>) -> bool {
    forall|i: int| 0 <= i < s.len() ==> is_white_space(#[trigger] s[i])
}

/// The number that a row of digits stands for, by place value.
pub open spec fn numeral_value(s: Seq<char>) -> int
    decreases s.len(),
{
    if s.len() == 0 {
        0
    } else {
        10 * numeral_value(s.drop_last()) + (s.last() as int - '0' as int)
    }
}

proof fn leading_blanks_go(blank: Seq<char>, rest: Seq<char>)
    requires
        is_blank(blank),
    ensures
        without_leading(blank + rest) == without_leading(rest),
    decreases blank.len(),
{
    if blank.len() == 0 {
        assert(blank + rest =~= rest);
    } else {
        assert((blank + rest).drop_first() =~= blank.drop_first() + rest);
        assert((blank + rest).first() == blank[0]);
        leading_blanks_go(blank.drop_first(), rest);
    }
}

proof fn trailing_blanks_go(rest: Seq<char>, blank: Seq<char>)
    requires
        is_blank(blank),
    ensures
        without_trailing(rest + blank) == without_trailing(rest),
    decreases blank.len(),
{
    if blank.len() == 0 {
        assert(rest + blank =~= rest);
    } else {
        assert((rest + blank).drop_last() =~= rest + blank.drop_last());
        assert((rest + blank).last() == blank[blank.len() - 1]);
        trailing_blanks_go(rest, blank.drop_last());
    }
}

/// Trimming takes off exactly the white space around a text: whatever stands between two runs of
/// white space, and neither begins nor ends with any, comes out whole.
pub proof fn trimming_keeps_the_inside(before: Seq<char>, inside: Seq<char>, after: Seq<char>)
    requires
        is_blank(before),
        is_blank(after),
        inside.len() > 0 ==> !is_white_space(inside[0]) && !is_white_space(
            inside[inside.len() - 1],
        ),
    ensures
        trimmed(before + inside + after) == inside,
{
    assert(before + inside + after =~= before + (inside + after));
    leading_blanks_go(before, inside + after);
    if inside.len() == 0 {
        assert(inside + after =~= after + inside);
        leading_blanks_go(after, inside);
        assert(without_leading(inside) =~= inside);
        assert(without_trailing(inside) =~= inside);
    } else {
        assert((inside + after).first() == inside[0]);
        trailing_blanks_go(inside, after);
    }
}

/// A trimmed text stands in the text as one piece, with nothing but white space before and
/// after it.
pub proof fn trimmed_is_surrounded_by_white_space(s: Seq<char>) -> (around: (Seq<char>, Seq<char>))
    ensures
        s == around.0 + trimmed(s) + around.1,
        is_blank(around.0),
        is_blank(around.1),
{
    let before = leading_of(s);
    let after = trailing_of(without_leading(s));
    assert(s =~= before + trimmed(s) + after);
    (before, after)
}

proof fn leading_of(s: Seq<char>) -> (before: Seq<char>)
    ensures
        is_blank(before),
        s == before + without_leading(s),
    decreases s.len(),
{
    if s.len() > 0 && is_white_space(s.first()) {
        let rest = leading_of(s.drop_first());
        let before = seq![s.first()] + rest;
        assert(s =~= seq![s.first()] + s.drop_first());
        assert(seq![s.first()] + (rest + without_leading(s)) =~= before + without_leading(s));
        assert forall|i: int| 0 <= i < before.len() implies is_white_space(#[trigger] before[i]) by {
            if i > 0 {
                assert(before[i] == rest[i - 1]);
            }
        }
        before
    } else {
        assert(s =~= Seq::<char>::empty() + s);
        Seq::empty()
    }
}

proof fn trailing_of(s: Seq<char>) -> (after: Seq<char>)
    ensures
        is_blank(after),
        s == without_trailing(s) + after,
    decreases s.len(),
{
    if s.len() > 0 && is_white_space(s.last()) {
        let rest = trailing_of(s.drop_last());
        let after = rest.push(s.last());
        assert(s =~= s.drop_last().push(s.last()));
        assert((without_trailing(s) + rest).push(s.last()) =~= without_trailing(s) + after);
        after
    } else {
        assert(s =~= s + Seq::<char>::empty());
        Seq::empty()
    }
}

proof fn digits_are_one_character(d: nat)
    requires
        d < 10,
    ensures
        digit(d).len() == 1,
        digit(d)[0] as int == '0' as int + d,
{
    reveal_strlit("0");
    reveal_strlit("1");
    reveal_strlit("2");
    reveal_strlit("3");
    reveal_strlit("4");
    reveal_strlit("5");
    reveal_strlit("6");
    reveal_strlit("7");
    reveal_strlit("8");
    reveal_strlit("9");
}

/// A numeral is made of digits alone, has no needless zero in front, and stands by place value for
/// the number that it was made of.
pub proof fn numerals_stand_for_their_number(n: nat)
    ensures
        decimal(n).len() > 0,
        forall|i: int| 0 <= i < decimal(n).len() ==> '0' <= #[trigger] decimal(n)[i] <= '9',
        decimal(n).len() > 1 ==> decimal(n)[0] != '0',
        numeral_value(decimal(n)) == n,
    decreases n,
{
    let last = digit(n % 10);
    digits_are_one_character(n % 10);
    if n < 10 {
        assert(decimal(n).drop_last() =~= Seq::empty());
        assert(numeral_value(decimal(n).drop_last()) == 0);
    } else {
        let front = decimal(n / 10);
        numerals_stand_for_their_number(n / 10);
        assert(decimal(n).drop_last() =~= front);
        assert(decimal(n).last() == last[0]);
        assert(decimal(n)[0] == front[0]);
        if front.len() == 1 {
            assert(front.drop_last() =~= Seq::empty());
            assert(numeral_value(front.drop_last()) == 0);
        }
        assert forall|i: int| 0 <= i < decimal(n).len() implies '0' <= #[trigger] decimal(n)[i]
            <= '9' by {
            if i < front.len() {
                assert(decimal(n)[i] == front[i]);
            }
        }
    }
}

/// A text begins with a character exactly where it is that character followed by some text.
pub proof fn first_characters_come_first(s: Seq<char>, c: char, rest: Seq<char>)
    ensures
        begins_with(seq![c] + rest, c),
        begins_with(s, c) ==> s == seq![c] + s.skip(1),
        !begins_with(Seq::empty(), c),
{
    if begins_with(s, c) {
        assert(s =~= seq![c] + s.skip(1));
    }
}

/// The texts of a list are those of its strings, one for each and in order, and the text of an
/// optional string is there where the string is.
pub proof fn texts_are_those_of_the_strings(strings: Seq<String>, string: String)
    ensures
        texts(strings).len() == strings.len(),
        forall|i: int| 0 <= i < strings.len() ==> #[trigger] texts(strings)[i] == strings[i]@,
        text_of(Some(string)) == Some(string@),
        text_of(None) is None,
{
}

/// White space is tab to carriage return, the space, the next-line control, the no-break spaces,
/// the typographic spaces and the two separators, each by its code point, and nothing else: among
/// the ASCII characters only the first six.
pub proof fn white_space_by_code_point(c: char)
    ensures
        ({
            let code: int = c as int;
            &&& is_white_space(c) <==> 0x9 <= code <= 0xd || code == 0x20 || code == 0x85 || code
                == 0xa0 || code == 0x1680 || 0x2000 <= code <= 0x200a || code == 0x2028 || code
                == 0x2029 || code == 0x202f || code == 0x205f || code == 0x3000
            &&& code < 0x80 && is_white_space(c) ==> c == ' ' || c == '\t' || c == '\n' || c
                == '\r' || code == 0xb || code == 0xc
        }),
        is_white_space(' ') && is_white_space('\t') && is_white_space('\n') && is_white_space('\r'),
{
}

} // verus!
