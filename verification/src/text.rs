//! Text building blocks: decimal numbers, ordering, joining, trimming and letter case.
use vstd::prelude::*;

verus! {

/// The standard library's `String::push`: the string grows by the given character at its end.
pub assume_specification[ std::string::String::push ](text: &mut String, c: char)
    ensures
        final(text)@ == old(text)@.push(c),
;

/// What the standard library's `str::to_lowercase` returns for a text.
pub uninterp spec fn lowercased(text: Seq<char>) -> Seq<char>;

/// Lower case of an ASCII character; every other character stays as it is.
pub open spec fn ascii_lowercase(c: char) -> char {
    if 'A' <= c <= 'Z' {
        (c as u32 + 32) as char
    } else {
        c
    }
}

/// Whether a text consists of ASCII characters.
pub open spec fn is_ascii_text(text: Seq<char>) -> bool {
    forall|i: int| 0 <= i < text.len() ==> (#[trigger] text[i] as u32) < 128
}

/// The standard library's `str::to_lowercase`: the result is a function of the text alone, and on
/// a text of ASCII characters it maps the letters `A` to `Z` one by one. What it does to other
/// letters follows the Unicode tables and is left unsaid.
pub assume_specification[ str::to_lowercase ](text: &str) -> (lower: String)
    ensures
        lower@ == lowercased(text@),
        is_ascii_text(text@) ==> lower@ == text@.map_values(|c: char| ascii_lowercase(c)),
;

/// A text in lower case. On ASCII texts the letters are mapped one by one.
pub open spec fn lower_case(text: Seq<char>) -> Seq<char> {
    if is_ascii_text(text) {
        text.map_values(|c: char| ascii_lowercase(c))
    } else {
        lowercased(text)
    }
}

/// The decimal digit for a number below ten.
pub open spec fn digit(n: nat) -> char {
    (48 + n) as char
}

/// The decimal notation of a number, without leading zeros.
pub open spec fn decimal(n: nat) -> Seq<char>
    decreases n,
{
    if n < 10 {
        seq![digit(n)]
    } else {
        decimal(n / 10).push(digit(n % 10))
    }
}

/// Renders a number in decimal notation.
pub fn number(n: u64) -> (text: String)
    ensures
        text@ == decimal(n as nat),
    decreases n,
{
    let low: u8 = (n % 10) as u8;
    let mut text: String = if n < 10 {
        String::new()
    } else {
        number(n / 10)
    };
    text.push((48u8 + low) as char);
    assert(n < 10 ==> text@ =~= decimal(n as nat));
    text
}

/// The characters of a text.
pub fn characters(text: &str) -> (chars: Vec<char>)
    ensures
        chars@ == text@,
{
    let mut chars: Vec<char> = Vec::new();
    for c in iter: text.chars()
        invariant
            chars@ == iter.seq().take(iter.index()),
            iter.seq() == text@,
    {
        chars.push(c);
        assert(iter.seq().take(iter.index() + 1) =~= iter.seq().take(iter.index()).push(c));
    }
    assert(chars@ =~= text@);
    chars
}

/// The text made of the characters at positions `from` to `to`, exclusive.
pub fn substring(chars: &Vec<char>, from: usize, to: usize) -> (text: String)
    requires
        from <= to <= chars.len(),
    ensures
        text@ == chars@.subrange(from as int, to as int),
{
    let mut text = String::new();
    let mut i: usize = from;
    while i < to
        invariant
            from <= i <= to <= chars.len(),
            text@ == chars@.subrange(from as int, i as int),
        decreases to - i,
    {
        text.push(chars[i]);
        i += 1;
        assert(chars@.subrange(from as int, i as int) =~= chars@.subrange(
            from as int,
            i - 1,
        ).push(chars@[i - 1]));
    }
    text
}

/// Lexicographic order of texts, by the code points of their characters.
pub open spec fn before(a: Seq<char>, b: Seq<char>) -> bool
    decreases a.len(),
{
    if b.len() == 0 {
        false
    } else if a.len() == 0 {
        true
    } else if a[0] == b[0] {
        before(a.skip(1), b.skip(1))
    } else {
        a[0] < b[0]
    }
}

proof fn lemma_before_from(a: Seq<char>, b: Seq<char>, i: nat)
    requires
        i <= a.len(),
        i <= b.len(),
        a.take(i as int) == b.take(i as int),
    ensures
        before(a, b) == before(a.skip(i as int), b.skip(i as int)),
    decreases i,
{
    if i == 0 {
        assert(a.skip(0) =~= a);
        assert(b.skip(0) =~= b);
    } else {
        assert(a.take(i as int)[0] == a[0]);
        assert(b.take(i as int)[0] == b[0]);
        let j = (i - 1) as nat;
        assert(a.skip(1).take(j as int) =~= a.take(i as int).skip(1));
        assert(b.skip(1).take(j as int) =~= b.take(i as int).skip(1));
        lemma_before_from(a.skip(1), b.skip(1), j);
        assert(a.skip(1).skip(j as int) =~= a.skip(i as int));
        assert(b.skip(1).skip(j as int) =~= b.skip(i as int));
    }
}

/// Whether `a` comes before `b`.
pub fn is_before(a: &str, b: &str) -> (result: bool)
    ensures
        result == before(a@, b@),
{
    let left = characters(a);
    let right = characters(b);
    let mut i: usize = 0;
    while i < left.len() && i < right.len() && left[i] == right[i]
        invariant
            i <= left.len(),
            i <= right.len(),
            left@.take(i as int) == right@.take(i as int),
        decreases left.len() - i,
    {
        i += 1;
        assert(left@.take(i as int) =~= left@.take(i - 1).push(left@[i - 1]));
        assert(right@.take(i as int) =~= right@.take(i - 1).push(right@[i - 1]));
    }
    proof {
        lemma_before_from(left@, right@, i as nat);
    }
    if i == right.len() {
        false
    } else if i == left.len() {
        true
    } else {
        left[i] < right[i]
    }
}

/// No text comes before itself.
pub proof fn lemma_before_irreflexive(a: Seq<char>)
    ensures
        !before(a, a),
    decreases a.len(),
{
    if a.len() > 0 {
        lemma_before_irreflexive(a.skip(1));
    }
}

/// Of three texts in order the first comes before the last.
pub proof fn lemma_before_transitive(a: Seq<char>, b: Seq<char>, c: Seq<char>)
    requires
        before(a, b),
        before(b, c),
    ensures
        before(a, c),
    decreases a.len(),
{
    if a.len() > 0 && a[0] == b[0] && b[0] == c[0] {
        lemma_before_transitive(a.skip(1), b.skip(1), c.skip(1));
    }
}

/// Of two different texts one comes before the other.
pub proof fn lemma_before_total(a: Seq<char>, b: Seq<char>)
    ensures
        a == b || before(a, b) || before(b, a),
    decreases a.len(),
{
    if a.len() == 0 && b.len() == 0 {
        assert(a =~= b);
    } else if a.len() > 0 && b.len() > 0 && a[0] == b[0] {
        lemma_before_total(a.skip(1), b.skip(1));
        if a.skip(1) == b.skip(1) {
            assert(a =~= seq![a[0]] + a.skip(1));
            assert(b =~= seq![b[0]] + b.skip(1));
        }
    }
}

/// Whether both texts have the same characters.
pub fn equal(a: &str, b: &str) -> (result: bool)
    ensures
        result == (a@ == b@),
{
    a.to_owned() == b.to_owned()
}

/// The parts one after the other, with the separator between neighbours.
pub open spec fn joined(parts: Seq<Seq<char>>, separator: Seq<char>) -> Seq<char>
    decreases parts.len(),
{
    if parts.len() == 0 {
        Seq::empty()
    } else if parts.len() == 1 {
        parts[0]
    } else {
        joined(parts.drop_last(), separator) + separator + parts.last()
    }
}

/// Joins the parts with the separator between neighbours.
pub fn join(parts: &Vec<String>, separator: &str) -> (text: String)
    ensures
        text@ == joined(parts.deep_view(), separator@),
{
    let mut text = String::new();
    let mut i: usize = 0;
    while i < parts.len()
        invariant
            i <= parts.len(),
            text@ == joined(parts.deep_view().take(i as int), separator@),
        decreases parts.len() - i,
    {
        proof {
            let next = parts.deep_view().take(i + 1);
            assert(next.drop_last() =~= parts.deep_view().take(i as int));
            assert(next.last() == parts[i as int]@);
        }
        if i > 0 {
            text.append(separator);
        }
        text.append(parts[i].as_str());
        i += 1;
        assert(text@ =~= joined(parts.deep_view().take(i as int), separator@));
    }
    assert(parts.deep_view().take(i as int) =~= parts.deep_view());
    text
}

/// The characters with the Unicode property `White_Space`.
pub open spec fn is_white_space(c: char) -> bool {
    let code = c as u32;
    ||| 0x9 <= code <= 0xd
    ||| code == 0x20
    ||| code == 0x85
    ||| code == 0xa0
    ||| code == 0x1680
    ||| 0x2000 <= code <= 0x200a
    ||| code == 0x2028
    ||| code == 0x2029
    ||| code == 0x202f
    ||| code == 0x205f
    ||| code == 0x3000
}

fn white_space(c: char) -> (result: bool)
    ensures
        result == is_white_space(c),
{
    let code: u32 = c as u32;
    (0x9 <= code && code <= 0xd) || code == 0x20 || code == 0x85 || code == 0xa0 || code == 0x1680
        || (0x2000 <= code && code <= 0x200a) || code == 0x2028 || code == 0x2029 || code == 0x202f
        || code == 0x205f || code == 0x3000
}

/// The text without the white space at its start.
pub open spec fn trimmed_start(text: Seq<char>) -> Seq<char>
    decreases text.len(),
{
    if text.len() > 0 && is_white_space(text[0]) {
        trimmed_start(text.skip(1))
    } else {
        text
    }
}

/// The text without the white space at its end.
pub open spec fn trimmed_end(text: Seq<char>) -> Seq<char>
    decreases text.len(),
{
    if text.len() > 0 && is_white_space(text.last()) {
        trimmed_end(text.drop_last())
    } else {
        text
    }
}

/// The text without the white space around it.
pub open spec fn trimmed(text: Seq<char>) -> Seq<char> {
    trimmed_end(trimmed_start(text))
}

/// Removes the white space around a text.
pub fn trim(text: &str) -> (result: String)
    ensures
        result@ == trimmed(text@),
{
    let chars = characters(text);
    let mut from: usize = 0;
    assert(chars@.skip(0) =~= chars@);
    while from < chars.len() && white_space(chars[from])
        invariant
            from <= chars.len(),
            trimmed_start(chars@.skip(from as int)) == trimmed_start(chars@),
        decreases chars.len() - from,
    {
        assert(chars@.skip(from as int).skip(1) =~= chars@.skip(from + 1));
        from += 1;
    }
    let ghost rest = chars@.skip(from as int);
    assert(rest == trimmed_start(chars@));
    let mut to: usize = chars.len();
    assert(chars@.subrange(from as int, to as int) =~= rest);
    while to > from && white_space(chars[to - 1])
        invariant
            from <= to <= chars.len(),
            trimmed_end(chars@.subrange(from as int, to as int)) == trimmed_end(rest),
        decreases to,
    {
        assert(chars@.subrange(from as int, to as int).drop_last() =~= chars@.subrange(
            from as int,
            to - 1,
        ));
        to -= 1;
    }
    substring(&chars, from, to)
}

/// Trimming keeps what stands between: the result is a run of the text's characters, and it
/// neither starts nor ends with white space.
pub proof fn lemma_trimmed_is_inner_run(text: Seq<char>)
    ensures
        exists|from: int, to: int|
            0 <= from <= to <= text.len() && trimmed(text) == #[trigger] text.subrange(from, to)
                && (forall|i: int| 0 <= i < from ==> is_white_space(text[i])) && (forall|i: int|
                to <= i < text.len() ==> is_white_space(text[i])),
        trimmed(text).len() > 0 ==> !is_white_space(trimmed(text)[0]) && !is_white_space(
            trimmed(text).last(),
        ),
{
    let rest = trimmed_start(text);
    lemma_trimmed_start(text);
    lemma_trimmed_end(rest);
    let from = (text.len() - rest.len()) as int;
    let to = from + trimmed(text).len() as int;
    assert(trimmed(text) =~= text.subrange(from, to));
    assert forall|i: int| 0 <= i < from implies is_white_space(text[i]) by {}
    assert forall|i: int| to <= i < text.len() implies is_white_space(text[i]) by {
        assert(text[i] == rest[i - from]);
    }
}

proof fn lemma_trimmed_start(text: Seq<char>)
    ensures
        trimmed_start(text).len() <= text.len(),
        trimmed_start(text) == text.skip(text.len() - trimmed_start(text).len()),
        forall|i: int|
            0 <= i < text.len() - trimmed_start(text).len() ==> is_white_space(#[trigger] text[i]),
        trimmed_start(text).len() > 0 ==> !is_white_space(trimmed_start(text)[0]),
    decreases text.len(),
{
    if text.len() > 0 && is_white_space(text[0]) {
        let rest = text.skip(1);
        lemma_trimmed_start(rest);
        let gone = text.len() - trimmed_start(text).len();
        assert(text.skip(gone as int) =~= rest.skip(gone - 1));
        assert forall|i: int| 0 <= i < gone implies is_white_space(#[trigger] text[i]) by {
            if i > 0 {
                assert(text[i] == rest[i - 1]);
            }
        }
    } else {
        assert(text.skip(0) =~= text);
    }
}

proof fn lemma_trimmed_end(text: Seq<char>)
    ensures
        trimmed_end(text).len() <= text.len(),
        trimmed_end(text) == text.take(trimmed_end(text).len() as int),
        forall|i: int| trimmed_end(text).len() <= i < text.len() ==> is_white_space(#[trigger] text[i]),
        trimmed_end(text).len() > 0 ==> !is_white_space(trimmed_end(text).last()),
    decreases text.len(),
{
    if text.len() > 0 && is_white_space(text.last()) {
        let rest = text.drop_last();
        lemma_trimmed_end(rest);
        assert(text.take(trimmed_end(text).len() as int) =~= rest.take(
            trimmed_end(text).len() as int,
        ));
        assert forall|i: int| trimmed_end(text).len() <= i < text.len() implies is_white_space(
            #[trigger] text[i],
        ) by {
            if i < text.len() - 1 {
                assert(text[i] == rest[i]);
            }
        }
    } else {
        assert(text.take(text.len() as int) =~= text);
    }
}

/// Whether `part` occurs in `text`.
pub open spec fn contains_text(text: Seq<char>, part: Seq<char>) -> bool {
    exists|i: int|
        0 <= i <= text.len() - part.len() && #[trigger] text.subrange(i, i + part.len()) == part
}

/// A text contains each of its parts.
pub proof fn lemma_contains_part(start: Seq<char>, part: Seq<char>, end: Seq<char>)
    ensures
        contains_text(start + part + end, part),
{
    let text = start + part + end;
    let i = start.len() as int;
    assert(text.subrange(i, i + part.len()) =~= part);
}

/// What a part of a text contains, the text contains too.
pub proof fn lemma_contains_in_part(
    start: Seq<char>,
    part: Seq<char>,
    end: Seq<char>,
    inner: Seq<char>,
)
    requires
        contains_text(part, inner),
    ensures
        contains_text(start + part + end, inner),
{
    let text = start + part + end;
    let i = choose|i: int|
        0 <= i <= part.len() - inner.len() && #[trigger] part.subrange(i, i + inner.len()) == inner;
    let at = start.len() + i;
    assert(text.subrange(at, at + inner.len()) =~= part.subrange(i, i + inner.len()));
}

/// What occurs in two texts with a character between them occurs in one of the two, unless it has
/// that character in it.
pub proof fn lemma_separated(left: Seq<char>, separator: char, right: Seq<char>, part: Seq<char>)
    requires
        !part.contains(separator),
    ensures
        contains_text(left.push(separator) + right, part) ==> contains_text(left, part)
            || contains_text(right, part),
{
    let text = left.push(separator) + right;
    if contains_text(text, part) {
        let i = choose|i: int|
            0 <= i <= text.len() - part.len() && #[trigger] text.subrange(i, i + part.len()) == part;
        let at = left.len() as int;
        if i + part.len() <= at {
            assert(left.subrange(i, i + part.len()) =~= part);
        } else if i > at {
            let j = i - at - 1;
            assert(right.subrange(j, j + part.len()) =~= part);
        } else {
            assert(part[at - i] == separator);
            assert(part.contains(separator));
        }
    }
}

/// Texts can be put together in any grouping.
pub proof fn lemma_regrouped(a: Seq<char>, b: Seq<char>, c: Seq<char>)
    ensures
        a + b + c == a + (b + c),
{
    assert(a + b + c =~= a + (b + c));
}

/// What occurs in a part of a text occurs in the text.
pub proof fn lemma_contains_transitive(text: Seq<char>, part: Seq<char>, inner: Seq<char>)
    requires
        contains_text(text, part),
        contains_text(part, inner),
    ensures
        contains_text(text, inner),
{
    let i = choose|i: int|
        0 <= i <= text.len() - part.len() && #[trigger] text.subrange(i, i + part.len()) == part;
    let start = text.take(i);
    let end = text.skip(i + part.len());
    assert(text =~= start + part + end);
    lemma_contains_in_part(start, part, end, inner);
}

/// The number that a row of decimal digits stands for.
pub open spec fn digits_value(text: Seq<char>) -> int
    decreases text.len(),
{
    if text.len() == 0 {
        0
    } else {
        10 * digits_value(text.drop_last()) + (text.last() as u32 - '0' as u32)
    }
}

/// A number is written in decimal digits that stand for it, without leading zeros.
pub proof fn lemma_decimal(n: nat)
    ensures
        decimal(n).len() > 0,
        digits_value(decimal(n)) == n,
        forall|i: int| 0 <= i < decimal(n).len() ==> '0' <= (#[trigger] decimal(n)[i]) <= '9',
        n > 0 ==> decimal(n)[0] != '0',
    decreases n,
{
    reveal_with_fuel(digits_value, 2);
    if n >= 10 {
        lemma_decimal(n / 10);
        let rest = decimal(n / 10);
        assert(decimal(n).drop_last() =~= rest);
        assert(decimal(n)[0] == rest[0]);
        assert forall|i: int| 0 <= i < decimal(n).len() implies '0' <= (#[trigger] decimal(n)[i])
            <= '9' by {
            if i < rest.len() {
                assert(decimal(n)[i] == rest[i]);
            }
        }
    } else {
        assert(decimal(n).drop_last() =~= Seq::empty());
    }
}

/// Joined texts are those texts, in their order, with the separator between each two of them.
pub proof fn lemma_joined(parts: Seq<Seq<char>>, separator: Seq<char>, part: Seq<char>)
    ensures
        joined(Seq::empty(), separator).len() == 0,
        joined(seq![part], separator) == part,
        parts.len() > 0 ==> joined(parts.push(part), separator) == joined(parts, separator)
            + separator + part,
{
    assert(parts.push(part).drop_last() =~= parts);
}

/// A text that starts with another still does so when it goes on.
pub proof fn lemma_starts_with(start: Seq<char>, text: Seq<char>, more: Seq<char>)
    requires
        start.is_prefix_of(text),
    ensures
        start.is_prefix_of(text + more),
{
    assert(start =~= (text + more).take(start.len() as int));
}

/// A text ends with the last of its parts.
pub proof fn lemma_ends_with(start: Seq<char>, end: Seq<char>)
    ensures
        end.is_suffix_of(start + end),
{
    assert(end =~= (start + end).skip(start.len() as int));
}

/// Texts are ordered like words in a dictionary: by the first character in which they differ, and a
/// text comes before those that it is the start of.
pub proof fn lemma_before_is_dictionary_order(
    start: Seq<char>,
    a: char,
    b: char,
    a_rest: Seq<char>,
    b_rest: Seq<char>,
)
    ensures
        a < b ==> before(start.push(a) + a_rest, start.push(b) + b_rest),
        a > b ==> !before(start.push(a) + a_rest, start.push(b) + b_rest),
        before(start, start.push(a) + a_rest),
    decreases start.len(),
{
    let left = start.push(a) + a_rest;
    let right = start.push(b) + b_rest;
    if start.len() > 0 {
        let rest = start.skip(1);
        lemma_before_is_dictionary_order(rest, a, b, a_rest, b_rest);
        assert(left.skip(1) =~= rest.push(a) + a_rest);
        assert(right.skip(1) =~= rest.push(b) + b_rest);
        assert(left[0] == start[0] && right[0] == start[0]);
    } else {
        assert(left[0] == a && right[0] == b);
    }
}

/// An upper-case letter becomes the lower-case one at the same place of the alphabet, and nothing else
/// changes.
pub proof fn lemma_ascii_lowercase(c: char)
    ensures
        'A' <= c <= 'Z' ==> ascii_lowercase(c) as u32 - 'a' as u32 == c as u32 - 'A' as u32,
        !('A' <= c <= 'Z') ==> ascii_lowercase(c) == c,
        ascii_lowercase(ascii_lowercase(c)) == ascii_lowercase(c),
{
}

/// Blanks, tabs and line breaks are white space. No character that is visible in ASCII is.
pub proof fn lemma_white_space(c: char)
    ensures
        c == ' ' || c == '\t' || c == '\n' || c == '\r' ==> is_white_space(c),
        '!' <= c <= '~' ==> !is_white_space(c),
{
}

} // verus!
