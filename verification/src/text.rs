//! Character-level text operations. Every function here is specified over `Seq<char>`,
//! the view of a string.

use vstd::prelude::*;
use vstd::utf8::*;

verus! {

broadcast use vstd::string::group_string_axioms;

/// `String::push`: the character goes to the end of the string.
pub assume_specification[ String::push ](buffer: &mut String, c: char)
    ensures
        final(buffer)@ == old(buffer)@.push(c),
;

/// What `str::to_lowercase` makes of a text: the Unicode lowercase mapping.
pub uninterp spec fn lowercase(text: Seq<char>) -> Seq<char>;

/// `str::to_lowercase`: the result is named by [`lowercase`]. A text of ASCII characters gets
/// its capitals in lower case and is otherwise unchanged.
#[verifier::external_body]
pub(crate) fn to_lowercase(text: &str) -> (result: String)
    ensures
        result@ == lowercase(text@),
        vstd::utf8::is_ascii_chars(text@) ==> result@ == ascii_lower(text@),
{
    text.to_lowercase()
}

/// How Rust's `Debug` writes a text: in quotes, with what would not print escaped.
pub uninterp spec fn debug_text(text: Seq<char>) -> Seq<char>;

/// `format!` with `{:?}` on a text: the result is named by [`debug_text`].
#[verifier::external_body]
pub(crate) fn quoted(text: &str) -> (result: String)
    ensures
        result@ == debug_text(text@),
{
    format!("{:?}", text)
}

/// The first `i + 1` items are the first `i` and the one after them.
pub proof fn take_next<T>(s: Seq<T>, i: int)
    requires
        0 <= i < s.len(),
    ensures
        s.take(i + 1) == s.take(i).push(s[i]),
        s.take(i + 1).drop_last() == s.take(i),
        s.take(i + 1).last() == s[i],
        i + 1 == s.len() ==> s.take(i + 1) == s,
{
    assert(s.take(i + 1) =~= s.take(i).push(s[i]));
    assert(s.take(i + 1).drop_last() =~= s.take(i));
    if i + 1 == s.len() {
        assert(s.take(i + 1) =~= s);
    }
}

/// The views of a list of strings, in order.
pub open spec fn views(items: Seq<String>) -> Seq<Seq<char>> {
    items.map_values(|item: String| item@)
}

/// The views of a list of borrowed texts, in order.
pub open spec fn str_views(items: Seq<&str>) -> Seq<Seq<char>> {
    Seq::new(items.len(), |i: int| items[i]@)
}

/// Reads a text into its characters.
pub fn chars_of(text: &str) -> (result: Vec<char>)
    ensures
        result@ == text@,
{
    let mut result: Vec<char> = Vec::new();
    for c in it: text.chars()
        invariant
            it.seq() == text@,
            result@ == text@.take(it.index() as int),
    {
        result.push(c);
    }
    assert(text@.take(text@.len() as int) == text@);
    result
}

/// The text with the given characters from `from` up to `to`.
pub fn slice_text(chars: &Vec<char>, from: usize, to: usize) -> (result: String)
    requires
        from <= to <= chars@.len(),
    ensures
        result@ == chars@.subrange(from as int, to as int),
{
    let mut result = String::new();
    let mut i: usize = from;
    while i < to
        invariant
            from <= i <= to <= chars@.len(),
            result@ == chars@.subrange(from as int, i as int),
        decreases to - i,
    {
        result.push(chars[i]);
        i += 1;
    }
    result
}

/// Whether two texts hold the same characters.
pub fn same(a: &str, b: &str) -> (result: bool)
    ensures
        result == (a@ == b@),
{
    let x = chars_of(a);
    let y = chars_of(b);
    if x.len() != y.len() {
        return false;
    }
    let mut i: usize = 0;
    while i < x.len()
        invariant
            i <= x@.len(),
            x@.len() == y@.len(),
            x@.take(i as int) == y@.take(i as int),
            x@ == a@,
            y@ == b@,
        decreases x@.len() - i,
    {
        if x[i] != y[i] {
            assert(a@[i as int] != b@[i as int]);
            return false;
        }
        i += 1;
    }
    assert(x@.take(i as int) == a@);
    assert(y@.take(i as int) == b@);
    true
}

/// Unicode `White_Space`: what `char::is_whitespace` accepts.
pub open spec fn is_white(c: char) -> bool {
    let n = c as u32;
    ||| 9 <= n <= 13
    ||| n == 32
    ||| n == 0x85
    ||| n == 0xa0
    ||| n == 0x1680
    ||| 0x2000 <= n <= 0x200a
    ||| n == 0x2028
    ||| n == 0x2029
    ||| n == 0x202f
    ||| n == 0x205f
    ||| n == 0x3000
}

/// The text without its leading white space.
pub open spec fn trim_start_spec(s: Seq<char>) -> Seq<char>
    decreases s.len(),
{
    if s.len() > 0 && is_white(s[0]) {
        trim_start_spec(s.drop_first())
    } else {
        s
    }
}

/// The text without its trailing white space.
pub open spec fn trim_end_spec(s: Seq<char>) -> Seq<char>
    decreases s.len(),
{
    if s.len() > 0 && is_white(s.last()) {
        trim_end_spec(s.drop_last())
    } else {
        s
    }
}

/// The text without white space at either end.
pub open spec fn trimmed(s: Seq<char>) -> Seq<char> {
    trim_end_spec(trim_start_spec(s))
}

/// Whether `c` is white space.
pub fn white(c: char) -> (result: bool)
    ensures
        result == is_white(c),
{
    let n: u32 = c as u32;
    (9 <= n && n <= 13) || n == 32 || n == 0x85 || n == 0xa0 || n == 0x1680 || (0x2000 <= n && n
        <= 0x200a) || n == 0x2028 || n == 0x2029 || n == 0x202f || n == 0x205f || n == 0x3000
}

/// The text without its leading white space.
pub fn trim_start(text: &str) -> (result: String)
    ensures
        result@ == trim_start_spec(text@),
{
    let chars = chars_of(text);
    let mut from: usize = 0;
    assert(text@.skip(0) == text@);
    while from < chars.len() && white(chars[from])
        invariant
            from <= chars@.len(),
            chars@ == text@,
            trim_start_spec(text@) == trim_start_spec(text@.skip(from as int)),
        decreases chars@.len() - from,
    {
        assert(text@.skip(from as int).drop_first() == text@.skip(from + 1));
        from += 1;
    }
    assert(text@.skip(from as int) == text@.subrange(from as int, text@.len() as int));
    slice_text(&chars, from, chars.len())
}

/// The text without white space at either end.
pub fn trim(text: &str) -> (result: String)
    ensures
        result@ == trimmed(text@),
{
    let chars = chars_of(text);
    let mut from: usize = 0;
    assert(text@.skip(0) == text@);
    while from < chars.len() && white(chars[from])
        invariant
            from <= chars@.len(),
            chars@ == text@,
            trim_start_spec(text@) == trim_start_spec(text@.skip(from as int)),
        decreases chars@.len() - from,
    {
        assert(text@.skip(from as int).drop_first() == text@.skip(from + 1));
        from += 1;
    }
    let ghost rest = text@.skip(from as int);
    assert(trim_start_spec(text@) == rest);
    let mut to: usize = chars.len();
    assert(text@.subrange(from as int, to as int) == rest);
    while to > from && white(chars[to - 1])
        invariant
            from <= to <= chars@.len(),
            chars@ == text@,
            trim_end_spec(rest) == trim_end_spec(text@.subrange(from as int, to as int)),
        decreases to,
    {
        assert(text@.subrange(from as int, to as int).drop_last() == text@.subrange(
            from as int,
            to - 1,
        ));
        to -= 1;
    }
    slice_text(&chars, from, to)
}

/// A trimmed text has no white space at either end, and trimming it again changes nothing.
pub proof fn trim_is_idempotent(s: Seq<char>)
    ensures
        trimmed(trimmed(s)) == trimmed(s),
        trimmed(s).len() > 0 ==> !is_white(trimmed(s)[0]) && !is_white(trimmed(s).last()),
{
    lemma_trim_start(s);
    lemma_trim_end(trim_start_spec(s));
}

/// Trimming takes white space from the ends and nothing else: what is left begins and ends with
/// something else, and only white space was around it.
pub proof fn trimming_cuts_white_ends(s: Seq<char>) -> (cut: (int, int))
    ensures
        0 <= cut.0 <= cut.1 <= s.len(),
        trimmed(s) == s.subrange(cut.0, cut.1),
        forall|i: int| 0 <= i < cut.0 ==> is_white(#[trigger] s[i]),
        forall|i: int| cut.1 <= i < s.len() ==> is_white(#[trigger] s[i]),
        cut.0 < cut.1 ==> !is_white(s[cut.0]) && !is_white(s[cut.1 - 1]),
{
    let a = lemma_start_cut(s);
    let t = trim_start_spec(s);
    let b = lemma_end_cut(t);
    lemma_trim_start(s);
    lemma_trim_end(t);
    assert(trimmed(s) =~= s.subrange(a, a + b));
    assert forall|i: int| a + b <= i < s.len() implies is_white(#[trigger] s[i]) by {
        assert(t[i - a] == s[i]);
    }
    if 0 < b {
        assert(t[0] == s[a]);
        assert(t.take(b).last() == s[a + b - 1]);
    }
    (a, a + b)
}

proof fn lemma_start_cut(s: Seq<char>) -> (a: int)
    ensures
        0 <= a <= s.len(),
        trim_start_spec(s) == s.skip(a),
        forall|i: int| 0 <= i < a ==> is_white(#[trigger] s[i]),
    decreases s.len(),
{
    if s.len() > 0 && is_white(s[0]) {
        let a = lemma_start_cut(s.drop_first());
        assert(s.drop_first().skip(a) =~= s.skip(a + 1));
        assert forall|i: int| 0 <= i < a + 1 implies is_white(#[trigger] s[i]) by {
            if i > 0 {
                assert(s.drop_first()[i - 1] == s[i]);
            }
        }
        a + 1
    } else {
        assert(s.skip(0) =~= s);
        0
    }
}

proof fn lemma_end_cut(s: Seq<char>) -> (b: int)
    ensures
        0 <= b <= s.len(),
        trim_end_spec(s) == s.take(b),
        forall|i: int| b <= i < s.len() ==> is_white(#[trigger] s[i]),
    decreases s.len(),
{
    if s.len() > 0 && is_white(s.last()) {
        let b = lemma_end_cut(s.drop_last());
        assert(s.drop_last().take(b) =~= s.take(b));
        assert forall|i: int| b <= i < s.len() implies is_white(#[trigger] s[i]) by {
            if i < s.len() - 1 {
                assert(s.drop_last()[i] == s[i]);
            }
        }
        b
    } else {
        assert(s.take(s.len() as int) =~= s);
        s.len() as int
    }
}

/// What stands in a part of a text stands in the text.
pub proof fn part_of_part_is_part(whole: Seq<char>, middle: Seq<char>, piece: Seq<char>)
    requires
        has_part(whole, middle),
        has_part(middle, piece),
    ensures
        has_part(whole, piece),
{
    let i = choose|i: int| part_at(whole, middle, i);
    let j = choose|j: int| part_at(middle, piece, j);
    assert(whole.subrange(i, i + middle.len()).subrange(j, j + piece.len()) =~= whole.subrange(
        i + j,
        i + j + piece.len(),
    ));
    assert(part_at(whole, piece, i + j));
}

/// What stands in one of three texts stands in the three put together.
pub proof fn parts_of_parts(a: Seq<char>, b: Seq<char>, c: Seq<char>, piece: Seq<char>)
    requires
        has_part(b, piece),
    ensures
        has_part(a + b + c, piece),
        has_part(a + b + c, b),
{
    let whole = a + b + c;
    assert(whole.subrange(a.len() as int, (a.len() + b.len()) as int) =~= b);
    assert(part_at(whole, b, a.len() as int));
    part_of_part_is_part(whole, b, piece);
}

/// Texts that are put together with something between them stay whole.
pub proof fn joined_texts_hold_their_parts(parts: Seq<Seq<char>>, sep: Seq<char>, i: int)
    requires
        0 <= i < parts.len(),
    ensures
        has_part(join_spec(parts, sep), parts[i]),
    decreases parts.len(),
{
    let joined = join_spec(parts, sep);
    if parts.len() == 1 {
        assert(joined.subrange(0, joined.len() as int) =~= parts[i]);
        assert(part_at(joined, parts[i], 0));
    } else if i == parts.len() - 1 {
        let front = join_spec(parts.drop_last(), sep) + sep;
        assert(parts[i].subrange(0, parts[i].len() as int) =~= parts[i]);
        assert(part_at(parts[i], parts[i], 0));
        assert(front + parts[i] + Seq::<char>::empty() =~= joined);
        parts_of_parts(front, parts[i], Seq::empty(), parts[i]);
    } else {
        let before = join_spec(parts.drop_last(), sep);
        joined_texts_hold_their_parts(parts.drop_last(), sep, i);
        assert(Seq::<char>::empty() + before + (sep + parts.last()) =~= joined);
        parts_of_parts(Seq::empty(), before, sep + parts.last(), parts[i]);
    }
}

/// What stands in a text stands in the trimmed text, but for white space at its ends.
pub proof fn trimming_keeps_parts(s: Seq<char>, piece: Seq<char>, i: int)
    requires
        part_at(s, piece, i),
    ensures
        has_part(trimmed(s), trimmed(piece)),
{
    let (a, b) = trimming_cuts_white_ends(s);
    let (c, d) = trimming_cuts_white_ends(piece);
    let inner = trimmed(piece);
    if c == d {
        assert(inner =~= Seq::<char>::empty());
        assert(trimmed(s).subrange(0, 0) =~= inner);
        assert(part_at(trimmed(s), inner, 0));
    } else {
        let part = s.subrange(i, i + piece.len());
        assert(part == piece);
        assert(piece[c] == part[c]);
        assert(part[c] == s[i + c]);
        assert(piece[d - 1] == part[d - 1]);
        assert(part[d - 1] == s[i + d - 1]);
        assert(a <= i + c);
        assert(i + d <= b);
        assert(trimmed(s).subrange(i + c - a, i + d - a) =~= inner) by {
            assert forall|k: int| 0 <= k < d - c implies trimmed(s).subrange(
                i + c - a,
                i + d - a,
            )[k] == inner[k] by {
                assert(inner[k] == piece[c + k]);
                assert(part[c + k] == s[i + c + k]);
            }
        }
        assert(part_at(trimmed(s), inner, i + c - a));
    }
}

proof fn lemma_trim_start(s: Seq<char>)
    ensures
        trim_start_spec(s).len() > 0 ==> !is_white(trim_start_spec(s)[0]),
    decreases s.len(),
{
    if s.len() > 0 && is_white(s[0]) {
        lemma_trim_start(s.drop_first());
    }
}

proof fn lemma_trim_end(s: Seq<char>)
    ensures
        trim_end_spec(s).len() > 0 ==> !is_white(trim_end_spec(s).last()) && trim_end_spec(s)[0]
            == s[0],
        trim_end_spec(s).len() <= s.len(),
    decreases s.len(),
{
    if s.len() > 0 && is_white(s.last()) {
        lemma_trim_end(s.drop_last());
    }
}

/// The ASCII lowercase form of one character.
pub open spec fn lower_char(c: char) -> char {
    if 'A' <= c <= 'Z' {
        (c as u32 + 32) as u32 as char
    } else {
        c
    }
}

/// The text with its ASCII capitals in lower case.
pub open spec fn ascii_lower(s: Seq<char>) -> Seq<char> {
    s.map_values(|c: char| lower_char(c))
}

/// The ASCII lowercase form of one character.
pub fn lower(c: char) -> (result: char)
    ensures
        result == lower_char(c),
{
    if c >= 'A' && c <= 'Z' {
        ((c as u8) + 32) as char
    } else {
        c
    }
}

/// The text with its ASCII capitals in lower case, as `str::to_ascii_lowercase` gives it.
pub fn to_ascii_lower(text: &str) -> (result: String)
    ensures
        result@ == ascii_lower(text@),
{
    let chars = chars_of(text);
    let mut result = String::new();
    let mut i: usize = 0;
    while i < chars.len()
        invariant
            i <= chars@.len(),
            chars@ == text@,
            result@ == ascii_lower(text@.take(i as int)),
        decreases chars@.len() - i,
    {
        result.push(lower(chars[i]));
        assert(ascii_lower(text@.take(i + 1)) == ascii_lower(text@.take(i as int)).push(
            lower_char(text@[i as int]),
        ));
        i += 1;
    }
    assert(text@.take(i as int) == text@);
    result
}

/// Whether two texts agree up to ASCII case, as `str::eq_ignore_ascii_case` says.
pub fn same_ignoring_case(a: &str, b: &str) -> (result: bool)
    ensures
        result == (ascii_lower(a@) == ascii_lower(b@)),
{
    same(to_ascii_lower(a).as_str(), to_ascii_lower(b).as_str())
}

/// Whether the characters of `needle` stand in `hay` from position `at` on.
fn matches_at(hay: &Vec<char>, needle: &Vec<char>, at: usize) -> (result: bool)
    requires
        at + needle@.len() <= hay@.len(),
    ensures
        result == (hay@.subrange(at as int, at + needle@.len()) == needle@),
{
    let total: usize = hay.len();
    let mut i: usize = 0;
    while i < needle.len()
        invariant
            i <= needle@.len(),
            at + needle@.len() <= total == hay@.len(),
            hay@.subrange(at as int, at + i) == needle@.take(i as int),
        decreases needle@.len() - i,
    {
        if hay[at + i] != needle[i] {
            assert(hay@.subrange(at as int, at + needle@.len())[i as int] != needle@[i as int]);
            return false;
        }
        i += 1;
    }
    assert(needle@.take(i as int) == needle@);
    true
}

/// Whether `s` begins with `prefix`.
pub open spec fn has_prefix(s: Seq<char>, prefix: Seq<char>) -> bool {
    prefix.len() <= s.len() && s.take(prefix.len() as int) == prefix
}

/// Whether `s` ends with `suffix`.
pub open spec fn has_suffix(s: Seq<char>, suffix: Seq<char>) -> bool {
    suffix.len() <= s.len() && s.skip(s.len() - suffix.len()) == suffix
}

/// Whether `needle` stands somewhere in `hay`.
pub open spec fn has_part(hay: Seq<char>, needle: Seq<char>) -> bool {
    exists|i: int| part_at(hay, needle, i)
}

/// Whether `needle` stands in `hay` at position `i`.
pub open spec fn part_at(hay: Seq<char>, needle: Seq<char>, i: int) -> bool {
    0 <= i && i + needle.len() <= hay.len() && hay.subrange(i, i + needle.len()) == needle
}

/// Whether the text begins with `prefix`.
pub fn starts_with(text: &str, prefix: &str) -> (result: bool)
    ensures
        result == has_prefix(text@, prefix@),
{
    let a = chars_of(text);
    let b = chars_of(prefix);
    if b.len() > a.len() {
        return false;
    }
    assert(a@.take(b@.len() as int) == a@.subrange(0, b@.len() as int));
    matches_at(&a, &b, 0)
}

/// Whether the text ends with `suffix`.
pub fn ends_with(text: &str, suffix: &str) -> (result: bool)
    ensures
        result == has_suffix(text@, suffix@),
{
    let a = chars_of(text);
    let b = chars_of(suffix);
    if b.len() > a.len() {
        return false;
    }
    let at: usize = a.len() - b.len();
    assert(a@.skip(at as int) == a@.subrange(at as int, at + b@.len()));
    matches_at(&a, &b, at)
}

/// Whether `needle` stands somewhere in the text.
pub fn contains(text: &str, needle: &str) -> (result: bool)
    ensures
        result == has_part(text@, needle@),
{
    let a = chars_of(text);
    let b = chars_of(needle);
    if b.len() > a.len() {
        return false;
    }
    let last: usize = a.len() - b.len();
    let mut i: usize = 0;
    loop
        invariant
            a@ == text@,
            b@ == needle@,
            last + b@.len() == a@.len(),
            i <= last,
            forall|j: int| 0 <= j < i ==> !part_at(text@, needle@, j),
        decreases last - i,
    {
        if matches_at(&a, &b, i) {
            assert(part_at(text@, needle@, i as int));
            return true;
        }
        if i == last {
            assert(forall|j: int| part_at(text@, needle@, j) ==> 0 <= j <= last);
            return false;
        }
        i += 1;
    }
}

/// The text after `prefix`, where it begins with it.
pub fn strip_prefix(text: &str, prefix: &str) -> (result: Option<String>)
    ensures
        result is Some <==> has_prefix(text@, prefix@),
        result matches Some(rest) ==> rest@ == text@.skip(prefix@.len() as int),
{
    if starts_with(text, prefix) {
        let a = chars_of(text);
        let n: usize = chars_of(prefix).len();
        assert(a@.skip(n as int) == a@.subrange(n as int, a@.len() as int));
        Some(slice_text(&a, n, a.len()))
    } else {
        None
    }
}

/// The text before `suffix`, where it ends with it.
pub fn strip_suffix(text: &str, suffix: &str) -> (result: Option<String>)
    ensures
        result is Some <==> has_suffix(text@, suffix@),
        result matches Some(rest) ==> rest@ == text@.take(text@.len() - suffix@.len()),
{
    if ends_with(text, suffix) {
        let a = chars_of(text);
        let n: usize = chars_of(suffix).len();
        assert(a@.take(a@.len() - n) == a@.subrange(0, a@.len() - n));
        Some(slice_text(&a, 0, a.len() - n))
    } else {
        None
    }
}

/// The pieces of a text between the characters equal to `sep`.
pub open spec fn split_spec(s: Seq<char>, sep: char) -> Seq<Seq<char>>
    decreases s.len(),
{
    if s.len() == 0 {
        seq![Seq::<char>::empty()]
    } else {
        let before = split_spec(s.drop_last(), sep);
        if s.last() == sep {
            before.push(Seq::<char>::empty())
        } else {
            before.update(before.len() - 1, before.last().push(s.last()))
        }
    }
}

pub proof fn lemma_split_nonempty(s: Seq<char>, sep: char)
    ensures
        split_spec(s, sep).len() > 0,
    decreases s.len(),
{
    if s.len() > 0 {
        lemma_split_nonempty(s.drop_last(), sep);
    }
}

/// The pieces of the text between the characters equal to `sep`.
pub fn split(text: &str, sep: char) -> (result: Vec<String>)
    ensures
        views(result@) == split_spec(text@, sep),
        result@.len() > 0,
{
    let chars = chars_of(text);
    let mut result: Vec<String> = Vec::new();
    let mut piece = String::new();
    let mut i: usize = 0;
    assert(views(result@).push(piece@) == split_spec(text@.take(0), sep));
    while i < chars.len()
        invariant
            i <= chars@.len(),
            chars@ == text@,
            views(result@).push(piece@) == split_spec(text@.take(i as int), sep),
        decreases chars@.len() - i,
    {
        let c = chars[i];
        let ghost before = views(result@).push(piece@);
        assert(text@.take(i + 1).drop_last() == text@.take(i as int));
        if c == sep {
            result.push(piece);
            piece = String::new();
            assert(views(result@) == before);
        } else {
            piece.push(c);
            assert(views(result@).push(piece@) == before.update(
                before.len() - 1,
                before.last().push(c),
            ));
        }
        i += 1;
    }
    assert(text@.take(i as int) == text@);
    result.push(piece);
    assert(views(result@) == split_spec(text@, sep));
    result
}

/// The pieces put together with `sep` between them.
pub open spec fn join_spec(parts: Seq<Seq<char>>, sep: Seq<char>) -> Seq<char>
    decreases parts.len(),
{
    if parts.len() == 0 {
        Seq::empty()
    } else if parts.len() == 1 {
        parts[0]
    } else {
        join_spec(parts.drop_last(), sep) + sep + parts.last()
    }
}

/// The pieces put together with `sep` between them.
pub fn join(parts: &Vec<String>, sep: &str) -> (result: String)
    ensures
        result@ == join_spec(views(parts@), sep@),
{
    let mut result = String::new();
    let mut i: usize = 0;
    while i < parts.len()
        invariant
            i <= parts@.len(),
            result@ == join_spec(views(parts@).take(i as int), sep@),
        decreases parts@.len() - i,
    {
        let ghost all = views(parts@);
        assert(all.take(i + 1).drop_last() == all.take(i as int));
        if i > 0 {
            result.append(sep);
        }
        result.append(parts[i].as_str());
        assert(result@ == join_spec(all.take(i + 1), sep@));
        i += 1;
    }
    assert(views(parts@).take(i as int) == views(parts@));
    result
}

/// Splitting a text and joining the pieces with the same separator gives the text back.
pub proof fn join_undoes_split(s: Seq<char>, sep: char)
    ensures
        join_spec(split_spec(s, sep), seq![sep]) == s,
    decreases s.len(),
{
    if s.len() > 0 {
        let rest = s.drop_last();
        let before = split_spec(rest, sep);
        join_undoes_split(rest, sep);
        lemma_split_nonempty(rest, sep);
        let after = split_spec(s, sep);
        if s.last() == sep {
            assert(after.drop_last() == before);
            assert(join_spec(after, seq![sep]) == rest + seq![sep] + Seq::<char>::empty());
            assert(rest + seq![sep] + Seq::<char>::empty() == s);
        } else {
            if before.len() == 1 {
                assert(join_spec(after, seq![sep]) == before[0].push(s.last()));
            } else {
                assert(after.drop_last() == before.drop_last());
                assert(join_spec(before.drop_last(), seq![sep]) + seq![sep] + before.last().push(
                    s.last(),
                ) == (join_spec(before.drop_last(), seq![sep]) + seq![sep] + before.last()).push(
                    s.last(),
                ));
            }
            assert(rest.push(s.last()) == s);
        }
    }
}

/// The first piece of a split text is what stands before the first separator.
pub proof fn split_first_piece(s: Seq<char>, sep: char, i: int)
    requires
        0 <= i <= s.len(),
        forall|j: int| 0 <= j < i ==> s[j] != sep,
        i < s.len() ==> s[i] == sep,
    ensures
        split_spec(s, sep)[0] == s.take(i),
        i == s.len() ==> split_spec(s, sep).len() == 1,
        split_spec(s, sep).len() > 0,
    decreases s.len(),
{
    lemma_split_nonempty(s, sep);
    if s.len() > 0 {
        let rest = s.drop_last();
        lemma_split_nonempty(rest, sep);
        if i == s.len() {
            split_first_piece(rest, sep, i - 1);
            assert(rest.take(i - 1).push(s.last()) =~= s.take(i));
        } else if i == s.len() - 1 {
            split_first_piece(rest, sep, i);
            assert(rest.take(i) =~= s.take(i));
        } else {
            split_first_piece(rest, sep, i);
            assert(rest.take(i) =~= s.take(i));
            if split_spec(rest, sep).len() == 1 {
                lemma_split_counts(rest, sep, i);
            }
        }
    } else {
        assert(s.take(i) =~= Seq::<char>::empty());
    }
}

proof fn lemma_split_counts(s: Seq<char>, sep: char, i: int)
    requires
        0 <= i < s.len(),
        s[i] == sep,
    ensures
        split_spec(s, sep).len() > 1,
    decreases s.len(),
{
    lemma_split_nonempty(s.drop_last(), sep);
    if i < s.len() - 1 {
        lemma_split_counts(s.drop_last(), sep, i);
    }
}

/// No piece of a split text holds the separator.
pub proof fn split_pieces_lack_separator(s: Seq<char>, sep: char)
    ensures
        forall|i: int, j: int|
            0 <= i < split_spec(s, sep).len() && 0 <= j < split_spec(s, sep)[i].len()
                ==> #[trigger] split_spec(s, sep)[i][j] != sep,
    decreases s.len(),
{
    if s.len() > 0 {
        split_pieces_lack_separator(s.drop_last(), sep);
        lemma_split_nonempty(s.drop_last(), sep);
        let before = split_spec(s.drop_last(), sep);
        let after = split_spec(s, sep);
        assert forall|i: int, j: int|
            0 <= i < after.len() && 0 <= j < after[i].len() implies #[trigger] after[i][j] != sep by {
            if i < before.len() && j < before[i].len() {
                assert(before[i][j] != sep);
            }
        }
    }
}

/// White space at the end of a text does not survive trimming.
pub proof fn trim_drops_last_white(s: Seq<char>, c: char)
    requires
        is_white(c),
    ensures
        trimmed(s.push(c)) == trimmed(s),
{
    lemma_trim_start_push(s, c);
    let start = trim_start_spec(s);
    if start.len() > 0 {
        assert(start.push(c).drop_last() =~= start);
    } else {
        assert(start =~= Seq::<char>::empty());
    }
}

proof fn lemma_trim_start_push(s: Seq<char>, c: char)
    requires
        is_white(c),
    ensures
        trim_start_spec(s).len() > 0 ==> trim_start_spec(s.push(c)) == trim_start_spec(s).push(c),
        trim_start_spec(s).len() == 0 ==> trim_start_spec(s.push(c)).len() == 0,
    decreases s.len(),
{
    if s.len() == 0 {
        assert(s.push(c).drop_first() =~= Seq::<char>::empty());
        reveal_with_fuel(trim_start_spec, 2);
    } else if is_white(s[0]) {
        assert(s.push(c).drop_first() =~= s.drop_first().push(c));
        lemma_trim_start_push(s.drop_first(), c);
    }
}

/// Whether `c` is one of the ten ASCII digits.
pub open spec fn is_digit(c: char) -> bool {
    '0' <= c <= '9'
}

/// Whether every character is an ASCII digit.
pub open spec fn all_digits(s: Seq<char>) -> bool {
    forall|i: int| 0 <= i < s.len() ==> is_digit(#[trigger] s[i])
}

/// The number that a row of ASCII digits writes in base ten.
pub open spec fn digits_value(s: Seq<char>) -> nat
    decreases s.len(),
{
    if s.len() == 0 {
        0
    } else {
        digits_value(s.drop_last()) * 10 + (s.last() as u32 - '0' as u32) as nat
    }
}

/// The digit that writes `n`, for `n` under ten.
pub open spec fn digit_char(n: nat) -> char {
    ('0' as u32 + n) as u32 as char
}

/// The decimal digits of a number.
pub open spec fn decimal(n: nat) -> Seq<char>
    decreases n,
{
    if n < 10 {
        seq![digit_char(n)]
    } else {
        decimal(n / 10).push(digit_char(n % 10))
    }
}

/// The decimal digits of a number, with a sign where it is negative.
pub open spec fn signed_decimal(n: int) -> Seq<char> {
    if n < 0 {
        seq!['-'] + decimal((-n) as nat)
    } else {
        decimal(n as nat)
    }
}

/// A number is what its decimal digits write.
pub proof fn decimal_reads_back(n: nat)
    ensures
        all_digits(decimal(n)),
        decimal(n).len() > 0,
        digits_value(decimal(n)) == n,
    decreases n,
{
    if n < 10 {
        reveal_with_fuel(digits_value, 2);
        assert(decimal(n).drop_last() == Seq::<char>::empty());
    } else {
        decimal_reads_back(n / 10);
        assert(decimal(n).drop_last() == decimal(n / 10));
        assert forall|i: int| 0 <= i < decimal(n).len() implies is_digit(
            #[trigger] decimal(n)[i],
        ) by {
            if i < decimal(n).len() - 1 {
                assert(decimal(n)[i] == decimal(n / 10)[i]);
            }
        }
    }
}

/// The decimal digits of a number, as `u64::to_string` gives them.
pub fn u64_text(n: u64) -> (result: String)
    ensures
        result@ == decimal(n as nat),
    decreases n,
{
    let digit: char = ((n % 10) as u8 + 48) as char;
    if n < 10 {
        let mut result = String::new();
        result.push(digit);
        result
    } else {
        let mut result = u64_text(n / 10);
        result.push(digit);
        result
    }
}

/// The decimal digits of a number, with a sign where it is negative.
pub fn i64_text(n: i64) -> (result: String)
    ensures
        result@ == signed_decimal(n as int),
{
    if n >= 0 {
        u64_text(n as u64)
    } else {
        let size: u64 = (-(n + 1)) as u64 + 1;
        let mut result = String::new();
        result.push('-');
        result.append(u64_text(size).as_str());
        assert(result@ == seq!['-'] + decimal(size as nat));
        result
    }
}

/// What `str::parse::<u64>` reads: ASCII digits after an optional plus sign, in range.
pub open spec fn parse_u64_spec(s: Seq<char>) -> Option<u64> {
    let digits = if s.len() > 0 && s[0] == '+' {
        s.drop_first()
    } else {
        s
    };
    if digits.len() > 0 && all_digits(digits) && digits_value(digits) <= u64::MAX {
        Some(digits_value(digits) as u64)
    } else {
        None
    }
}

proof fn lemma_digits_value_grows(s: Seq<char>, i: int)
    requires
        0 <= i <= s.len(),
        all_digits(s),
    ensures
        digits_value(s.take(i)) <= digits_value(s),
    decreases s.len() - i,
{
    if i < s.len() {
        assert(s.take(i + 1).drop_last() == s.take(i));
        lemma_digits_value_grows(s, i + 1);
    } else {
        assert(s.take(i) == s);
    }
}

/// The number that the text writes: ASCII digits after an optional plus sign, in range.
pub fn parse_u64(text: &str) -> (result: Option<u64>)
    ensures
        result == parse_u64_spec(text@),
{
    let chars = chars_of(text);
    let mut i: usize = 0;
    if chars.len() > 0 && chars[0] == '+' {
        i = 1;
    }
    let ghost from = i as int;
    let ghost digits = text@.skip(from);
    assert(from == 0 ==> text@.skip(0) == text@);
    assert(from == 1 ==> text@.skip(1) == text@.drop_first());
    if i == chars.len() {
        return None;
    }
    let mut value: u64 = 0;
    assert(digits.take(0) == Seq::<char>::empty());
    while i < chars.len()
        invariant
            chars@ == text@,
            digits == text@.skip(from),
            0 <= from <= i <= chars@.len(),
            digits.len() > 0,
            parse_u64_spec(text@) == (if all_digits(digits) && digits_value(digits) <= u64::MAX {
                Some(digits_value(digits) as u64)
            } else {
                None
            }),
            all_digits(digits.take(i - from)),
            digits_value(digits.take(i - from)) == value,
        decreases chars@.len() - i,
    {
        let c = chars[i];
        assert(digits[i - from] == c);
        if c < '0' || c > '9' {
            assert(!is_digit(digits[i - from]));
            return None;
        }
        let d: u64 = (c as u32 - 48) as u64;
        let ghost next = digits.take(i - from + 1);
        assert(next.drop_last() == digits.take(i - from));
        assert(next.last() == c);
        assert(digits_value(next) == value * 10 + d);
        assert forall|k: int| 0 <= k < next.len() implies is_digit(#[trigger] next[k]) by {
            if k < i - from {
                assert(next[k] == digits.take(i - from)[k]);
            }
        }
        if value > u64::MAX / 10 || value * 10 > u64::MAX - d {
            proof {
                if all_digits(digits) {
                    lemma_digits_value_grows(digits, i - from + 1);
                }
            }
            return None;
        }
        value = value * 10 + d;
        i += 1;
    }
    assert(digits.take(i - from) == digits);
    Some(value)
}

/// `count` spaces.
pub open spec fn spaces(count: nat) -> Seq<char> {
    Seq::new(count, |i: int| ' ')
}

/// The text filled up with spaces on the right to `width` characters.
pub open spec fn padded(s: Seq<char>, width: nat) -> Seq<char> {
    if s.len() < width {
        s + spaces((width - s.len()) as nat)
    } else {
        s
    }
}

/// The text filled up with spaces on the right to `width` characters.
pub fn pad(text: &str, width: usize) -> (result: String)
    ensures
        result@ == padded(text@, width as nat),
{
    let mut count: usize = text.unicode_len();
    let mut result = text.to_owned();
    assert(text@ + spaces(0) == text@);
    while count < width
        invariant
            text@.len() <= count,
            count <= width || count == text@.len(),
            result@ == text@ + spaces((count - text@.len()) as nat),
        decreases width - count,
    {
        result.push(' ');
        count += 1;
        assert(result@ == text@ + spaces((count - text@.len()) as nat));
    }
    result
}

/// The text with every `c` replaced by `with`.
pub open spec fn replaced(s: Seq<char>, c: char, with: Seq<char>) -> Seq<char>
    decreases s.len(),
{
    if s.len() == 0 {
        s
    } else {
        replaced(s.drop_last(), c, with) + (if s.last() == c {
            with
        } else {
            seq![s.last()]
        })
    }
}

/// The text with every `c` replaced by `with`.
pub fn replace(text: &str, c: char, with: &str) -> (result: String)
    ensures
        result@ == replaced(text@, c, with@),
{
    let chars = chars_of(text);
    let mut result = String::new();
    let mut i: usize = 0;
    while i < chars.len()
        invariant
            i <= chars@.len(),
            chars@ == text@,
            result@ == replaced(text@.take(i as int), c, with@),
        decreases chars@.len() - i,
    {
        assert(text@.take(i + 1).drop_last() == text@.take(i as int));
        let ghost before = result@;
        if chars[i] == c {
            result.append(with);
        } else {
            result.push(chars[i]);
            assert(result@ == before + seq![chars@[i as int]]);
        }
        i += 1;
    }
    assert(text@.take(i as int) == text@);
    result
}

/// The text from the first `limit` characters, with nothing dropped where it is shorter.
pub open spec fn first_chars(s: Seq<char>, limit: nat) -> Seq<char> {
    if s.len() <= limit {
        s
    } else {
        s.take(limit as int)
    }
}

/// The first `limit` characters of the text, or all of it where it is shorter.
pub fn take_chars(text: &str, limit: usize) -> (result: String)
    ensures
        result@ == first_chars(text@, limit as nat),
{
    let chars = chars_of(text);
    if chars.len() <= limit {
        text.to_owned()
    } else {
        assert(text@.take(limit as int) == text@.subrange(0, limit as int));
        slice_text(&chars, 0, limit)
    }
}

/// The text without `prefix` at its start, as often as it stands there.
pub open spec fn without_prefixes(s: Seq<char>, prefix: Seq<char>) -> Seq<char>
    decreases s.len(),
{
    if prefix.len() > 0 && has_prefix(s, prefix) {
        without_prefixes(s.skip(prefix.len() as int), prefix)
    } else {
        s
    }
}

/// The text without `prefix` at its start, as often as it stands there.
pub fn strip_prefixes(text: &str, prefix: &str) -> (result: String)
    ensures
        result@ == without_prefixes(text@, prefix@),
{
    let mut rest = text.to_owned();
    if prefix.is_empty() {
        return rest;
    }
    loop
        invariant
            prefix@.len() > 0,
            without_prefixes(text@, prefix@) == without_prefixes(rest@, prefix@),
        decreases rest@.len(),
    {
        match strip_prefix(rest.as_str(), prefix) {
            Some(shorter) => {
                rest = shorter;
            },
            None => {
                return rest;
            },
        }
    }
}

/// The text without the characters `c` at its end.
pub open spec fn without_trailing(s: Seq<char>, c: char) -> Seq<char>
    decreases s.len(),
{
    if s.len() > 0 && s.last() == c {
        without_trailing(s.drop_last(), c)
    } else {
        s
    }
}

/// The text without the characters `c` at its end.
pub fn strip_trailing(text: &str, c: char) -> (result: String)
    ensures
        result@ == without_trailing(text@, c),
{
    let chars = chars_of(text);
    let mut to: usize = chars.len();
    assert(text@.take(to as int) =~= text@);
    while to > 0 && chars[to - 1] == c
        invariant
            to <= chars@.len(),
            chars@ == text@,
            without_trailing(text@, c) == without_trailing(text@.take(to as int), c),
        decreases to,
    {
        assert(text@.take(to as int).drop_last() =~= text@.take(to - 1));
        to -= 1;
    }
    assert(text@.take(to as int) =~= text@.subrange(0, to as int));
    slice_text(&chars, 0, to)
}

/// Whether the text holds the character `c`.
pub fn has_char(text: &str, c: char) -> (result: bool)
    ensures
        result == text@.contains(c),
{
    let chars = chars_of(text);
    let mut i: usize = 0;
    while i < chars.len()
        invariant
            i <= chars@.len(),
            chars@ == text@,
            forall|j: int| 0 <= j < i ==> text@[j] != c,
        decreases chars@.len() - i,
    {
        if chars[i] == c {
            assert(text@[i as int] == c);
            return true;
        }
        i += 1;
    }
    false
}

/// Whether the text holds white space.
pub open spec fn holds_white(s: Seq<char>) -> bool {
    exists|i: int| 0 <= i < s.len() && is_white(#[trigger] s[i])
}

/// Whether the text holds white space.
pub fn has_white(text: &str) -> (result: bool)
    ensures
        result == holds_white(text@),
{
    let chars = chars_of(text);
    let mut i: usize = 0;
    while i < chars.len()
        invariant
            i <= chars@.len(),
            chars@ == text@,
            forall|j: int| 0 <= j < i ==> !is_white(#[trigger] text@[j]),
        decreases chars@.len() - i,
    {
        if white(chars[i]) {
            assert(is_white(text@[i as int]));
            return true;
        }
        i += 1;
    }
    false
}

/// The texts that are not empty, in order.
pub open spec fn nonempty(items: Seq<Seq<char>>) -> Seq<Seq<char>>
    decreases items.len(),
{
    if items.len() == 0 {
        items
    } else {
        let before = nonempty(items.drop_last());
        if items.last().len() > 0 {
            before.push(items.last())
        } else {
            before
        }
    }
}

/// The texts that are not empty, in order.
pub fn keep_nonempty(items: &Vec<String>) -> (result: Vec<String>)
    ensures
        views(result@) == nonempty(views(items@)),
{
    let ghost all = views(items@);
    let mut result: Vec<String> = Vec::new();
    let mut i: usize = 0;
    assert(views(result@) =~= nonempty(all.take(0)));
    while i < items.len()
        invariant
            i <= items@.len(),
            all == views(items@),
            views(result@) == nonempty(all.take(i as int)),
        decreases items@.len() - i,
    {
        proof {
            take_next(all, i as int);
        }
        let ghost before = result@;
        if !items[i].as_str().is_empty() {
            let item = items[i].clone();
            result.push(item);
            assert(views(result@) =~= views(before).push(item@));
        }
        i += 1;
    }
    assert(all.take(i as int) =~= all);
    result
}

/// Whether a list of strings holds a text.
pub fn list_has(items: &Vec<String>, wanted: &str) -> (result: bool)
    ensures
        result == views(items@).contains(wanted@),
{
    let mut i: usize = 0;
    while i < items.len()
        invariant
            i <= items@.len(),
            forall|j: int| 0 <= j < i ==> views(items@)[j] != wanted@,
        decreases items@.len() - i,
    {
        if same(items[i].as_str(), wanted) {
            assert(views(items@)[i as int] == wanted@);
            return true;
        }
        i += 1;
    }
    false
}

/// The first position from `i` on at which `needle` stands in `hay`.
pub open spec fn find_from(hay: Seq<char>, needle: Seq<char>, i: int) -> Option<int>
    decreases hay.len() + 1 - i,
{
    if i < 0 || i + needle.len() > hay.len() {
        None
    } else if part_at(hay, needle, i) {
        Some(i)
    } else {
        find_from(hay, needle, i + 1)
    }
}

/// The first position at which `needle` stands in the text.
pub fn find(text: &str, needle: &str) -> (result: Option<usize>)
    ensures
        result matches Some(i) ==> find_from(text@, needle@, 0) == Some(i as int) && i
            + needle@.len() <= text@.len(),
        result is None ==> find_from(text@, needle@, 0) is None,
{
    let a = chars_of(text);
    let b = chars_of(needle);
    if b.len() > a.len() {
        return None;
    }
    let last: usize = a.len() - b.len();
    let mut i: usize = 0;
    loop
        invariant
            a@ == text@,
            b@ == needle@,
            last + b@.len() == a@.len(),
            i <= last,
            find_from(text@, needle@, 0) == find_from(text@, needle@, i as int),
        decreases last - i,
    {
        if matches_at(&a, &b, i) {
            assert(part_at(text@, needle@, i as int));
            return Some(i);
        }
        assert(find_from(text@, needle@, i as int) == find_from(text@, needle@, i + 1));
        if i == last {
            return None;
        }
        i += 1;
    }
}

/// What stands behind the first `key` in a text, where it stands there.
pub open spec fn behind(s: Seq<char>, key: Seq<char>) -> Option<Seq<char>> {
    match find_from(s, key, 0) {
        Some(i) => Some(s.skip(i + key.len())),
        None => None,
    }
}

/// What stands behind the first `key` in the text, where it stands there.
pub fn after_first(text: &str, key: &str) -> (result: Option<String>)
    ensures
        result matches Some(rest) ==> behind(text@, key@) == Some(rest@),
        result is None ==> behind(text@, key@) is None,
{
    match find(text, key) {
        Some(i) => {
            let chars = chars_of(text);
            let n: usize = chars_of(key).len();
            assert(text@.skip(i + n) =~= text@.subrange(i + n, text@.len() as int));
            let total: usize = chars.len();
            Some(slice_text(&chars, i + n, total))
        },
        None => None,
    }
}

/// The text up to the first of two characters.
pub open spec fn until(s: Seq<char>, a: char, b: char) -> Seq<char>
    decreases s.len(),
{
    if s.len() == 0 || s[0] == a || s[0] == b {
        Seq::empty()
    } else {
        seq![s[0]] + until(s.drop_first(), a, b)
    }
}

/// The text up to the first of two characters.
pub fn take_until(text: &str, a: char, b: char) -> (result: String)
    ensures
        result@ == until(text@, a, b),
{
    let chars = chars_of(text);
    let mut i: usize = 0;
    assert(text@.skip(0) =~= text@);
    assert(text@.take(0) + until(text@, a, b) =~= until(text@, a, b));
    while i < chars.len() && chars[i] != a && chars[i] != b
        invariant
            i <= chars@.len(),
            chars@ == text@,
            until(text@, a, b) == text@.take(i as int) + until(text@.skip(i as int), a, b),
        decreases chars@.len() - i,
    {
        let ghost rest = text@.skip(i as int);
        assert(rest.drop_first() =~= text@.skip(i + 1));
        assert(text@.take(i as int) + (seq![rest[0]] + until(text@.skip(i + 1), a, b))
            =~= text@.take(i + 1) + until(text@.skip(i + 1), a, b));
        i += 1;
    }
    assert(until(text@, a, b) =~= text@.take(i as int));
    assert(text@.take(i as int) =~= text@.subrange(0, i as int));
    slice_text(&chars, 0, i)
}

/// An equal optional text of its own.
pub fn copy_opt(value: &Option<String>) -> (result: Option<String>)
    ensures
        result == *value,
{
    match value {
        Some(s) => Some(s.clone()),
        None => None,
    }
}

/// Two texts one after the other.
pub fn cat2(a: &str, b: &str) -> (result: String)
    ensures
        result@ == a@ + b@,
{
    let mut result = a.to_owned();
    result.append(b);
    result
}

/// Three texts one after the other.
pub fn cat3(a: &str, b: &str, c: &str) -> (result: String)
    ensures
        result@ == a@ + b@ + c@,
{
    let mut result = a.to_owned();
    result.append(b);
    result.append(c);
    result
}

/// Four texts one after the other.
pub fn cat4(a: &str, b: &str, c: &str, d: &str) -> (result: String)
    ensures
        result@ == a@ + b@ + c@ + d@,
{
    let mut result = a.to_owned();
    result.append(b);
    result.append(c);
    result.append(d);
    result
}

/// Five texts one after the other.
pub fn cat5(a: &str, b: &str, c: &str, d: &str, e: &str) -> (result: String)
    ensures
        result@ == a@ + b@ + c@ + d@ + e@,
{
    let mut result = a.to_owned();
    result.append(b);
    result.append(c);
    result.append(d);
    result.append(e);
    result
}

/// Six texts one after the other.
pub fn cat6(a: &str, b: &str, c: &str, d: &str, e: &str, f: &str) -> (result: String)
    ensures
        result@ == a@ + b@ + c@ + d@ + e@ + f@,
{
    let mut result = a.to_owned();
    result.append(b);
    result.append(c);
    result.append(d);
    result.append(e);
    result.append(f);
    result
}

/// Seven texts one after the other.
pub fn cat7(a: &str, b: &str, c: &str, d: &str, e: &str, f: &str, g: &str) -> (result: String)
    ensures
        result@ == a@ + b@ + c@ + d@ + e@ + f@ + g@,
{
    let mut result = a.to_owned();
    result.append(b);
    result.append(c);
    result.append(d);
    result.append(e);
    result.append(f);
    result.append(g);
    result
}

/// Eight texts one after the other.
pub fn cat8(a: &str, b: &str, c: &str, d: &str, e: &str, f: &str, g: &str, h: &str) -> (result: String)
    ensures
        result@ == a@ + b@ + c@ + d@ + e@ + f@ + g@ + h@,
{
    let mut result = a.to_owned();
    result.append(b);
    result.append(c);
    result.append(d);
    result.append(e);
    result.append(f);
    result.append(g);
    result.append(h);
    result
}

/// Nine texts one after the other.
pub fn cat9(a: &str, b: &str, c: &str, d: &str, e: &str, f: &str, g: &str, h: &str, i: &str) -> (result: String)
    ensures
        result@ == a@ + b@ + c@ + d@ + e@ + f@ + g@ + h@ + i@,
{
    let mut result = a.to_owned();
    result.append(b);
    result.append(c);
    result.append(d);
    result.append(e);
    result.append(f);
    result.append(g);
    result.append(h);
    result.append(i);
    result
}

/// Adds a text at the end of a list.
pub fn push_text(items: &mut Vec<String>, item: String)
    ensures
        views(final(items)@) == views(old(items)@) + seq![item@],
        views(final(items)@) == views(old(items)@).push(item@),
{
    items.push(item);
    assert(views(items@) =~= views(old(items)@) + seq![item@]);
    assert(views(items@) =~= views(old(items)@).push(item@));
}

/// Adds texts at the end of a list.
pub fn push_texts(items: &mut Vec<String>, more: Vec<String>)
    ensures
        views(final(items)@) == views(old(items)@) + views(more@),
{
    let ghost start = views(items@);
    let ghost all = views(more@);
    let mut i: usize = 0;
    assert(start + all.take(0) =~= start);
    while i < more.len()
        invariant
            i <= more@.len(),
            all == views(more@),
            views(items@) == start + all.take(i as int),
        decreases more@.len() - i,
    {
        push_text(items, more[i].clone());
        proof {
            take_next(all, i as int);
        }
        assert(start + all.take(i as int).push(all[i as int]) =~= (start + all.take(i as int)).push(
            all[i as int],
        ));
        i += 1;
    }
    assert(all.take(i as int) =~= all);
}

/// A line without the carriage return before its line feed.
pub open spec fn without_return(line: Seq<char>) -> Seq<char> {
    if line.len() > 0 && line.last() == '\r' {
        line.drop_last()
    } else {
        line
    }
}

/// The lines of a text: each ends with a line feed, or with a carriage return and a line feed,
/// and the last needs no end.
pub open spec fn line_list(s: Seq<char>) -> Seq<Seq<char>> {
    let pieces = split_spec(s, '\n');
    let ended = pieces.drop_last().map_values(|line: Seq<char>| without_return(line));
    if pieces.last().len() == 0 {
        ended
    } else {
        ended.push(pieces.last())
    }
}

/// The lines of a text.
pub fn lines(text: &str) -> (result: Vec<String>)
    ensures
        views(result@) == line_list(text@),
{
    let pieces = split(text, '\n');
    let ghost all = split_spec(text@, '\n');
    let ghost ended = all.drop_last().map_values(|line: Seq<char>| without_return(line));
    let last: usize = pieces.len() - 1;
    let mut result: Vec<String> = Vec::new();
    let mut i: usize = 0;
    assert(views(result@) =~= ended.take(0));
    while i < last
        invariant
            i <= last,
            last == pieces@.len() - 1,
            views(pieces@) == all,
            ended == all.drop_last().map_values(|line: Seq<char>| without_return(line)),
            views(result@) == ended.take(i as int),
        decreases last - i,
    {
        assert(all[i as int] == pieces@[i as int]@);
        let line = match strip_suffix(pieces[i].as_str(), "\r") {
            Some(rest) => rest,
            None => pieces[i].clone(),
        };
        proof {
            reveal_strlit("\r");
            let piece = pieces@[i as int]@;
            assert("\r"@ =~= seq!['\r']);
            if piece.len() > 0 {
                assert(piece.skip(piece.len() - 1) =~= seq![piece.last()]);
                if piece.last() != '\r' {
                    assert(seq![piece.last()][0] != seq!['\r'][0]);
                }
            }
            assert(line@ =~= without_return(piece));
            take_next(ended, i as int);
        }
        push_text(&mut result, line);
        i += 1;
    }
    assert(ended.take(i as int) =~= ended);
    if pieces[last].as_str().is_empty() {
        assert(views(pieces@)[last as int].len() == 0);
    } else {
        assert(views(pieces@)[last as int].len() > 0);
        push_text(&mut result, pieces[last].clone());
    }
    result
}

/// Lines, each with its end.
pub open spec fn ended_lines(lines: Seq<Seq<char>>) -> Seq<char>
    decreases lines.len(),
{
    if lines.len() == 0 {
        Seq::empty()
    } else {
        ended_lines(lines.drop_last()) + lines.last() + "\n"@
    }
}

/// Lines, each with its end.
pub fn end_lines(lines: &Vec<String>) -> (result: String)
    ensures
        result@ == ended_lines(views(lines@)),
{
    let ghost all = views(lines@);
    let mut result = String::new();
    let mut i: usize = 0;
    assert(ended_lines(all.take(0)) =~= Seq::empty());
    while i < lines.len()
        invariant
            i <= lines@.len(),
            all == views(lines@),
            result@ == ended_lines(all.take(i as int)),
        decreases lines@.len() - i,
    {
        result.append(lines[i].as_str());
        result.append("\n");
        proof {
            take_next(all, i as int);
            assert(all.take(i + 1).drop_last() =~= all.take(i as int));
        }
        i += 1;
    }
    assert(all.take(i as int) =~= all);
    result
}

/// Every text with the same text before it.
pub open spec fn prefixed(lines: Seq<Seq<char>>, prefix: Seq<char>) -> Seq<Seq<char>> {
    lines.map_values(|line: Seq<char>| prefix + line)
}

/// Every text with the same text before it.
pub fn prefix_all(lines: &Vec<String>, prefix: &str) -> (result: Vec<String>)
    ensures
        views(result@) == prefixed(views(lines@), prefix@),
{
    let ghost all = prefixed(views(lines@), prefix@);
    let mut result: Vec<String> = Vec::new();
    let mut i: usize = 0;
    assert(views(result@) =~= all.take(0));
    while i < lines.len()
        invariant
            i <= lines@.len(),
            all == prefixed(views(lines@), prefix@),
            views(result@) == all.take(i as int),
        decreases lines@.len() - i,
    {
        push_text(&mut result, cat2(prefix, lines[i].as_str()));
        proof {
            take_next(all, i as int);
        }
        i += 1;
    }
    assert(all.take(i as int) =~= all);
    result
}

/// A text pushed to the right of `width` columns.
pub open spec fn right_aligned(s: Seq<char>, width: nat) -> Seq<char> {
    if s.len() >= width {
        s
    } else {
        spaces((width - s.len()) as nat) + s
    }
}

/// A text pushed to the right of `width` columns.
pub fn align_right(text: &str, width: usize) -> (result: String)
    ensures
        result@ == right_aligned(text@, width as nat),
{
    let n: usize = text.unicode_len();
    if n >= width {
        return text.to_owned();
    }
    let gap = pad("", width - n);
    proof {
        reveal_strlit("");
        assert(gap@ =~= spaces((width - n) as nat));
    }
    cat2(gap.as_str(), text)
}

/// The number of bytes that write a text.
pub open spec fn byte_len(s: Seq<char>) -> usize {
    encode_utf8(s).len() as usize
}

/// The largest of some numbers, or `least` where none is larger.
pub open spec fn widest(cells: Seq<usize>, least: usize) -> usize
    decreases cells.len(),
{
    if cells.len() == 0 {
        least
    } else {
        let rest = widest(cells.drop_last(), least);
        if cells.last() > rest {
            cells.last()
        } else {
            rest
        }
    }
}

/// The largest of some numbers, or `least` where none is larger.
pub fn max_of(cells: &Vec<usize>, least: usize) -> (result: usize)
    ensures
        result == widest(cells@, least),
{
    let mut best: usize = least;
    let mut i: usize = 0;
    assert(cells@.take(0) =~= Seq::empty());
    while i < cells.len()
        invariant
            i <= cells@.len(),
            best == widest(cells@.take(i as int), least),
        decreases cells@.len() - i,
    {
        if cells[i] > best {
            best = cells[i];
        }
        assert(cells@.take(i + 1).drop_last() =~= cells@.take(i as int));
        i += 1;
    }
    assert(cells@.take(i as int) =~= cells@);
    best
}

} // verus!
