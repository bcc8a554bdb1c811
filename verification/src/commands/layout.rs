//! How values are laid out for a terminal: widths, cuts, sizes, file names and colors.

use crate::json;
use crate::text;
use vstd::prelude::*;

verus! {

broadcast use vstd::string::group_string_axioms;

/// Minimum width to clamp narrow terminals to, so fixed columns (key, status,
/// assignee, type) still leave at least 20 characters for the summary.
pub const MIN_TERMINAL_WIDTH: usize = 60;

/// Fallback width used when neither the TTY nor `COLUMNS` advertises a size.
pub const DEFAULT_TERMINAL_WIDTH: usize = 120;

/// The width to draw for, of what the terminal says and what `COLUMNS` says: the terminal
/// first, never below the minimum; then `COLUMNS`, as it stands; then the default.
pub fn resolve_terminal_width(tty_width: Option<usize>, columns: Option<usize>) -> (result: usize)
    ensures
        tty_width matches Some(w) ==> result == if w > MIN_TERMINAL_WIDTH {
            w
        } else {
            MIN_TERMINAL_WIDTH
        },
        tty_width is None ==> (match columns {
            Some(c) => result == c,
            None => result == DEFAULT_TERMINAL_WIDTH,
        }),
{
    match tty_width {
        Some(w) => if w > MIN_TERMINAL_WIDTH {
            w
        } else {
            MIN_TERMINAL_WIDTH
        },
        None => match columns {
            Some(c) => c,
            None => DEFAULT_TERMINAL_WIDTH,
        },
    }
}

/// The number of columns that a value of `COLUMNS` means, where it is one.
pub open spec fn columns_of(value: Option<Seq<char>>) -> Option<usize> {
    match value {
        Some(v) => match text::parse_u64_spec(v) {
            Some(n) => if n <= usize::MAX {
                Some(n as usize)
            } else {
                None
            },
            None => None,
        },
        None => None,
    }
}

/// The width to draw for, of what the terminal says and how `COLUMNS` is set.
pub fn terminal_width(tty_width: Option<usize>, columns: Option<&str>) -> (result: usize)
    ensures
        result == match (tty_width, columns_of(json::opt_str_view(columns))) {
            (Some(w), _) => if w > MIN_TERMINAL_WIDTH {
                w
            } else {
                MIN_TERMINAL_WIDTH
            },
            (None, Some(c)) => c,
            (None, None) => DEFAULT_TERMINAL_WIDTH,
        },
{
    let parsed = match columns {
        Some(value) => match text::parse_u64(value) {
            Some(n) if n <= usize::MAX as u64 => Some(n as usize),
            _ => None,
        },
        None => None,
    };
    resolve_terminal_width(tty_width, parsed)
}

/// The first `max` characters, with `…` behind them where there are more.
pub open spec fn cut(s: Seq<char>, max: nat) -> Seq<char> {
    if s.len() <= max {
        s
    } else {
        s.take(max as int).push('…')
    }
}

/// Truncate a string to `max` characters (not bytes), appending `…` if cut.
pub fn truncate(s: &str, max: usize) -> (result: String)
    ensures
        result@ == cut(s@, max as nat),
{
    if s.unicode_len() <= max {
        s.to_owned()
    } else {
        let mut result = text::take_chars(s, max);
        result.push('…');
        result
    }
}

/// A cut text is at most one character longer than the limit, and starts as the text does.
pub proof fn cut_is_bounded(s: Seq<char>, max: nat)
    ensures
        cut(s, max).len() <= max + 1,
        s.len() <= max ==> cut(s, max) == s,
        forall|i: int| 0 <= i < max && i < s.len() ==> cut(s, max)[i] == s[i],
{
}

/// Shorten an ISO-8601 timestamp to just the date portion.
pub fn format_date(s: &str) -> (result: String)
    ensures
        result@ == text::first_chars(s@, 10),
{
    text::take_chars(s, 10)
}

/// The sum, or the largest number where the sum is larger.
pub open spec fn capped(n: int) -> usize {
    if n > usize::MAX {
        usize::MAX
    } else {
        n as usize
    }
}

/// Width of a table column: the widest cell, but never narrower than the
/// column header, plus a two-space gap.
pub open spec fn column(header: Seq<char>, cells: Seq<usize>) -> usize {
    capped(text::widest(cells, text::byte_len(header)) + 2)
}

/// Width of a table column: the widest cell, but never narrower than the
/// column header, plus a two-space gap.
pub fn col_width(header: &str, cells: &Vec<usize>) -> (result: usize)
    ensures
        result == column(header@, cells@),
{
    text::max_of(cells, header.len()).saturating_add(2)
}

/// The quotient rounded to the nearest integer, a tie to the even one.
pub open spec fn half_even(number: nat, by: nat) -> nat {
    let quotient = number / by;
    let twice = 2 * (number % by);
    if twice < by || (twice == by && quotient % 2 == 0) {
        quotient
    } else {
        quotient + 1
    }
}

fn divide_half_even(number: u128, by: u128) -> (result: u128)
    requires
        0 < by,
        number < 0x1_0000_0000_0000_0000_0000_0000,
        by < 0x1_0000_0000_0000_0000_0000_0000,
    ensures
        result == half_even(number as nat, by as nat),
        result <= number + 1,
{
    let quotient: u128 = number / by;
    let twice: u128 = 2 * (number % by);
    assert(quotient <= number) by (nonlinear_arith)
        requires
            quotient == number / by,
            0 < by,
    ;
    if twice < by || (twice == by && quotient % 2 == 0) {
        quotient
    } else {
        quotient + 1
    }
}

/// The distance between the integers near `n` that a double-precision number can hold.
pub open spec fn double_step(n: nat) -> nat
    decreases n,
{
    if n < 0x20_0000_0000_0000 {
        1
    } else {
        2 * double_step(n / 2)
    }
}

/// The double-precision number nearest to `n`, a tie to the one with an even significand.
pub open spec fn as_double(n: nat) -> nat {
    half_even(n, double_step(n)) * double_step(n)
}

proof fn lemma_step_bound(n: nat)
    requires
        n <= u64::MAX,
    ensures
        1 <= double_step(n) <= 0x1000,
{
    reveal_with_fuel(double_step, 13);
}

/// Counts in units of `scale` with one decimal: the tenths.
pub open spec fn tenths(bytes: nat, scale: nat) -> nat {
    half_even(as_double(bytes) * 10, scale)
}

/// A number of tenths, written with one decimal.
pub open spec fn one_decimal(tenths: nat) -> Seq<char> {
    text::decimal(tenths / 10) + "."@ + text::decimal(tenths % 10)
}

/// A byte count as a short human-readable size: whole bytes below a kibibyte, else one
/// decimal of the largest unit that it fills, up to gibibytes.
pub open spec fn size_text(bytes: nat) -> Seq<char> {
    if bytes < 0x400 {
        text::decimal(bytes) + " B"@
    } else if bytes < 0x10_0000 {
        one_decimal(tenths(bytes, 0x400)) + " KB"@
    } else if bytes < 0x4000_0000 {
        one_decimal(tenths(bytes, 0x10_0000)) + " MB"@
    } else {
        one_decimal(tenths(bytes, 0x4000_0000)) + " GB"@
    }
}

fn nearest_double(bytes: u64) -> (result: u128)
    ensures
        result == as_double(bytes as nat),
        result <= 0x2000_0000_0000_0000_0000,
{
    proof {
        lemma_step_bound(bytes as nat);
    }
    let mut rest: u64 = bytes;
    let mut step: u128 = 1;
    while rest >= 0x20_0000_0000_0000
        invariant
            double_step(bytes as nat) == step * double_step(rest as nat),
            1 <= step,
            1 <= double_step(rest as nat),
            double_step(bytes as nat) <= 0x1000,
        decreases rest,
    {
        let ghost lower = double_step(rest as nat / 2);
        assert(double_step(rest as nat) == 2 * lower);
        assert(step * (2 * lower) == (step * 2) * lower) by (nonlinear_arith);
        assert(1 <= lower) by {
            reveal_with_fuel(double_step, 2);
        }
        assert(step * 2 <= 0x1000) by (nonlinear_arith)
            requires
                (step * 2) * lower <= 0x1000,
                1 <= lower,
        ;
        step = step * 2;
        rest = rest / 2;
    }
    assert(step * 1 == step);
    let count = divide_half_even(bytes as u128, step);
    assert(count * step <= 0x1_0000_0000_0000_0001 * 0x1000) by (nonlinear_arith)
        requires
            count <= 0x1_0000_0000_0000_0000,
            step <= 0x1000,
    ;
    count * step
}

fn scaled(bytes: u64, scale: u128, unit: &str) -> (result: String)
    requires
        0 < scale <= 0x4000_0000,
    ensures
        result@ == one_decimal(tenths(bytes as nat, scale as nat)) + unit@,
{
    let value = nearest_double(bytes);
    let parts: u128 = divide_half_even(value * 10, scale);
    let whole = wide_text(parts / 10);
    let tenth = wide_text(parts % 10);
    text::cat4(whole.as_str(), ".", tenth.as_str(), unit)
}

/// A number in decimal.
pub fn wide_text(n: u128) -> (result: String)
    ensures
        result@ == text::decimal(n as nat),
    decreases n,
{
    if n <= 0xffff_ffff_ffff_ffff {
        return text::u64_text(n as u64);
    }
    let mut result = wide_text(n / 10);
    let last = text::u64_text((n % 10) as u64);
    result.append(last.as_str());
    proof {
        reveal_with_fuel(text::decimal, 2);
        assert(text::decimal((n % 10) as nat) =~= seq![text::digit_char((n % 10) as nat)]);
        assert(result@ =~= text::decimal((n / 10) as nat).push(text::digit_char((n % 10) as nat)));
    }
    result
}

/// Render a byte count as a short human-readable size.
pub fn format_size(bytes: u64) -> (result: String)
    ensures
        result@ == size_text(bytes as nat),
{
    if bytes < 0x400 {
        text::cat2(text::u64_text(bytes).as_str(), " B")
    } else if bytes < 0x10_0000 {
        scaled(bytes, 0x400, " KB")
    } else if bytes < 0x4000_0000 {
        scaled(bytes, 0x10_0000, " MB")
    } else {
        scaled(bytes, 0x4000_0000, " GB")
    }
}

/// Whether a character separates the parts of a path, on any system.
pub open spec fn is_separator(c: char) -> bool {
    c == '/' || c == '\\'
}

/// What stands behind the last separator.
pub open spec fn base_name(s: Seq<char>) -> Seq<char>
    decreases s.len(),
{
    if s.len() == 0 || is_separator(s.last()) {
        Seq::empty()
    } else {
        base_name(s.drop_last()).push(s.last())
    }
}

/// Whether a name can stand as one part of a path: it is not empty, names no directory and
/// no drive.
pub open spec fn usable_name(name: Seq<char>) -> bool {
    &&& name.len() > 0
    &&& name != "."@
    &&& name != ".."@
    &&& !name.contains(':')
}

/// Reduce a filename reported by Jira to a single path component, so a crafted
/// attachment name cannot write outside the target directory.
pub fn safe_file_name(filename: &str) -> (result: Option<String>)
    ensures
        match result {
            Some(name) => name@ == base_name(filename@) && usable_name(name@),
            None => !usable_name(base_name(filename@)),
        },
{
    let chars = text::chars_of(filename);
    let mut from: usize = chars.len();
    assert(chars@.subrange(from as int, chars@.len() as int) =~= Seq::empty());
    assert(chars@.take(from as int) =~= chars@);
    while from > 0 && chars[from - 1] != '/' && chars[from - 1] != '\\'
        invariant
            from <= chars@.len(),
            chars@ == filename@,
            base_name(filename@) == base_name(chars@.take(from as int)) + chars@.subrange(
                from as int,
                chars@.len() as int,
            ),
        decreases from,
    {
        proof {
            let front = chars@.take(from as int);
            assert(front.drop_last() =~= chars@.take(from - 1));
            assert(base_name(front) + chars@.subrange(from as int, chars@.len() as int)
                =~= base_name(front.drop_last()) + chars@.subrange(
                from - 1,
                chars@.len() as int,
            ));
        }
        from = from - 1;
    }
    assert(base_name(chars@.take(from as int)) =~= Seq::empty());
    let name = text::slice_text(&chars, from, chars.len());
    assert(name@ =~= base_name(filename@));
    if name.as_str().is_empty() || text::same(name.as_str(), ".") || text::same(name.as_str(), "..")
        || text::has_char(name.as_str(), ':') {
        None
    } else {
        Some(name)
    }
}

/// A file name taken from a report never leaves the directory it is written to: it holds no
/// separator and names no other directory.
pub proof fn base_name_stays_in_place(s: Seq<char>)
    ensures
        !base_name(s).contains('/'),
        !base_name(s).contains('\\'),
    decreases s.len(),
{
    if s.len() > 0 && !is_separator(s.last()) {
        let rest = base_name(s.drop_last());
        base_name_stays_in_place(s.drop_last());
        assert forall|i: int| 0 <= i < rest.push(s.last()).len() implies !is_separator(
            #[trigger] rest.push(s.last())[i],
        ) by {
            if i < rest.len() {
                assert(rest.contains(rest[i]));
            }
        }
    }
}

/// `owo_colors`' green: the text between the code that starts the color and the one that ends
/// it.
#[verifier::external_body]
pub(crate) fn green(shown: &str) -> (result: String)
    ensures
        result@ == "\x1b[32m"@ + shown@ + "\x1b[39m"@,
{
    owo_colors::OwoColorize::green(&shown).to_string()
}

/// `owo_colors`' yellow: the text between the code that starts the color and the one that ends
/// it.
#[verifier::external_body]
pub(crate) fn yellow(shown: &str) -> (result: String)
    ensures
        result@ == "\x1b[33m"@ + shown@ + "\x1b[39m"@,
{
    owo_colors::OwoColorize::yellow(&shown).to_string()
}

/// `owo_colors`' red: the text between the code that starts the color and the one that ends
/// it.
#[verifier::external_body]
pub(crate) fn red(shown: &str) -> (result: String)
    ensures
        result@ == "\x1b[31m"@ + shown@ + "\x1b[39m"@,
{
    owo_colors::OwoColorize::red(&shown).to_string()
}

/// `owo_colors`' bold: the text between the code that starts bold type and the one that ends
/// every style.
#[verifier::external_body]
pub(crate) fn bold(shown: &str) -> (result: String)
    ensures
        result@ == "\x1b[1m"@ + shown@ + "\x1b[0m"@,
{
    owo_colors::OwoColorize::bold(&shown).to_string()
}

/// `owo_colors`' dimmed: the text between the code that starts dim type and the one that ends
/// every style.
#[verifier::external_body]
pub(crate) fn dimmed(shown: &str) -> (result: String)
    ensures
        result@ == "\x1b[2m"@ + shown@ + "\x1b[0m"@,
{
    owo_colors::OwoColorize::dimmed(&shown).to_string()
}

/// A text dimmed where the terminal shows color.
pub open spec fn faint(s: Seq<char>, color: bool) -> Seq<char> {
    if color {
        "\x1b[2m"@ + s + "\x1b[0m"@
    } else {
        s
    }
}

/// The mark of success.
pub open spec fn ok_mark(color: bool) -> Seq<char> {
    if color {
        "\x1b[32m"@ + "✔"@ + "\x1b[39m"@
    } else {
        "✔"@
    }
}

/// The mark of failure.
pub open spec fn fail_mark(color: bool) -> Seq<char> {
    if color {
        "\x1b[31m"@ + "✖"@ + "\x1b[39m"@
    } else {
        "✖"@
    }
}

/// The mark of a question.
pub open spec fn question_mark(color: bool) -> Seq<char> {
    if color {
        "\x1b[1m"@ + ("\x1b[32m"@ + "?"@ + "\x1b[39m"@) + "\x1b[0m"@
    } else {
        "?"@
    }
}

/// A text dimmed where the terminal shows color.
pub fn sym_dim(shown: &str, color: bool) -> (result: String)
    ensures
        result@ == faint(shown@, color),
{
    if color {
        dimmed(shown)
    } else {
        shown.to_owned()
    }
}

/// The mark of success.
pub fn sym_ok(color: bool) -> (result: String)
    ensures
        result@ == ok_mark(color),
{
    if color {
        green("✔")
    } else {
        "✔".to_owned()
    }
}

/// The mark of failure.
pub fn sym_fail(color: bool) -> (result: String)
    ensures
        result@ == fail_mark(color),
{
    if color {
        red("✖")
    } else {
        "✖".to_owned()
    }
}

/// The mark of a question.
pub fn sym_q(color: bool) -> (result: String)
    ensures
        result@ == question_mark(color),
{
    if color {
        let lit = green("?");
        bold(lit.as_str())
    } else {
        "?".to_owned()
    }
}

/// A text in bold where the terminal shows color.
pub open spec fn emphasis(s: Seq<char>, color: bool) -> Seq<char> {
    if color {
        "\x1b[1m"@ + s + "\x1b[0m"@
    } else {
        s
    }
}

/// A text in yellow where the terminal shows color.
pub open spec fn highlight(s: Seq<char>, color: bool) -> Seq<char> {
    if color {
        "\x1b[33m"@ + s + "\x1b[39m"@
    } else {
        s
    }
}

/// A text in bold where the terminal shows color.
pub fn emphasize(shown: &str, color: bool) -> (result: String)
    ensures
        result@ == emphasis(shown@, color),
{
    if color {
        bold(shown)
    } else {
        shown.to_owned()
    }
}

/// A text in yellow where the terminal shows color.
pub fn highlighted(shown: &str, color: bool) -> (result: String)
    ensures
        result@ == highlight(shown@, color),
{
    if color {
        yellow(shown)
    } else {
        shown.to_owned()
    }
}

/// Whether a lowercased status says that the work is over.
pub open spec fn is_finished(lower: Seq<char>) -> bool {
    text::has_part(lower, "done"@) || text::has_part(lower, "closed"@) || text::has_part(
        lower,
        "resolved"@,
    )
}

/// Whether a lowercased status says that the work is going on.
pub open spec fn is_under_way(lower: Seq<char>) -> bool {
    text::has_part(lower, "progress"@) || text::has_part(lower, "review"@) || text::has_part(
        lower,
        "testing"@,
    )
}

/// Whether a lowercased status says that the work is stuck.
pub open spec fn is_stuck(lower: Seq<char>) -> bool {
    text::has_part(lower, "blocked"@) || text::has_part(lower, "impediment"@)
}

/// A text in the color of a lowercased status.
pub open spec fn status_color(lower: Seq<char>, display: Seq<char>) -> Seq<char> {
    if is_finished(lower) {
        "\x1b[32m"@ + display + "\x1b[39m"@
    } else if is_under_way(lower) {
        "\x1b[33m"@ + display + "\x1b[39m"@
    } else if is_stuck(lower) {
        "\x1b[31m"@ + display + "\x1b[39m"@
    } else {
        display
    }
}

/// A text in the color of a lowercased status.
pub fn color_for(lower: &str, display: &str) -> (result: String)
    ensures
        result@ == status_color(lower@, display@),
{
    if text::contains(lower, "done") || text::contains(lower, "closed") || text::contains(
        lower,
        "resolved",
    ) {
        green(display)
    } else if text::contains(lower, "progress") || text::contains(lower, "review")
        || text::contains(lower, "testing") {
        yellow(display)
    } else if text::contains(lower, "blocked") || text::contains(lower, "impediment") {
        red(display)
    } else {
        display.to_owned()
    }
}

/// Color-code a Jira status string for terminal output.
pub fn colorize_status(status: &str, display: &str) -> (result: String)
    ensures
        result@ == status_color(text::lowercase(status@), display@),
{
    let lower = text::to_lowercase(status);
    color_for(lower.as_str(), display)
}

} // verus!
