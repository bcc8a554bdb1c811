//! Keys and IDs that go into a URL, and the encoding of what goes into its query.

use crate::api::{ApiError, ErrorView};
use crate::text;
use vstd::prelude::*;
use vstd::utf8::*;

verus! {

broadcast use vstd::string::group_string_axioms;

/// Whether `c` is an ASCII capital.
pub open spec fn is_upper(c: char) -> bool {
    'A' <= c <= 'Z'
}

/// Whether the dash at `dash` parts a project key from an issue number.
pub open spec fn key_parts_at(key: Seq<char>, dash: int) -> bool {
    &&& 0 < dash < key.len() - 1
    &&& key[dash] == '-'
    &&& is_upper(key[0])
    &&& forall|i: int| 0 <= i < dash ==> is_upper(#[trigger] key[i]) || text::is_digit(key[i])
    &&& forall|i: int| dash < i < key.len() ==> text::is_digit(#[trigger] key[i])
}

/// Whether a key has the form `PROJECT-123`: a capital, then capitals and digits, a dash, and
/// digits.
pub open spec fn is_issue_key(key: Seq<char>) -> bool {
    exists|dash: int| key_parts_at(key, dash)
}

/// The error for a key of another form.
pub open spec fn bad_key(key: Seq<char>) -> ErrorView {
    ErrorView::InvalidInput(
        "Invalid issue key '"@ + key + "'. Expected format: PROJECT-123"@,
    )
}

fn upper(c: char) -> (result: bool)
    ensures
        result == is_upper(c),
{
    c >= 'A' && c <= 'Z'
}

fn digit(c: char) -> (result: bool)
    ensures
        result == text::is_digit(c),
{
    c >= '0' && c <= '9'
}

/// Whether the characters from `from` on are digits.
fn digits_from(chars: &Vec<char>, from: usize) -> (result: bool)
    requires
        from <= chars@.len(),
    ensures
        result == (forall|i: int| from <= i < chars@.len() ==> text::is_digit(#[trigger] chars@[i])),
{
    let mut i: usize = from;
    while i < chars.len()
        invariant
            from <= i <= chars@.len(),
            forall|j: int| from <= j < i ==> text::is_digit(#[trigger] chars@[j]),
        decreases chars@.len() - i,
    {
        if !digit(chars[i]) {
            return false;
        }
        i += 1;
    }
    true
}

fn issue_key_ok(key: &str) -> (result: bool)
    ensures
        result == is_issue_key(key@),
{
    let chars = text::chars_of(key);
    if chars.len() == 0 || !upper(chars[0]) {
        return false;
    }
    let mut i: usize = 1;
    while i < chars.len() && (upper(chars[i]) || digit(chars[i]))
        invariant
            1 <= i <= chars@.len(),
            chars@ == key@,
            is_upper(key@[0]),
            forall|j: int| 0 <= j < i ==> is_upper(#[trigger] key@[j]) || text::is_digit(key@[j]),
        decreases chars@.len() - i,
    {
        i += 1;
    }
    let ok = i < chars.len() && i + 1 < chars.len() && chars[i] == '-' && digits_from(&chars, i + 1);
    proof {
        if ok {
            assert(key_parts_at(key@, i as int));
        } else if is_issue_key(key@) {
            let dash = choose|dash: int| key_parts_at(key@, dash);
            assert(!is_upper('-') && !text::is_digit('-'));
            assert(dash >= i) by {
                if dash < i {
                    assert(is_upper(key@[dash]) || text::is_digit(key@[dash]));
                }
            }
            assert(dash <= i) by {
                if i < dash {
                    assert(is_upper(key@[i as int]) || text::is_digit(key@[i as int]));
                }
            }
            assert(false);
        }
    }
    ok
}

/// Validate that a key matches the `[A-Z][A-Z0-9]*-[0-9]+` format
/// before using it in a URL path.
///
/// Jira project keys start with an uppercase letter and may contain further
/// uppercase letters or digits (e.g. `ABC2-123` is valid).
pub fn validate_issue_key(key: &str) -> (result: Result<(), ApiError>)
    ensures
        result is Ok <==> is_issue_key(key@),
        result matches Err(e) ==> e@ == bad_key(key@),
{
    if issue_key_ok(key) {
        Ok(())
    } else {
        Err(
            ApiError::InvalidInput(
                text::cat3("Invalid issue key '", key, "'. Expected format: PROJECT-123"),
            ),
        )
    }
}

/// Whether an attachment ID is a number.
pub open spec fn is_attachment_id(id: Seq<char>) -> bool {
    id.len() > 0 && text::all_digits(id)
}

/// The error for an attachment ID that is no number.
pub open spec fn bad_attachment_id(id: Seq<char>) -> ErrorView {
    ErrorView::InvalidInput("Invalid attachment ID '"@ + id + "'. Expected a number."@)
}

/// Validate that an attachment ID is numeric before using it in a URL path.
pub fn validate_attachment_id(id: &str) -> (result: Result<(), ApiError>)
    ensures
        result is Ok <==> is_attachment_id(id@),
        result matches Err(e) ==> e@ == bad_attachment_id(id@),
{
    let chars = text::chars_of(id);
    if chars.len() > 0 && digits_from(&chars, 0) {
        Ok(())
    } else {
        Err(
            ApiError::InvalidInput(
                text::cat3("Invalid attachment ID '", id, "'. Expected a number."),
            ),
        )
    }
}

/// A valid key or ID cannot leave the path segment it is put into: it holds no slash, no
/// question mark, no hash and no percent sign.
pub proof fn valid_segments_are_plain(s: Seq<char>, i: int)
    requires
        is_issue_key(s) || is_attachment_id(s),
        0 <= i < s.len(),
    ensures
        s[i] != '/' && s[i] != '?' && s[i] != '#' && s[i] != '%' && s[i] != '.',
{
    if is_issue_key(s) {
        let dash = choose|dash: int| key_parts_at(s, dash);
        if i < dash {
            assert(is_upper(s[i]) || text::is_digit(s[i]));
        } else if i > dash {
            assert(text::is_digit(s[i]));
        }
    } else {
        assert(text::is_digit(s[i]));
    }
}

/// Whether a byte stands for itself in a URL query.
pub open spec fn is_unreserved(b: u8) -> bool {
    ||| 65 <= b <= 90
    ||| 97 <= b <= 122
    ||| 48 <= b <= 57
    ||| b == 45
    ||| b == 95
    ||| b == 46
    ||| b == 126
}

/// The upper-case hexadecimal digit of a number under sixteen.
pub open spec fn hex_digit(n: int) -> char {
    if n < 10 {
        (48 + n) as u8 as char
    } else {
        (55 + n) as u8 as char
    }
}

/// How one byte is written in a URL query.
pub open spec fn percent_byte(b: u8) -> Seq<char> {
    if is_unreserved(b) {
        seq![b as char]
    } else {
        seq!['%', hex_digit(b as int / 16), hex_digit(b as int % 16)]
    }
}

/// How bytes are written in a URL query.
pub open spec fn percent_encoded(bytes: Seq<u8>) -> Seq<char>
    decreases bytes.len(),
{
    if bytes.len() == 0 {
        Seq::empty()
    } else {
        percent_encoded(bytes.drop_last()) + percent_byte(bytes.last())
    }
}

fn hex(n: u8) -> (result: char)
    requires
        n < 16,
    ensures
        result == hex_digit(n as int),
{
    if n < 10 {
        (48 + n) as char
    } else {
        (55 + n) as char
    }
}

/// Percent-encode a string for use in a URL query parameter.
///
/// Uses `%20` for spaces (not `+`) per standard URL encoding.
pub fn percent_encode(s: &str) -> (result: String)
    ensures
        result@ == percent_encoded(encode_utf8(s@)),
{
    let bytes = s.as_bytes();
    let mut encoded = String::new();
    let mut i: usize = 0;
    while i < bytes.len()
        invariant
            i <= bytes@.len(),
            encoded@ == percent_encoded(bytes@.take(i as int)),
        decreases bytes@.len() - i,
    {
        let b = bytes[i];
        let ghost before = encoded@;
        proof {
            text::take_next(bytes@, i as int);
        }
        if (b >= 65 && b <= 90) || (b >= 97 && b <= 122) || (b >= 48 && b <= 57) || b == 45 || b
            == 95 || b == 46 || b == 126 {
            encoded.push(b as char);
            assert(encoded@ =~= before + percent_byte(b));
        } else {
            encoded.push('%');
            encoded.push(hex(b / 16));
            encoded.push(hex(b % 16));
            assert(encoded@ =~= before + percent_byte(b));
        }
        i += 1;
    }
    assert(bytes@.take(i as int) =~= bytes@);
    encoded
}

/// The number a hexadecimal digit stands for.
pub open spec fn hex_value(c: char) -> int {
    if '0' <= c <= '9' {
        c as int - 48
    } else {
        c as int - 55
    }
}

/// The bytes that a percent-encoded text stands for.
pub open spec fn percent_decoded(s: Seq<char>) -> Seq<u8>
    decreases s.len(),
{
    if s.len() == 0 {
        Seq::empty()
    } else if s.len() >= 3 && s[s.len() - 3] == '%' {
        percent_decoded(s.take(s.len() - 3)).push(
            (hex_value(s[s.len() - 2]) * 16 + hex_value(s.last())) as u8,
        )
    } else {
        percent_decoded(s.drop_last()).push(s.last() as u8)
    }
}

/// Every character of an encoded query is unreserved, a percent sign, or a hexadecimal digit
/// behind one; so the value cannot end the parameter or start another.
pub proof fn encoded_query_is_plain(bytes: Seq<u8>, i: int)
    requires
        0 <= i < percent_encoded(bytes).len(),
    ensures
        percent_encoded(bytes)[i] == '%' || (percent_encoded(bytes)[i] as int) < 128
            && is_unreserved(percent_encoded(bytes)[i] as u8),
    decreases bytes.len(),
{
    if bytes.len() > 0 {
        let before = percent_encoded(bytes.drop_last());
        let b = bytes.last();
        if i < before.len() {
            encoded_query_is_plain(bytes.drop_last(), i);
        } else {
            let k = i - before.len();
            assert(percent_encoded(bytes)[i] == percent_byte(b)[k]);
            assert(0 <= b as int / 16 < 16 && 0 <= b as int % 16 < 16);
        }
    }
}

proof fn lemma_percent_signs_are_followed(bytes: Seq<u8>)
    ensures
        forall|p: int|
            0 <= p < percent_encoded(bytes).len() && #[trigger] percent_encoded(bytes)[p] == '%'
                ==> p + 2 < percent_encoded(bytes).len(),
    decreases bytes.len(),
{
    if bytes.len() > 0 {
        let before = percent_encoded(bytes.drop_last());
        lemma_percent_signs_are_followed(bytes.drop_last());
        let b = bytes.last();
        let all = percent_encoded(bytes);
        assert forall|p: int| 0 <= p < all.len() && #[trigger] all[p] == '%' implies p + 2
            < all.len() by {
            if p < before.len() {
                assert(before[p] == '%');
            } else {
                assert(all[p] == percent_byte(b)[p - before.len()]);
                assert(0 <= b as int / 16 < 16 && 0 <= b as int % 16 < 16);
            }
        }
    }
}

/// What was encoded reads back as it was: no two texts share an encoding.
pub proof fn percent_encoding_reads_back(bytes: Seq<u8>)
    ensures
        percent_decoded(percent_encoded(bytes)) == bytes,
    decreases bytes.len(),
{
    if bytes.len() > 0 {
        let before = percent_encoded(bytes.drop_last());
        percent_encoding_reads_back(bytes.drop_last());
        lemma_percent_signs_are_followed(bytes.drop_last());
        let b = bytes.last();
        let all = percent_encoded(bytes);
        assert(bytes.drop_last().push(b) =~= bytes);
        if is_unreserved(b) {
            assert(all =~= before.push(b as char));
            assert(all.drop_last() =~= before);
            if all.len() >= 3 {
                assert(all[all.len() - 3] == before[before.len() - 2]);
            }
        } else {
            assert(all.take(all.len() - 3) =~= before);
            assert(0 <= b as int / 16 < 16 && 0 <= b as int % 16 < 16);
            assert(hex_value(hex_digit(b as int / 16)) == b as int / 16);
            assert(hex_value(hex_digit(b as int % 16)) == b as int % 16);
        }
    }
}

} // verus!
