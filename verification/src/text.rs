//! Text helpers: the few string operations the rest of the crate builds on.

use convert_case::{Case, Casing};
use vstd::prelude::*;
use vstd::string::StrSliceExecFns;
use vstd::string::StringExecFns;

verus! {

/// What `convert_case` makes of `text` when asked for `Case::Title`: the words
/// of `text`, each capitalised, with a space between one word and the next. A word may
/// be empty, as between two separators that stand side by side.
pub uninterp spec fn title_case(text: Seq<char>) -> Seq<char>;

/// Whether `c` is white space: one of the 25 characters that carry Unicode's property
/// `White_Space`, which is what `char::is_whitespace` reports.
pub open spec fn whitespace(c: char) -> bool {
    let code = c as u32;
    ||| 0x0009 <= code <= 0x000D
    ||| code == 0x0020
    ||| code == 0x0085
    ||| code == 0x00A0
    ||| code == 0x1680
    ||| 0x2000 <= code <= 0x200A
    ||| code == 0x2028
    ||| code == 0x2029
    ||| code == 0x202F
    ||| code == 0x205F
    ||| code == 0x3000
}

/// Whether `c` is alphabetic or numeric in Unicode's sense, as `char::is_alphanumeric` reports it.
pub uninterp spec fn alphanumeric(c: char) -> bool;

/// The lower-case form of `text`, as `str::to_lowercase` gives it.
pub uninterp spec fn lowercase(text: Seq<char>) -> Seq<char>;

/// Calls `convert_case::Casing::to_case` with `Case::Title`. The conversion reads nothing
/// but its argument; its result is known to the proofs only by the name `title_case`.
#[verifier::external_body]
pub(crate) fn to_title_case(text: &str) -> (converted: String)
    ensures
        converted@ == title_case(text@),
{
    text.to_case(Case::Title)
}

/// Whether `c` is white space.
pub fn is_whitespace(c: char) -> (answer: bool)
    ensures
        answer == whitespace(c),
{
    let code = c as u32;
    (0x0009 <= code && code <= 0x000D) || code == 0x0020 || code == 0x0085 || code == 0x00A0
        || code == 0x1680 || (0x2000 <= code && code <= 0x200A) || code == 0x2028 || code
        == 0x2029 || code == 0x202F || code == 0x205F || code == 0x3000
}

/// Calls `char::is_alphanumeric`; the answer is known to the proofs only by the name
/// `alphanumeric`.
#[verifier::external_body]
pub(crate) fn is_alphanumeric(c: char) -> (answer: bool)
    ensures
        answer == alphanumeric(c),
{
    c.is_alphanumeric()
}

/// Calls `str::to_lowercase`; the result is known to the proofs only by the name
/// `lowercase`.
#[verifier::external_body]
pub(crate) fn to_lowercase(text: &str) -> (lowered: String)
    ensures
        lowered@ == lowercase(text@),
{
    text.to_lowercase()
}

/// Calls `String::push`, which appends one character to the end of the string.
#[verifier::external_body]
pub(crate) fn push_char(text: &mut String, c: char)
    ensures
        final(text)@ == old(text)@.push(c),
{
    text.push(c);
}

/// Whether two strings hold the same characters.
pub fn same_text(left: &str, right: &str) -> (same: bool)
    ensures
        same == (left@ == right@),
{
    let a = String::from_str(left);
    let b = String::from_str(right);
    a == b
}

/// The display form of a value's written name: the name in title case.
pub fn fmt_model(ident: &str) -> (text: String)
    ensures
        text@ == title_case(ident@),
{
    to_title_case(ident)
}

/// A letter of the basic Latin alphabet, upper or lower case.
pub open spec fn ascii_alphabetic(c: char) -> bool {
    ('a' <= c && c <= 'z') || ('A' <= c && c <= 'Z')
}

/// Whether `c` is a letter of the basic Latin alphabet.
pub fn is_ascii_alphabetic(c: char) -> (answer: bool)
    ensures
        answer == ascii_alphabetic(c),
{
    (c >= 'a' && c <= 'z') || (c >= 'A' && c <= 'Z')
}

/// A name as the game writes it: not empty, and made of letters and white space only.
pub open spec fn valid_text(text: Seq<char>) -> bool {
    text.len() > 0 && forall|i: int|
        0 <= i < text.len() ==> whitespace(#[trigger] text[i]) || ascii_alphabetic(text[i])
}

/// Whether `s` can be a name: not empty, letters and white space only.
pub fn valid_string(s: &String) -> (valid: bool)
    ensures
        valid == valid_text(s@),
{
    let text = s.as_str();
    let n = text.unicode_len();
    if n == 0 {
        return false;
    }
    let mut i: usize = 0;
    while i < n
        invariant
            n == text@.len(),
            text@ == s@,
            i <= n,
            forall|j: int| 0 <= j < i ==> whitespace(#[trigger] text@[j]) || ascii_alphabetic(text@[j]),
        decreases n - i,
    {
        let c = text.get_char(i);
        if !(is_whitespace(c) || is_ascii_alphabetic(c)) {
            return false;
        }
        i += 1;
    }
    true
}


/// `text` with every hyphen turned into a space.
pub open spec fn hyphens_to_spaces(text: Seq<char>) -> Seq<char> {
    text.map_values(|c: char| if c == '-' { ' ' } else { c })
}

/// The form in which a name read from the game is shown: hyphens become spaces, and
/// the words are put in title case.
pub open spec fn display_form(text: Seq<char>) -> Seq<char> {
    title_case(hyphens_to_spaces(text))
}

/// Puts a name read from the game in the form in which it is shown.
pub fn to_display_form(text: &String) -> (shown: String)
    ensures
        shown@ == display_form(text@),
{
    let source = text.as_str();
    let n = source.unicode_len();
    let mut spaced = String::new();
    let mut i: usize = 0;
    while i < n
        invariant
            n == source@.len(),
            source@ == text@,
            i <= n,
            spaced@ == hyphens_to_spaces(text@.take(i as int)),
        decreases n - i,
    {
        let c = source.get_char(i);
        if c == '-' {
            push_char(&mut spaced, ' ');
        } else {
            push_char(&mut spaced, c);
        }
        i += 1;
    }
    assert(text@.take(n as int) =~= text@);
    to_title_case(spaced.as_str())
}


/// The parts written one after the other, with the separator between neighbours.
pub open spec fn joined(parts: Seq<Seq<char>>, separator: Seq<char>) -> Seq<char>
    decreases parts.len(),
{
    if parts.len() == 0 {
        Seq::empty()
    } else if parts.len() == 1 {
        parts[0]
    } else {
        joined(parts.drop_last(), separator) + separator + parts.last()
    }
}

/// Writes the parts one after the other, with the separator between neighbours.
pub fn join(parts: &Vec<String>, separator: &str) -> (text: String)
    ensures
        text@ == joined(parts.deep_view(), separator@),
{
    let mut text = String::new();
    let mut i: usize = 0;
    while i < parts.len()
        invariant
            i <= parts.len(),
            text@ == joined(parts.deep_view().take(i as int), separator@),
        decreases parts.len() - i,
    {
        let ghost done = parts.deep_view().take(i as int);
        let ghost next = parts.deep_view().take(i + 1);
        assert(next.drop_last() =~= done);
        if i > 0 {
            text.append(separator);
        }
        text.append(parts[i].as_str());
        i += 1;
    }
    assert(parts.deep_view().take(i as int) =~= parts.deep_view());
    text
}

/// The digit that stands for `value` in base 16, in upper case.
pub open spec fn hex_digit(value: int) -> char {
    if value < 10 {
        ('0' as int + value) as char
    } else {
        ('A' as int + value - 10) as char
    }
}

/// `value` written in base 16 with upper-case digits and no leading zero.
pub open spec fn hex(value: nat) -> Seq<char>
    decreases value,
{
    if value < 16 {
        seq![hex_digit(value as int)]
    } else {
        hex(value / 16).push(hex_digit((value % 16) as int))
    }
}

fn to_hex_digit(value: u8) -> (digit: char)
    requires
        value < 16,
    ensures
        digit == hex_digit(value as int),
{
    if value < 10 {
        (0x30u8 + value) as char
    } else {
        (0x41u8 + (value - 10)) as char
    }
}

/// Writes `value` in base 16 at the end of `text`.
pub fn push_hex(text: &mut String, value: u64)
    ensures
        final(text)@ == old(text)@ + hex(value as nat),
    decreases value,
{
    if value >= 16 {
        push_hex(text, value / 16);
    }
    push_char(text, to_hex_digit((value % 16) as u8));
}


/// How two texts stand in the order of the dictionary, character by character: -1 if
/// `left` comes first, 1 if `right` comes first, 0 if they are the same.
pub open spec fn lex_order(left: Seq<char>, right: Seq<char>) -> int
    decreases left.len(),
{
    if left.len() == 0 && right.len() == 0 {
        0
    } else if left.len() == 0 {
        -1
    } else if right.len() == 0 {
        1
    } else if left[0] < right[0] {
        -1
    } else if left[0] > right[0] {
        1
    } else {
        lex_order(left.skip(1), right.skip(1))
    }
}

/// Turning two texts round turns their order round.
pub proof fn lemma_lex_order_flips(left: Seq<char>, right: Seq<char>)
    ensures
        lex_order(left, right) == -lex_order(right, left),
        -1 <= lex_order(left, right) <= 1,
    decreases left.len(),
{
    if left.len() > 0 && right.len() > 0 && left[0] == right[0] {
        lemma_lex_order_flips(left.skip(1), right.skip(1));
    }
}

/// The order of the dictionary is a chain: what does not come after a text that does
/// not come after a third does not come after the third, and comes before it if one
/// of the two steps does.
pub proof fn lemma_lex_order_chains(first: Seq<char>, second: Seq<char>, third: Seq<char>)
    requires
        lex_order(first, second) <= 0,
        lex_order(second, third) <= 0,
    ensures
        lex_order(first, third) <= 0,
        lex_order(first, second) < 0 || lex_order(second, third) < 0 ==> lex_order(first, third) < 0,
    decreases first.len(),
{
    if first.len() > 0 && second.len() > 0 && third.len() > 0 && first[0] == second[0] && second[0]
        == third[0] {
        lemma_lex_order_chains(first.skip(1), second.skip(1), third.skip(1));
    }
}

/// Compares two texts in the order of the dictionary: -1, 0 or 1.
pub fn text_order(left: &str, right: &str) -> (order: i8)
    ensures
        order == lex_order(left@, right@),
{
    let n = left.unicode_len();
    let m = right.unicode_len();
    let mut i: usize = 0;
    assert(left@.skip(0) =~= left@);
    assert(right@.skip(0) =~= right@);
    loop
        invariant
            n == left@.len(),
            m == right@.len(),
            i <= n,
            i <= m,
            lex_order(left@, right@) == lex_order(left@.skip(i as int), right@.skip(i as int)),
        decreases n - i,
    {
        if i == n && i == m {
            return 0;
        }
        if i == n {
            return -1;
        }
        if i == m {
            return 1;
        }
        let a = left.get_char(i);
        let b = right.get_char(i);
        if a < b {
            return -1;
        }
        if a > b {
            return 1;
        }
        assert(left@.skip(i as int).skip(1) =~= left@.skip(i + 1));
        assert(right@.skip(i as int).skip(1) =~= right@.skip(i + 1));
        i += 1;
    }
}


/// The pieces into which the separator cuts a text. A text without the separator is
/// one piece; two separators in a row have an empty piece between them.
pub open spec fn pieces(text: Seq<char>, separator: char) -> Seq<Seq<char>>
    decreases text.len(),
{
    if text.len() == 0 {
        seq![Seq::empty()]
    } else {
        let before = pieces(text.drop_last(), separator);
        if text.last() == separator {
            before.push(Seq::empty())
        } else {
            before.drop_last().push(before.last().push(text.last()))
        }
    }
}

/// Cuts a text at every separator.
pub fn split(text: &str, separator: char) -> (parts: Vec<String>)
    ensures
        parts.deep_view() == pieces(text@, separator),
{
    let n = text.unicode_len();
    let mut parts: Vec<String> = Vec::new();
    let mut current = String::new();
    let mut i: usize = 0;
    while i < n
        invariant
            n == text@.len(),
            i <= n,
            parts.deep_view().push(current@) == pieces(text@.take(i as int), separator),
        decreases n - i,
    {
        let c = text.get_char(i);
        let ghost done = text@.take(i as int);
        let ghost next = text@.take(i + 1);
        assert(next.drop_last() =~= done);
        if c == separator {
            parts.push(current);
            current = String::new();
        } else {
            push_char(&mut current, c);
        }
        i += 1;
    }
    assert(text@.take(n as int) =~= text@);
    parts.push(current);
    parts
}

} // verus!
