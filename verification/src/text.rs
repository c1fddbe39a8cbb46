//! Character sequences: the mathematical model of every text in the session
//! state, and the few operations of `std` on strings that the library calls.

use vstd::prelude::*;
use vstd::string::*;

verus! {

/// The lower-case form of a text, as `str::to_lowercase` computes it.
pub uninterp spec fn lowercase(s: Seq<char>) -> Seq<char>;

/// `needle` occurs in `hay` as a contiguous run of characters.
pub open spec fn is_substring(needle: Seq<char>, hay: Seq<char>) -> bool {
    exists|i: int|
        0 <= i && i + needle.len() <= hay.len() && #[trigger] hay.subrange(
            i,
            i + needle.len(),
        ) == needle
}

/// Calls `str::to_lowercase`. The result is a function of the text alone
/// (the Unicode lower-case mapping), which `lowercase` names.
#[verifier::external_body]
pub(crate) fn to_lowercase(s: &str) -> (r: String)
    ensures
        r@ == lowercase(s@),
{
    s.to_lowercase()
}

/// Calls `str::contains` with a string pattern: true exactly when the
/// pattern occurs in the text as a contiguous run of characters.
#[verifier::external_body]
pub(crate) fn contains(hay: &str, needle: &str) -> (r: bool)
    ensures
        r == is_substring(needle@, hay@),
{
    hay.contains(needle)
}

/// Calls `String::push`: the character is appended at the end.
#[verifier::external_body]
pub(crate) fn push_char(s: &mut String, c: char)
    ensures
        final(s)@ == old(s)@.push(c),
{
    s.push(c)
}

/// Compares two string slices with `==`: true exactly when they hold the
/// same characters.
#[verifier::external_body]
pub(crate) fn text_eq(a: &str, b: &str) -> (r: bool)
    ensures
        r == (a@ == b@),
{
    a == b
}

/// Tests a name against a filter text that is already in lower case.
pub fn matches_lowered(name: &str, lowered_filter: &str) -> (r: bool)
    ensures
        r == is_substring(lowered_filter@, lowercase(name@)),
{
    let lowered_name = to_lowercase(name);
    contains(lowered_name.as_str(), lowered_filter)
}

/// The characters of a text, in order.
pub fn chars_of(s: &str) -> (v: Vec<char>)
    ensures
        v@ == s@,
{
    broadcast use vstd::string::group_string_axioms;

    let mut v: Vec<char> = Vec::new();
    for c in it: s.chars()
        invariant
            it.seq() == s@,
            v@ == s@.take(it.index()),
    {
        v.push(c);
    }
    v
}

/// The text that holds the given characters, in order.
pub fn text_of(v: &Vec<char>) -> (s: String)
    ensures
        s@ == v@,
{
    let mut s = String::new();
    let mut i: usize = 0;
    while i < v.len()
        invariant
            i <= v.len(),
            s@ == v@.take(i as int),
        decreases v.len() - i,
    {
        push_char(&mut s, v[i]);
        assert(v@.take(i + 1) == v@.take(i as int).push(v@[i as int]));
        i += 1;
    }
    assert(v@.take(v.len() as int) == v@);
    s
}

/// The text with `c` put in before the character at offset `at`
/// (at the end, where `at` is the length). Offsets count characters.
pub fn insert_char(s: &str, at: usize, c: char) -> (r: String)
    requires
        at <= s@.len(),
    ensures
        r@ == s@.insert(at as int, c),
        r@.len() <= usize::MAX,
{
    let mut v = chars_of(s);
    v.insert(at, c);
    assert(v@.len() == v.len());
    text_of(&v)
}

/// The text without the character at offset `at`. Offsets count characters.
pub fn remove_char(s: &str, at: usize) -> (r: String)
    requires
        at < s@.len(),
    ensures
        r@ == s@.remove(at as int),
{
    let mut v = chars_of(s);
    v.remove(at);
    text_of(&v)
}

/// The decimal digit for a value below ten.
pub open spec fn digit(d: nat) -> char
    recommends
        d < 10,
{
    (48 + d) as char
}

/// The decimal numeral of a number, without leading zeros.
pub open spec fn decimal(n: nat) -> Seq<char>
    decreases n,
{
    if n < 10 {
        seq![digit(n)]
    } else {
        decimal(n / 10).push(digit(n % 10))
    }
}

/// Appends the decimal numeral of `n`.
pub fn push_decimal(s: &mut String, n: usize)
    ensures
        final(s)@ == old(s)@ + decimal(n as nat),
    decreases n,
{
    if n >= 10 {
        push_decimal(s, n / 10);
    }
    let d: u8 = (n % 10) as u8;
    push_char(s, (48u8 + d) as char);
    assert(s@ =~= old(s)@ + decimal(n as nat));
}

/// The text without the white space at its start and at its end, as
/// `str::trim` computes it.
pub uninterp spec fn trimmed(s: Seq<char>) -> Seq<char>;

/// Calls `str::trim`. The result is a function of the text alone (it drops
/// the characters with the Unicode property `White_Space` from both ends),
/// which `trimmed` names.
#[verifier::external_body]
pub(crate) fn trim(s: &str) -> (r: &str)
    ensures
        r@ == trimmed(s@),
{
    s.trim()
}

/// The order of texts: character by character, by code point; a text comes
/// before every text that it starts.
pub open spec fn text_le(a: Seq<char>, b: Seq<char>) -> bool
    decreases a.len(),
{
    if a.len() == 0 {
        true
    } else if b.len() == 0 {
        false
    } else if a[0] != b[0] {
        (a[0] as u32) < (b[0] as u32)
    } else {
        text_le(a.drop_first(), b.drop_first())
    }
}

/// The texts stand in order.
pub open spec fn texts_sorted(texts: Seq<Seq<char>>) -> bool {
    forall|i: int, j: int| 0 <= i < j < texts.len() ==> text_le(texts[i], texts[j])
}

/// Calls the slice method `sort` on strings. It reorders the strings and
/// leaves them in the order of `String`, which compares the bytes of the
/// UTF-8 encoding: that is the order of the code points.
#[verifier::external_body]
pub(crate) fn sort_texts(v: &mut Vec<String>)
    ensures
        final(v).deep_view().to_multiset() == old(v).deep_view().to_multiset(),
        texts_sorted(final(v).deep_view()),
{
    v.sort()
}

/// The text is one of the texts.
pub fn contains_text(texts: &Vec<String>, text: &str) -> (found: bool)
    ensures
        found == texts.deep_view().contains(text@),
{
    let mut i: usize = 0;
    while i < texts.len()
        invariant
            i <= texts.len(),
            forall|k: int| 0 <= k < i ==> texts.deep_view()[k] != text@,
        decreases texts.len() - i,
    {
        if text_eq(texts[i].as_str(), text) {
            assert(texts.deep_view()[i as int] == text@);
            return true;
        }
        i += 1;
    }
    false
}

/// The parts of a text between the occurrences of a separator: one part
/// more than there are separators, some of them empty.
pub open spec fn split(s: Seq<char>, separator: char) -> Seq<Seq<char>>
    decreases s.len(),
{
    if s.len() == 0 {
        seq![Seq::empty()]
    } else {
        let before = split(s.drop_last(), separator);
        if s.last() == separator {
            before.push(Seq::empty())
        } else {
            before.drop_last().push(before.last().push(s.last()))
        }
    }
}

/// Splits a text at every occurrence of a separator.
pub fn split_text(s: &str, separator: char) -> (parts: Vec<String>)
    ensures
        parts.deep_view() == split(s@, separator),
{
    let chars = chars_of(s);
    let mut parts: Vec<String> = Vec::new();
    let mut current = String::new();
    let mut i: usize = 0;
    assert(s@.take(0) =~= Seq::empty());
    assert(parts.deep_view().push(current@) =~= seq![Seq::empty()]);
    while i < chars.len()
        invariant
            i <= chars.len(),
            chars@ == s@,
            parts.deep_view().push(current@) == split(s@.take(i as int), separator),
        decreases chars.len() - i,
    {
        let ghost before = parts.deep_view().push(current@);
        let ghost old_parts = parts.deep_view();
        let ghost old_current = current@;
        assert(s@.take(i + 1).drop_last() =~= s@.take(i as int));
        assert(s@.take(i + 1).last() == chars@[i as int]);
        if chars[i] == separator {
            parts.push(current);
            current = String::new();
            assert(parts.deep_view() =~= before);
        } else {
            push_char(&mut current, chars[i]);
            assert(before.drop_last() =~= old_parts);
            assert(before.last() == old_current);
        }
        i += 1;
    }
    assert(s@.take(chars.len() as int) =~= s@);
    let ghost all = parts.deep_view().push(current@);
    parts.push(current);
    assert(parts.deep_view() =~= all);
    parts
}

/// The offset of the first occurrence of a character in a text, or the
/// length of the text where the character does not occur.
pub open spec fn position(s: Seq<char>, c: char) -> nat
    decreases s.len(),
{
    if s.len() == 0 || s[0] == c {
        0
    } else {
        1 + position(s.drop_first(), c)
    }
}

/// What follows the first occurrence of a character in a text; the whole
/// text where the character does not occur.
pub open spec fn after_first(s: Seq<char>, c: char) -> Seq<char> {
    if position(s, c) < s.len() {
        s.skip(position(s, c) as int + 1)
    } else {
        s
    }
}

/// The text that follows the first occurrence of a character.
pub fn text_after_first(s: &str, c: char) -> (r: String)
    ensures
        r@ == after_first(s@, c),
{
    let chars = chars_of(s);
    let mut i: usize = 0;
    assert(s@.skip(0) =~= s@);
    while i < chars.len() && chars[i] != c
        invariant
            i <= chars.len(),
            chars@ == s@,
            position(s@, c) == i + position(s@.skip(i as int), c),
        decreases chars.len() - i,
    {
        assert(s@.skip(i as int).drop_first() =~= s@.skip(i + 1));
        i += 1;
    }
    if i < chars.len() {
        let mut r = String::new();
        let mut k: usize = i + 1;
        assert(s@.skip(i + 1).take(0) =~= Seq::empty());
        while k < chars.len()
            invariant
                i + 1 <= k <= chars.len(),
                chars@ == s@,
                r@ == s@.skip(i + 1).take(k - (i + 1)),
            decreases chars.len() - k,
        {
            push_char(&mut r, chars[k]);
            assert(s@.skip(i + 1).take(k + 1 - (i + 1)) =~= s@.skip(i + 1).take(k - (i + 1)).push(
                s@[k as int],
            ));
            k += 1;
        }
        assert(s@.skip(i + 1).take(chars.len() - (i + 1)) =~= s@.skip(i + 1));
        r
    } else {
        String::from_str(s)
    }
}

} // verus!
