//! Plain text: the character classes the rules speak of, and trimming.
use vstd::prelude::*;
use vstd::string::*;
use vstd::utf8::*;

verus! {

/// The characters with Unicode's `White_Space` property.
pub open spec fn white_space(c: char) -> bool {
    ||| '\u{9}' <= c && c <= '\u{d}'
    ||| c == '\u{20}'
    ||| c == '\u{85}'
    ||| c == '\u{a0}'
    ||| c == '\u{1680}'
    ||| '\u{2000}' <= c && c <= '\u{200a}'
    ||| c == '\u{2028}'
    ||| c == '\u{2029}'
    ||| c == '\u{202f}'
    ||| c == '\u{205f}'
    ||| c == '\u{3000}'
}

/// The control characters: Unicode's general category `Cc`.
pub open spec fn control(c: char) -> bool {
    ||| c <= '\u{1f}'
    ||| '\u{7f}' <= c && c <= '\u{9f}'
}

/// The ASCII letters and digits.
pub open spec fn ascii_alphanumeric(c: char) -> bool {
    ||| 'a' <= c && c <= 'z'
    ||| 'A' <= c && c <= 'Z'
    ||| '0' <= c && c <= '9'
}

/// `text` without the white space it starts with.
pub open spec fn trimmed_start(text: Seq<char>) -> Seq<char>
    decreases text.len(),
{
    if text.len() > 0 && white_space(text.first()) {
        trimmed_start(text.drop_first())
    } else {
        text
    }
}

/// `text` without the white space it ends with.
pub open spec fn trimmed_end(text: Seq<char>) -> Seq<char>
    decreases text.len(),
{
    if text.len() > 0 && white_space(text.last()) {
        trimmed_end(text.drop_last())
    } else {
        text
    }
}

/// `text` without the white space around it.
pub open spec fn trimmed(text: Seq<char>) -> Seq<char> {
    trimmed_end(trimmed_start(text))
}

/// The number of bytes that `text` takes in UTF-8.
pub open spec fn byte_len(text: Seq<char>) -> nat {
    encode_utf8(text).len()
}

/// What each of `values` spells.
pub open spec fn texts(values: Seq<String>) -> Seq<Seq<char>> {
    values.map_values(|value: String| value@)
}

/// Whether `c` is white space.
pub fn is_white_space(c: char) -> (result: bool)
    ensures
        result == white_space(c),
{
    ('\u{9}' <= c && c <= '\u{d}') || c == '\u{20}' || c == '\u{85}' || c == '\u{a0}' || c
        == '\u{1680}' || ('\u{2000}' <= c && c <= '\u{200a}') || c == '\u{2028}' || c == '\u{2029}'
        || c == '\u{202f}' || c == '\u{205f}' || c == '\u{3000}'
}

/// Whether `c` is a control character.
pub fn is_control(c: char) -> (result: bool)
    ensures
        result == control(c),
{
    c <= '\u{1f}' || ('\u{7f}' <= c && c <= '\u{9f}')
}

/// Whether `c` is an ASCII letter or digit.
pub fn is_ascii_alphanumeric(c: char) -> (result: bool)
    ensures
        result == ascii_alphanumeric(c),
{
    ('a' <= c && c <= 'z') || ('A' <= c && c <= 'Z') || ('0' <= c && c <= '9')
}

/// The characters of `value`, in order.
pub fn chars_of(value: &str) -> (chars: Vec<char>)
    ensures
        chars@ == value@,
{
    let mut chars: Vec<char> = Vec::new();
    for c in iter: value.chars()
        invariant
            iter.seq() == value@,
            chars@ == value@.take(iter.index() as int),
    {
        chars.push(c);
        assert(value@.take(iter.index() + 1) =~= value@.take(iter.index() as int).push(c));
    }
    assert(value@.take(value@.len() as int) =~= value@);
    chars
}

/// The number of bytes of `value`.
pub fn byte_length(value: &str) -> (length: usize)
    ensures
        length == byte_len(value@),
{
    value.as_bytes().len()
}

/// `value` without the white space around it.
pub fn trim(value: &str) -> (result: &str)
    ensures
        result@ == trimmed(value@),
{
    let chars = chars_of(value);
    let mut start: usize = 0;
    assert(value@.subrange(0, value@.len() as int) =~= value@);
    while start < chars.len() && is_white_space(chars[start])
        invariant
            chars@ == value@,
            start <= chars.len(),
            trimmed_start(value@) == trimmed_start(value@.subrange(start as int, value@.len() as int)),
        decreases chars.len() - start,
    {
        assert(value@.subrange(start as int, value@.len() as int).drop_first()
            =~= value@.subrange(start + 1, value@.len() as int));
        start += 1;
    }
    let mut end: usize = chars.len();
    while start < end && is_white_space(chars[end - 1])
        invariant
            chars@ == value@,
            start <= end <= chars.len(),
            trimmed(value@) == trimmed_end(value@.subrange(start as int, end as int)),
        decreases end - start,
    {
        assert(value@.subrange(start as int, end as int).drop_last() =~= value@.subrange(
            start as int,
            end - 1,
        ));
        end -= 1;
    }
    value.substring_char(start, end)
}

/// Trimming finds what stands between the outer white space: whatever white space is put around
/// a text that neither starts nor ends with white space, the text comes back.
pub proof fn trimming_strips_exactly_the_outer_white_space(
    before: Seq<char>,
    text: Seq<char>,
    after: Seq<char>,
)
    requires
        forall|i: int| 0 <= i < before.len() ==> white_space(#[trigger] before[i]),
        forall|i: int| 0 <= i < after.len() ==> white_space(#[trigger] after[i]),
        text.len() > 0 ==> !white_space(text.first()) && !white_space(text.last()),
    ensures
        trimmed(before + text + after) == text,
{
    strip_front(before, text + after);
    assert(before + text + after =~= before + (text + after));
    if text.len() == 0 {
        assert(text + after =~= after + text);
        strip_front(after, text);
    } else {
        assert((text + after).first() == text.first());
        strip_back(text, after);
    }
}

/// Trimming a second time changes nothing.
pub proof fn trimming_is_idempotent(text: Seq<char>)
    ensures
        trimmed(trimmed(text)) == trimmed(text),
        trimmed(text).len() > 0 ==> !white_space(trimmed(text).first()) && !white_space(
            trimmed(text).last(),
        ),
{
    front_is_clear(text);
    back_is_clear(trimmed_start(text));
    let none = Seq::<char>::empty();
    assert(none + trimmed(text) + none =~= trimmed(text));
    trimming_strips_exactly_the_outer_white_space(none, trimmed(text), none);
}

proof fn strip_front(before: Seq<char>, rest: Seq<char>)
    requires
        forall|i: int| 0 <= i < before.len() ==> white_space(#[trigger] before[i]),
    ensures
        trimmed_start(before + rest) == trimmed_start(rest),
    decreases before.len(),
{
    if before.len() == 0 {
        assert(before + rest =~= rest);
    } else {
        assert((before + rest).drop_first() =~= before.drop_first() + rest);
        strip_front(before.drop_first(), rest);
    }
}

proof fn strip_back(rest: Seq<char>, after: Seq<char>)
    requires
        forall|i: int| 0 <= i < after.len() ==> white_space(#[trigger] after[i]),
    ensures
        trimmed_end(rest + after) == trimmed_end(rest),
    decreases after.len(),
{
    if after.len() == 0 {
        assert(rest + after =~= rest);
    } else {
        assert((rest + after).drop_last() =~= rest + after.drop_last());
        strip_back(rest, after.drop_last());
    }
}

proof fn front_is_clear(text: Seq<char>)
    ensures
        trimmed_start(text).len() > 0 ==> !white_space(trimmed_start(text).first()),
    decreases text.len(),
{
    if text.len() > 0 && white_space(text.first()) {
        front_is_clear(text.drop_first());
    }
}

/// Trimming the end leaves the front alone, unless nothing is left.
proof fn back_is_clear(text: Seq<char>)
    ensures
        trimmed_end(text).len() > 0 ==> !white_space(trimmed_end(text).last())
            && trimmed_end(text).first() == text.first(),
    decreases text.len(),
{
    if text.len() > 0 && white_space(text.last()) {
        back_is_clear(text.drop_last());
    }
}

/// White space is these 25 characters and no others, by their numbers.
pub proof fn white_space_by_number(c: char)
    ensures
        white_space(c) <==> ({
            let n = c as u32;
            ||| 9 <= n <= 13
            ||| n == 32
            ||| n == 133
            ||| n == 160
            ||| n == 5760
            ||| 8192 <= n <= 8202
            ||| 8232 <= n <= 8233
            ||| n == 8239
            ||| n == 8287
            ||| n == 12288
        }),
{
}

/// The control characters are the first 32 and the 33 from 127 on, by their numbers.
pub proof fn control_characters_by_number(c: char)
    ensures
        control(c) <==> 0 <= c as u32 <= 31 || 127 <= c as u32 <= 159,
{
}

/// The ASCII letters and digits, by their numbers.
pub proof fn ascii_alphanumerics_by_number(c: char)
    ensures
        ascii_alphanumeric(c) <==> 48 <= c as u32 <= 57 || 65 <= c as u32 <= 90 || 97 <= c as u32
            <= 122,
{
}

/// A length in bytes is that of the text in UTF-8, and what `texts` spells is every value, each in
/// its place.
pub proof fn texts_are_taken_whole(text: Seq<char>, values: Seq<String>)
    ensures
        byte_len(text) == encode_utf8(text).len(),
        texts(values).len() == values.len(),
        forall|i: int| 0 <= i < values.len() ==> #[trigger] texts(values)[i] == values[i]@,
{
}

/// What is trimmed off is white space, and nothing is lost between.
pub proof fn trimming_takes_white_space_only(text: Seq<char>) -> (cut: (int, int))
    ensures
        0 <= cut.0 <= cut.1 <= text.len(),
        trimmed(text) == text.subrange(cut.0, cut.1),
        forall|i: int|
            0 <= i < cut.0 || cut.1 <= i < text.len() ==> white_space(#[trigger] text[i]),
        cut.0 < cut.1 ==> !white_space(text[cut.0]) && !white_space(text[cut.1 - 1]),
{
    let start = front_cut(text);
    let end = start + back_cut(text.subrange(start, text.len() as int));
    assert(text.subrange(start, text.len() as int).subrange(0, end - start) =~= text.subrange(
        start,
        end,
    ));
    assert forall|i: int| end <= i < text.len() implies white_space(#[trigger] text[i]) by {
        assert(text.subrange(start, text.len() as int)[i - start] == text[i]);
    }
    trimming_is_idempotent(text);
    (start, end)
}

proof fn front_cut(text: Seq<char>) -> (start: int)
    ensures
        0 <= start <= text.len(),
        trimmed_start(text) == text.subrange(start, text.len() as int),
        forall|i: int| 0 <= i < start ==> white_space(#[trigger] text[i]),
    decreases text.len(),
{
    if text.len() > 0 && white_space(text.first()) {
        let rest = text.drop_first();
        let start = front_cut(rest);
        assert(rest.subrange(start, rest.len() as int) =~= text.subrange(
            start + 1,
            text.len() as int,
        ));
        assert forall|i: int| 0 <= i < start + 1 implies white_space(#[trigger] text[i]) by {
            if i > 0 {
                assert(rest[i - 1] == text[i]);
            }
        }
        start + 1
    } else {
        assert(text.subrange(0, text.len() as int) =~= text);
        0
    }
}

proof fn back_cut(text: Seq<char>) -> (end: int)
    ensures
        0 <= end <= text.len(),
        trimmed_end(text) == text.subrange(0, end),
        forall|i: int| end <= i < text.len() ==> white_space(#[trigger] text[i]),
    decreases text.len(),
{
    if text.len() > 0 && white_space(text.last()) {
        let rest = text.drop_last();
        let end = back_cut(rest);
        assert(rest.subrange(0, end) =~= text.subrange(0, end));
        assert forall|i: int| end <= i < text.len() implies white_space(#[trigger] text[i]) by {
            if i < rest.len() {
                assert(rest[i] == text[i]);
            }
        }
        end
    } else {
        assert(text.subrange(0, text.len() as int) =~= text);
        text.len() as int
    }
}

} // verus!
