//! The shapes that names, dimensions and secret references must have.
use vstd::prelude::*;
use vstd::utf8::*;
use crate::text;

verus! {

/// The longest name and the longest secret reference, in bytes.
pub const MAX_NAME_BYTES: usize = 256;

/// The characters of a name.
pub open spec fn name_char(c: char) -> bool {
    text::ascii_alphanumeric(c) || c == '.' || c == '_' || c == '-' || c == ':'
}

/// A name: between one and 256 letters, digits, dots, underscores, hyphens and colons.
pub open spec fn is_name(value: Seq<char>) -> bool {
    &&& 0 < value.len() <= MAX_NAME_BYTES
    &&& forall|i: int| 0 <= i < value.len() ==> name_char(#[trigger] value[i])
}

/// A dimension: a name without a dot at either end.
pub open spec fn is_dimension(value: Seq<char>) -> bool {
    is_name(value) && value.first() != '.' && value.last() != '.'
}

/// The four parts that name one document of the index.
pub open spec fn is_document_reference(
    scope_kind: Seq<char>,
    scope_id: Seq<char>,
    source_kind: Seq<char>,
    source_id: Seq<char>,
) -> bool {
    is_dimension(scope_kind) && is_name(scope_id) && is_dimension(source_kind) && is_name(source_id)
}

/// The characters of a secret reference.
pub open spec fn reference_char(c: char) -> bool {
    text::ascii_alphanumeric(c) || c == '.' || c == '_' || c == '-' || c == '/'
}

/// What stands between the slashes of `value`: one segment more than there are slashes.
pub open spec fn segments(value: Seq<char>) -> Seq<Seq<char>>
    decreases value.len(),
{
    if value.len() == 0 {
        seq![Seq::<char>::empty()]
    } else {
        let before = segments(value.drop_last());
        if value.last() == '/' {
            before.push(Seq::<char>::empty())
        } else {
            before.drop_last().push(before.last().push(value.last()))
        }
    }
}

/// The segments `.` and `..`, which would walk a path.
pub open spec fn walking(segment: Seq<char>) -> bool {
    segment == seq!['.'] || segment == seq!['.', '.']
}

/// A secret reference: a relative path of at most 256 plain characters, without empty segments
/// and without segments that walk.
pub open spec fn is_secret_reference(value: Seq<char>) -> bool {
    &&& 0 < value.len() <= MAX_NAME_BYTES
    &&& value.first() != '/'
    &&& value.last() != '/'
    &&& forall|i: int|
        0 <= i < value.len() - 1 ==> !(#[trigger] value[i] == '/' && value[i + 1] == '/')
    &&& forall|i: int| 0 <= i < segments(value).len() ==> !walking(#[trigger] segments(value)[i])
    &&& forall|i: int| 0 <= i < value.len() ==> reference_char(#[trigger] value[i])
}

/// Whether `value` is a name.
pub fn valid_name(value: &str) -> (result: bool)
    ensures
        result == is_name(value@),
{
    let bytes: usize = text::byte_length(value);
    let chars = text::chars_of(value);
    let mut i: usize = 0;
    while i < chars.len()
        invariant
            chars@ == value@,
            i <= chars.len(),
            forall|j: int| 0 <= j < i ==> name_char(#[trigger] chars@[j]),
        decreases chars.len() - i,
    {
        let c: char = chars[i];
        if !(text::is_ascii_alphanumeric(c) || c == '.' || c == '_' || c == '-' || c == ':') {
            return false;
        }
        i += 1;
    }
    proof {
        is_ascii_chars_encode_utf8(value@);
    }
    bytes != 0 && bytes <= MAX_NAME_BYTES
}

/// Whether `value` is a dimension.
pub fn valid_dimension(value: &str) -> (result: bool)
    ensures
        result == is_dimension(value@),
{
    if !valid_name(value) {
        return false;
    }
    let chars = text::chars_of(value);
    chars[0] != '.' && chars[chars.len() - 1] != '.'
}

/// Whether the four parts name a document.
pub fn valid_document_reference(
    scope_kind: &str,
    scope_id: &str,
    source_kind: &str,
    source_id: &str,
) -> (result: bool)
    ensures
        result == is_document_reference(scope_kind@, scope_id@, source_kind@, source_id@),
{
    valid_dimension(scope_kind) && valid_name(scope_id) && valid_dimension(source_kind)
        && valid_name(source_id)
}

/// Whether `reference` is a secret reference.
pub fn valid_secret_reference(reference: &str) -> (result: bool)
    ensures
        result == is_secret_reference(reference@),
{
    let bytes: usize = text::byte_length(reference);
    let chars = text::chars_of(reference);
    let ghost text = reference@;
    let mut i: usize = 0;
    while i < chars.len()
        invariant
            chars@ == text,
            text == reference@,
            i <= chars.len(),
            forall|j: int| 0 <= j < i ==> reference_char(#[trigger] chars@[j]),
            forall|j: int| 0 <= j < i - 1 ==> !(#[trigger] text[j] == '/' && text[j + 1] == '/'),
        decreases chars.len() - i,
    {
        let c: char = chars[i];
        if !(text::is_ascii_alphanumeric(c) || c == '.' || c == '_' || c == '-' || c == '/') {
            return false;
        }
        if i > 0 && c == '/' && chars[i - 1] == '/' {
            assert(text[i - 1] == '/' && text[i - 1 + 1] == '/');
            return false;
        }
        i += 1;
    }
    proof {
        is_ascii_chars_encode_utf8(text);
    }
    if bytes == 0 || bytes > MAX_NAME_BYTES || chars[0] == '/' || chars[chars.len() - 1] == '/' {
        return false;
    }
    !has_walking_segment(&chars)
}

/// Whether one of the segments of `chars` walks.
fn has_walking_segment(chars: &Vec<char>) -> (result: bool)
    ensures
        result == exists|i: int|
            0 <= i < segments(chars@).len() && walking(#[trigger] segments(chars@)[i]),
{
    let ghost text = chars@;
    let mut start: usize = 0;
    let mut i: usize = 0;
    assert(text.take(0) =~= Seq::<char>::empty());
    while i < chars.len()
        invariant
            text == chars@,
            start <= i <= chars.len(),
            segments(text.take(i as int)).len() > 0,
            segments(text.take(i as int)).last() == text.subrange(start as int, i as int),
            forall|j: int|
                0 <= j < segments(text.take(i as int)).len() - 1 ==> !walking(
                    #[trigger] segments(text.take(i as int))[j],
                ),
        decreases chars.len() - i,
    {
        let ghost so_far = segments(text.take(i as int));
        let ghost longer = segments(text.take(i + 1));
        assert(text.take(i + 1).drop_last() =~= text.take(i as int));
        if chars[i] == '/' {
            if is_walking(chars, start, i) {
                proof {
                    assert(longer[so_far.len() - 1] == so_far.last());
                    segments_stay(text, i + 1, so_far.len() - 1);
                }
                return true;
            }
            start = i + 1;
            assert(text.subrange(start as int, i + 1) =~= Seq::<char>::empty());
        } else {
            assert(text.subrange(start as int, i + 1) =~= text.subrange(start as int, i as int).push(
                text[i as int],
            ));
        }
        i += 1;
    }
    assert(text.take(text.len() as int) =~= text);
    let ghost all = segments(text);
    let result = is_walking(chars, start, i);
    assert(result ==> walking(all[all.len() - 1]));
    result
}

/// Whether the characters from `start` to `end` spell `.` or `..`.
fn is_walking(chars: &Vec<char>, start: usize, end: usize) -> (result: bool)
    requires
        start <= end <= chars@.len(),
    ensures
        result == walking(chars@.subrange(start as int, end as int)),
{
    let length: usize = end - start;
    let ghost segment = chars@.subrange(start as int, end as int);
    let result = (length == 1 && chars[start] == '.') || (length == 2 && chars[start] == '.'
        && chars[start + 1] == '.');
    assert(result ==> walking(segment)) by {
        assert(length == 1 && result ==> segment =~= seq!['.']);
        assert(length == 2 && result ==> segment =~= seq!['.', '.']);
    }
    assert(segment == seq!['.'] ==> segment.len() == 1 && segment[0] == '.');
    assert(segment == seq!['.', '.'] ==> segment.len() == 2 && segment[0] == '.' && segment[1]
        == '.');
    result
}

/// A segment that a slash has closed is a segment of every longer text.
proof fn segments_stay(text: Seq<char>, end: int, i: int)
    requires
        0 <= end <= text.len(),
        0 <= i < segments(text.take(end)).len() - 1,
    ensures
        i < segments(text).len(),
        segments(text)[i] == segments(text.take(end))[i],
    decreases text.len(),
{
    if end == text.len() {
        assert(text.take(end) =~= text);
    } else {
        let shorter = text.drop_last();
        assert(shorter.take(end) =~= text.take(end));
        segments_stay(shorter, end, i);
        segments_grow(shorter, end);
    }
}

/// A longer text has no fewer segments.
proof fn segments_grow(text: Seq<char>, end: int)
    requires
        0 <= end <= text.len(),
    ensures
        0 < segments(text.take(end)).len() <= segments(text).len(),
    decreases text.len(),
{
    if end == text.len() {
        assert(text.take(end) =~= text);
        if end > 0 {
            segments_grow(text.drop_last(), end - 1);
        }
    } else {
        assert(text.drop_last().take(end) =~= text.take(end));
        segments_grow(text.drop_last(), end);
    }
}

/// Every dimension is a name.
pub proof fn dimensions_are_names(value: Seq<char>)
    requires
        is_dimension(value),
    ensures
        is_name(value),
{
}

/// A secret reference is a path of segments that each name something: none is empty, none walks.
pub proof fn secret_references_have_plain_segments(value: Seq<char>, i: int)
    requires
        is_secret_reference(value),
        0 <= i < segments(value).len(),
    ensures
        segments(value)[i].len() > 0,
        !walking(segments(value)[i]),
{
    closed_segments_are_not_empty(value);
}

/// Where no slash follows a slash, only the last segment can be empty, and only after a slash.
proof fn closed_segments_are_not_empty(value: Seq<char>)
    requires
        value.len() > 0 ==> value.first() != '/',
        forall|i: int|
            0 <= i < value.len() - 1 ==> !(#[trigger] value[i] == '/' && value[i + 1] == '/'),
    ensures
        segments(value).len() > 0,
        forall|i: int|
            0 <= i < segments(value).len() - 1 ==> (#[trigger] segments(value)[i]).len() > 0,
        value.len() > 0 && value.last() != '/' ==> segments(value).last().len() > 0,
    decreases value.len(),
{
    if value.len() > 0 {
        let before = value.drop_last();
        assert forall|i: int| 0 <= i < before.len() - 1 implies !(#[trigger] before[i] == '/'
            && before[i + 1] == '/') by {
            assert(before[i] == value[i]);
        }
        closed_segments_are_not_empty(before);
        if value.last() == '/' {
            assert(value[value.len() - 1] == '/');
            if before.len() > 0 {
                assert(value[value.len() - 2] == before.last());
                assert(before.last() != '/');
            }
        }
    }
}

/// Every name, and nothing else, is between 1 and 256 bytes of `-`, `.`, `0` to `9`, `:`, `A` to
/// `Z`, `_` and `a` to `z`. Every dimension, and nothing else, is a name that has no dot first and
/// none last. A document is referred to by a dimension, a name, a dimension and a name.
pub proof fn names_by_number(
    value: Seq<char>,
    scope_kind: Seq<char>,
    scope_id: Seq<char>,
    source_kind: Seq<char>,
    source_id: Seq<char>,
)
    ensures
        is_name(value) <==> ({
            &&& 1 <= encode_utf8(value).len() <= 256
            &&& forall|i: int|
                0 <= i < value.len() ==> {
                    let n = (#[trigger] value[i]) as int;
                    45 <= n <= 46 || 48 <= n <= 58 || 65 <= n <= 90 || n == 95 || 97 <= n <= 122
                }
        }),
        is_dimension(value) <==> is_name(value) && value[0] as int != 46 && value[value.len()
            - 1] as int != 46,
        is_document_reference(scope_kind, scope_id, source_kind, source_id) <==> ({
            &&& is_dimension(scope_kind)
            &&& is_name(scope_id)
            &&& is_dimension(source_kind)
            &&& is_name(source_id)
        }),
{
    if forall|i: int|
        0 <= i < value.len() ==> {
            let n = (#[trigger] value[i]) as int;
            45 <= n <= 46 || 48 <= n <= 58 || 65 <= n <= 90 || n == 95 || 97 <= n <= 122
        } {
        is_ascii_chars_encode_utf8(value);
    }
    if is_name(value) {
        assert forall|i: int| 0 <= i < value.len() implies ({
            let n = (#[trigger] value[i]) as int;
            45 <= n <= 46 || 48 <= n <= 58 || 65 <= n <= 90 || n == 95 || 97 <= n <= 122
        }) by {
            assert(name_char(value[i]));
        }
        is_ascii_chars_encode_utf8(value);
    }
}

/// Every secret reference, and nothing else, is between 1 and 256 bytes of `-`, `.`, `/`, `0` to
/// `9`, `A` to `Z`, `_` and `a` to `z` whose every stretch from slash to slash is neither empty nor
/// `.` nor `..`.
pub proof fn secret_references_by_stretches(value: Seq<char>)
    ensures
        is_secret_reference(value) <==> ({
            &&& 1 <= encode_utf8(value).len() <= 256
            &&& forall|i: int|
                0 <= i < value.len() ==> {
                    let n = (#[trigger] value[i]) as int;
                    45 <= n <= 57 || 65 <= n <= 90 || n == 95 || 97 <= n <= 122
                }
            &&& forall|a: int, b: int|
                {
                    &&& 0 <= a <= b <= value.len()
                    &&& a == 0 || value[a - 1] == '/'
                    &&& b == value.len() || value[b] == '/'
                    &&& forall|k: int| a <= k < b ==> #[trigger] value[k] != '/'
                } ==> {
                    let stretch = #[trigger] value.subrange(a, b);
                    &&& stretch.len() != 0
                    &&& !(stretch.len() == 1 && stretch[0] == '.')
                    &&& !(stretch.len() == 2 && stretch[0] == '.' && stretch[1] == '.')
                }
        }),
{
    if forall|i: int|
        0 <= i < value.len() ==> {
            let n = (#[trigger] value[i]) as int;
            45 <= n <= 57 || 65 <= n <= 90 || n == 95 || 97 <= n <= 122
        } {
        is_ascii_chars_encode_utf8(value);
        if 0 < value.len() <= 256 && forall|a: int, b: int|
            is_stretch(value, a, b) ==> plain_stretch(#[trigger] value.subrange(a, b)) {
            plain_stretches_are_accepted(value);
        }
    }
    if is_secret_reference(value) {
        assert forall|i: int| 0 <= i < value.len() implies ({
            let n = (#[trigger] value[i]) as int;
            45 <= n <= 57 || 65 <= n <= 90 || n == 95 || 97 <= n <= 122
        }) by {
            assert(reference_char(value[i]));
        }
        is_ascii_chars_encode_utf8(value);
        assert forall|a: int, b: int| is_stretch(value, a, b) implies plain_stretch(
            #[trigger] value.subrange(a, b),
        ) by {
            let i = stretch_is_a_segment(value, a, b);
            secret_references_have_plain_segments(value, i);
            let stretch = value.subrange(a, b);
            assert(stretch.len() == 1 && stretch[0] == '.' ==> stretch =~= seq!['.']);
            assert(stretch.len() == 2 && stretch[0] == '.' && stretch[1] == '.' ==> stretch
                =~= seq!['.', '.']);
        }
    }
}

/// From slash, or the start, to the next slash, or the end.
spec fn is_stretch(value: Seq<char>, a: int, b: int) -> bool {
    &&& 0 <= a <= b <= value.len()
    &&& a == 0 || value[a - 1] == '/'
    &&& b == value.len() || value[b] == '/'
    &&& forall|k: int| a <= k < b ==> #[trigger] value[k] != '/'
}

spec fn plain_stretch(stretch: Seq<char>) -> bool {
    &&& stretch.len() != 0
    &&& !(stretch.len() == 1 && stretch[0] == '.')
    &&& !(stretch.len() == 2 && stretch[0] == '.' && stretch[1] == '.')
}

proof fn plain_stretches_are_accepted(value: Seq<char>)
    requires
        0 < value.len() <= 256,
        forall|i: int| 0 <= i < value.len() ==> reference_char(#[trigger] value[i]),
        forall|a: int, b: int|
            is_stretch(value, a, b) ==> plain_stretch(#[trigger] value.subrange(a, b)),
    ensures
        is_secret_reference(value),
{
    let end = value.len() as int;
    if value.first() == '/' {
        assert(is_stretch(value, 0, 0));
        assert(plain_stretch(value.subrange(0, 0)));
    }
    if value.last() == '/' {
        assert(is_stretch(value, end, end));
        assert(plain_stretch(value.subrange(end, end)));
    }
    assert forall|i: int| 0 <= i < value.len() - 1 implies !(#[trigger] value[i] == '/' && value[i
        + 1] == '/') by {
        if value[i] == '/' && value[i + 1] == '/' {
            assert(is_stretch(value, i + 1, i + 1));
            assert(plain_stretch(value.subrange(i + 1, i + 1)));
        }
    }
    assert forall|i: int| 0 <= i < segments(value).len() implies !walking(
        #[trigger] segments(value)[i],
    ) by {
        let (a, b) = segment_is_a_stretch(value, i);
        assert(plain_stretch(value.subrange(a, b)));
        assert(seq!['.'].len() == 1 && seq!['.'][0] == '.');
        assert(seq!['.', '.'].len() == 2 && seq!['.', '.'][0] == '.' && seq!['.', '.'][1] == '.');
    }
}

/// Every stretch is a segment, and the last stretch is the last segment.
proof fn stretch_is_a_segment(value: Seq<char>, a: int, b: int) -> (i: int)
    requires
        is_stretch(value, a, b),
    ensures
        0 <= i < segments(value).len(),
        segments(value)[i] == value.subrange(a, b),
        b == value.len() <==> i == segments(value).len() - 1,
    decreases value.len(),
{
    if value.len() == 0 {
        assert(value.subrange(0, 0) =~= Seq::<char>::empty());
        0
    } else {
        let before = value.drop_last();
        let end = value.len() as int;
        segments_grow(before, 0);
        if value.last() == '/' {
            if b == end {
                assert(a == end) by {
                    if a < end {
                        assert(value[end - 1] != '/');
                    }
                }
                assert(value.subrange(a, b) =~= Seq::<char>::empty());
                segments(before).len() as int
            } else {
                assert forall|k: int| a <= k < b implies #[trigger] before[k] != '/' by {
                    assert(value[k] != '/');
                }
                let i = stretch_is_a_segment(before, a, b);
                assert(before.subrange(a, b) =~= value.subrange(a, b));
                i
            }
        } else if b == end {
            assert(a < end);
            assert forall|k: int| a <= k < b - 1 implies #[trigger] before[k] != '/' by {
                assert(value[k] != '/');
            }
            let i = stretch_is_a_segment(before, a, b - 1);
            assert(before.subrange(a, b - 1).push(value.last()) =~= value.subrange(a, b));
            i
        } else {
            assert(b < end - 1);
            assert forall|k: int| a <= k < b implies #[trigger] before[k] != '/' by {
                assert(value[k] != '/');
            }
            let i = stretch_is_a_segment(before, a, b);
            assert(before.subrange(a, b) =~= value.subrange(a, b));
            i
        }
    }
}

/// Every segment is a stretch, and the last segment is the last stretch.
proof fn segment_is_a_stretch(value: Seq<char>, i: int) -> (stretch: (int, int))
    requires
        0 <= i < segments(value).len(),
    ensures
        is_stretch(value, stretch.0, stretch.1),
        segments(value)[i] == value.subrange(stretch.0, stretch.1),
        stretch.1 == value.len() <==> i == segments(value).len() - 1,
    decreases value.len(),
{
    if value.len() == 0 {
        assert(value.subrange(0, 0) =~= Seq::<char>::empty());
        (0, 0)
    } else {
        let before = value.drop_last();
        let end = value.len() as int;
        segments_grow(before, 0);
        if value.last() == '/' && i == segments(value).len() - 1 {
            assert(value.subrange(end, end) =~= Seq::<char>::empty());
            (end, end)
        } else {
            let (a, b) = segment_is_a_stretch(before, i);
            assert forall|k: int| a <= k < b implies #[trigger] value[k] != '/' by {
                assert(before[k] != '/');
            }
            if value.last() != '/' && b == end - 1 {
                assert(before.subrange(a, b).push(value.last()) =~= value.subrange(a, end));
                (a, end)
            } else {
                assert(before.subrange(a, b) =~= value.subrange(a, b));
                (a, b)
            }
        }
    }
}

/// Two paths joined by a slash are a secret reference exactly where both are and the whole is not
/// too long.
pub proof fn secret_references_are_joined_by_slashes(first: Seq<char>, second: Seq<char>)
    ensures
        is_secret_reference(first + seq!['/'] + second) <==> ({
            &&& is_secret_reference(first)
            &&& is_secret_reference(second)
            &&& first.len() + 1 + second.len() <= 256
        }),
{
    let whole = first + seq!['/'] + second;
    let middle = first.len() as int;
    joining_appends_segments(first, second);
    let all = segments(whole);
    segments_grow(first, 0);
    segments_grow(second, 0);
    let count = segments(first).len() as int;
    assert(whole[middle] == '/');
    assert(forall|i: int| 0 <= i < first.len() ==> whole[i] == first[i]);
    assert(forall|i: int| 0 <= i < second.len() ==> whole[middle + 1 + i] == second[i]);
    if is_secret_reference(whole) {
        if first.len() == 0 {
            assert(whole.first() == '/');
        }
        if second.len() == 0 {
            assert(whole.last() == '/');
        }
        assert(first.last() != '/') by {
            if first.last() == '/' {
                assert(whole[middle - 1] == '/' && whole[middle - 1 + 1] == '/');
            }
        }
        assert(second.first() != '/') by {
            if second.first() == '/' {
                assert(whole[middle] == '/' && whole[middle + 1] == '/');
            }
        }
        assert(first.first() == whole.first());
        assert(second.last() == whole.last());
        assert forall|i: int| 0 <= i < first.len() - 1 implies !(#[trigger] first[i] == '/'
            && first[i + 1] == '/') by {
            assert(whole[i] == first[i] && whole[i + 1] == first[i + 1]);
        }
        assert forall|i: int| 0 <= i < second.len() - 1 implies !(#[trigger] second[i] == '/'
            && second[i + 1] == '/') by {
            assert(whole[middle + 1 + i] == second[i] && whole[middle + 1 + i + 1] == second[i + 1]);
        }
        assert forall|i: int| 0 <= i < first.len() implies reference_char(#[trigger] first[i]) by {
            assert(reference_char(whole[i]));
        }
        assert forall|i: int| 0 <= i < second.len() implies reference_char(
            #[trigger] second[i],
        ) by {
            assert(reference_char(whole[middle + 1 + i]));
        }
        assert forall|i: int| 0 <= i < segments(first).len() implies !walking(
            #[trigger] segments(first)[i],
        ) by {
            assert(all[i] == segments(first)[i]);
        }
        assert forall|i: int| 0 <= i < segments(second).len() implies !walking(
            #[trigger] segments(second)[i],
        ) by {
            assert(all[count + i] == segments(second)[i]);
        }
    }
    if is_secret_reference(first) && is_secret_reference(second) && first.len() + 1 + second.len()
        <= 256 {
        assert(first.first() == whole.first());
        assert(second.last() == whole.last());
        assert forall|i: int| 0 <= i < whole.len() - 1 implies !(#[trigger] whole[i] == '/'
            && whole[i + 1] == '/') by {
            if i < middle - 1 {
                assert(whole[i] == first[i] && whole[i + 1] == first[i + 1]);
            } else if i == middle - 1 {
                assert(whole[i] == first.last());
            } else if i == middle {
                assert(whole[i + 1] == second.first());
            } else {
                assert(whole[i] == second[i - middle - 1] && whole[i + 1] == second[i - middle - 1
                    + 1]);
            }
        }
        assert forall|i: int| 0 <= i < whole.len() implies reference_char(#[trigger] whole[i]) by {
            if i < middle {
                assert(reference_char(first[i]));
            } else if i > middle {
                assert(reference_char(second[i - middle - 1]));
            }
        }
        assert forall|i: int| 0 <= i < all.len() implies !walking(#[trigger] all[i]) by {
            if i < count {
                assert(all[i] == segments(first)[i]);
            } else {
                assert(all[i] == segments(second)[i - count]);
            }
        }
    }
}

proof fn joining_appends_segments(first: Seq<char>, second: Seq<char>)
    ensures
        segments(first + seq!['/'] + second) == segments(first) + segments(second),
    decreases second.len(),
{
    let whole = first + seq!['/'] + second;
    if second.len() == 0 {
        assert(whole.drop_last() =~= first);
        assert(whole.last() == '/');
        assert(segments(whole) =~= segments(first) + segments(second));
    } else {
        joining_appends_segments(first, second.drop_last());
        assert(whole.drop_last() =~= first + seq!['/'] + second.drop_last());
        assert(whole.last() == second.last());
        segments_grow(second.drop_last(), 0);
        let before = segments(second.drop_last());
        assert((segments(first) + before).last() == before.last());
        assert(segments(whole) =~= segments(first) + segments(second));
    }
}

} // verus!
