//! Text: what this crate takes for granted of the strings and characters
//! of the standard library, beyond what `vstd` already specifies, and
//! trimming built on it.

use vstd::prelude::*;

verus! {

/// `String::push` appends the given character to the end of the string.
pub assume_specification[ String::push ](s: &mut String, ch: char)
    ensures
        final(s)@ == old(s)@.push(ch),
;

/// `String::pop` removes the last character and returns it; on an empty
/// string it returns `None` and leaves the string as it is.
pub assume_specification[ String::pop ](s: &mut String) -> (last: Option<char>)
    ensures
        old(s)@.len() > 0 ==> last == Some(old(s)@.last()) && final(s)@ == old(s)@.drop_last(),
        old(s)@.len() == 0 ==> last.is_none() && final(s)@ == old(s)@,
;

/// `String::clear` removes all contents of the string.
pub assume_specification[ String::clear ](s: &mut String)
    ensures
        final(s)@ == Seq::<char>::empty(),
;

/// What `char::is_whitespace` returns for a character: whether it has the
/// Unicode property `White_Space`.
pub uninterp spec fn spec_is_whitespace(c: char) -> bool;

/// Calls `char::is_whitespace`.
///
/// Trusted: the answer depends on the character alone, and the contract
/// gives it its name.
#[verifier::external_body]
fn is_whitespace(c: char) -> (white: bool)
    ensures
        white == spec_is_whitespace(c),
{
    c.is_whitespace()
}

/// A text without the whitespace it starts with.
pub open spec fn spec_trim_start(text: Seq<char>) -> Seq<char>
    decreases text.len(),
{
    if text.len() > 0 && spec_is_whitespace(text[0]) {
        spec_trim_start(text.drop_first())
    } else {
        text
    }
}

/// A text without the whitespace it ends with.
pub open spec fn spec_trim_end(text: Seq<char>) -> Seq<char>
    decreases text.len(),
{
    if text.len() > 0 && spec_is_whitespace(text.last()) {
        spec_trim_end(text.drop_last())
    } else {
        text
    }
}

/// A text without the whitespace around it.
pub open spec fn spec_trim(text: Seq<char>) -> Seq<char> {
    spec_trim_end(spec_trim_start(text))
}

/// A trimmed text is a stretch of the text it was made of, what was cut
/// off at either end is whitespace, and no whitespace is left at its ends.
pub proof fn lemma_trim(text: Seq<char>)
    ensures
        exists|from: int, to: int|
            (0 <= from <= to <= text.len() && #[trigger] text.subrange(from, to) == spec_trim(text)
                && (forall|i: int| 0 <= i < from ==> spec_is_whitespace(#[trigger] text[i]))
                && (forall|i: int| to <= i < text.len() ==> spec_is_whitespace(#[trigger] text[i]))),
        spec_trim(text).len() > 0 ==> !spec_is_whitespace(spec_trim(text)[0])
            && !spec_is_whitespace(spec_trim(text).last()),
{
    let from = lemma_trim_start(text);
    let rest = text.subrange(from, text.len() as int);
    let to = lemma_trim_end(rest);
    assert(rest.subrange(0, to) =~= text.subrange(from, from + to));
    assert forall|i: int| from + to <= i < text.len() implies spec_is_whitespace(
        #[trigger] text[i],
    ) by {
        assert(rest[i - from] == text[i]);
    }
}

/// Where the text without its leading whitespace begins.
proof fn lemma_trim_start(text: Seq<char>) -> (from: int)
    ensures
        0 <= from <= text.len(),
        text.subrange(from, text.len() as int) == spec_trim_start(text),
        forall|i: int| 0 <= i < from ==> spec_is_whitespace(#[trigger] text[i]),
        from < text.len() ==> !spec_is_whitespace(text[from]),
    decreases text.len(),
{
    if text.len() > 0 && spec_is_whitespace(text[0]) {
        let rest = text.drop_first();
        let from = lemma_trim_start(rest);
        assert forall|i: int| 0 <= i < from + 1 implies spec_is_whitespace(#[trigger] text[i]) by {
            if i > 0 {
                assert(rest[i - 1] == text[i]);
            }
        }
        from + 1
    } else {
        0
    }
}

/// Where the text without its trailing whitespace ends.
proof fn lemma_trim_end(text: Seq<char>) -> (to: int)
    ensures
        0 <= to <= text.len(),
        text.subrange(0, to) == spec_trim_end(text),
        forall|i: int| to <= i < text.len() ==> spec_is_whitespace(#[trigger] text[i]),
        to > 0 ==> !spec_is_whitespace(text[to - 1]),
    decreases text.len(),
{
    if text.len() > 0 && spec_is_whitespace(text.last()) {
        let rest = text.drop_last();
        let to = lemma_trim_end(rest);
        assert forall|i: int| to <= i < text.len() implies spec_is_whitespace(#[trigger] text[i]) by {
            if i < rest.len() {
                assert(rest[i] == text[i]);
            }
        }
        to
    } else {
        text.len() as int
    }
}

/// The text without the whitespace around it.
pub fn trimmed(text: &str) -> (trimmed: String)
    ensures
        trimmed@ == spec_trim(text@),
{
    let len: usize = text.unicode_len();
    let mut from: usize = 0;
    assert(text@.subrange(0, len as int) =~= text@);
    while from < len && is_whitespace(text.get_char(from))
        invariant
            from <= len,
            len == text@.len(),
            spec_trim_start(text@) == spec_trim_start(text@.subrange(from as int, len as int)),
        decreases len - from,
    {
        assert(text@.subrange(from as int, len as int).drop_first() =~= text@.subrange(
            from + 1,
            len as int,
        ));
        from = from + 1;
    }
    let ghost rest = text@.subrange(from as int, len as int);
    let mut to: usize = len;
    while to > from && is_whitespace(text.get_char(to - 1))
        invariant
            from <= to <= len,
            len == text@.len(),
            rest == text@.subrange(from as int, len as int),
            spec_trim_end(rest) == spec_trim_end(text@.subrange(from as int, to as int)),
        decreases to,
    {
        assert(text@.subrange(from as int, to as int).drop_last() =~= text@.subrange(
            from as int,
            to - 1,
        ));
        to = to - 1;
    }
    text.substring_char(from, to).to_owned()
}

} // verus!
