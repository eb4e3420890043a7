//! Texts as sequences of characters, and the rewrites that bring a tolerated
//! variant of a timestamp closer to its canonical shape.
//!
//! Every position in this module counts characters, not bytes.

use vstd::prelude::*;
use vstd::std_specs::iter::IteratorSpec;

verus! {

/// The length of a date and time written in full, `YYYY-MM-DDTHH:MM:SS`. A
/// space before a sign separates an offset only at or after this position;
/// before it, the space belongs to the date and time themselves.
pub const DATE_TIME_LEN: usize = 19;

/// The length of a calendar date, `YYYY-MM-DD`.
pub const DATE_LEN: usize = 10;

/// Whether `c` has the Unicode property `White_Space`.
pub open spec fn white_space(c: char) -> bool {
    let n = c as u32;
    ||| 0x09 <= n <= 0x0D
    ||| n == 0x20
    ||| n == 0x85
    ||| n == 0xA0
    ||| n == 0x1680
    ||| 0x2000 <= n <= 0x200A
    ||| n == 0x2028
    ||| n == 0x2029
    ||| n == 0x202F
    ||| n == 0x205F
    ||| n == 0x3000
}

/// `s` without the white space at its start.
pub open spec fn trimmed_start(s: Seq<char>) -> Seq<char>
    decreases s.len(),
{
    if s.len() > 0 && white_space(s.first()) {
        trimmed_start(s.drop_first())
    } else {
        s
    }
}

/// `s` without the white space at its end.
pub open spec fn trimmed_end(s: Seq<char>) -> Seq<char>
    decreases s.len(),
{
    if s.len() > 0 && white_space(s.last()) {
        trimmed_end(s.drop_last())
    } else {
        s
    }
}

/// `s` without the white space at its start and at its end.
pub open spec fn trimmed(s: Seq<char>) -> Seq<char> {
    trimmed_end(trimmed_start(s))
}

/// Whether a space stands at position `i` of `s`, directly before `sign`.
pub open spec fn space_before(s: Seq<char>, sign: char, i: int) -> bool {
    0 <= i && i + 1 < s.len() && s[i] == ' ' && s[i + 1] == sign
}

/// The last position below `end` at which a space stands directly before
/// `sign`.
pub open spec fn last_space_before(s: Seq<char>, sign: char, end: int) -> Option<int>
    decreases end,
{
    if end <= 0 {
        None
    } else if space_before(s, sign, end - 1) {
        Some(end - 1)
    } else {
        last_space_before(s, sign, end - 1)
    }
}

/// `s` with the offset joined to the time: where the last space that stands
/// directly before `sign` is at or after [`DATE_TIME_LEN`], that space is
/// gone. Any other text is unchanged.
pub open spec fn offset_joined(s: Seq<char>, sign: char) -> Seq<char> {
    match last_space_before(s, sign, s.len() as int) {
        Some(i) => if i >= DATE_TIME_LEN {
            s.remove(i)
        } else {
            s
        },
        None => s,
    }
}

/// `s` with a dash for every slash among its first [`DATE_LEN`] characters. A
/// text shorter than that is unchanged.
pub open spec fn date_dashed(s: Seq<char>) -> Seq<char> {
    if s.len() >= DATE_LEN {
        Seq::new(
            s.len(),
            |i: int|
                if i < DATE_LEN && s[i] == '/' {
                    '-'
                } else {
                    s[i]
                },
        )
    } else {
        s
    }
}

/// What the tolerated variants are read from: `s` trimmed, then a space before
/// a `+` offset taken out, then one before a `-` offset, then the slashes of
/// the date turned into dashes.
pub open spec fn prepared(s: Seq<char>) -> Seq<char> {
    date_dashed(offset_joined(offset_joined(trimmed(s), '+'), '-'))
}

/// Tells whether `c` has the Unicode property `White_Space`.
pub fn is_white_space(c: char) -> (b: bool)
    ensures
        b == white_space(c),
{
    let n: u32 = c as u32;
    (0x09 <= n && n <= 0x0D) || n == 0x20 || n == 0x85 || n == 0xA0 || n == 0x1680 || (0x2000 <= n
        && n <= 0x200A) || n == 0x2028 || n == 0x2029 || n == 0x202F || n == 0x205F || n == 0x3000
}

/// The characters of `text`, in order.
pub fn chars_of(text: &str) -> (chars: Vec<char>)
    ensures
        chars@ == text@,
{
    let mut chars: Vec<char> = Vec::new();
    for c in it: text.chars()
        invariant
            chars@ == it.seq().take(it.index()),
            it.seq() == text@,
    {
        chars.push(c);
    }
    chars
}

/// `String::from_iter` on the characters of `chars`: the string that holds
/// exactly these characters, in this order.
#[verifier::external_body]
pub(crate) fn string_of(chars: Vec<char>) -> (text: String)
    ensures
        text@ == chars@,
{
    String::from_iter(chars)
}

/// The part of `chars` that is left when the white space at both ends is
/// taken away.
pub fn trim(chars: &Vec<char>) -> (out: Vec<char>)
    ensures
        out@ == trimmed(chars@),
{
    let len: usize = chars.len();
    let mut start: usize = 0;
    assert(chars@.subrange(0, len as int) == chars@);
    while start < len && is_white_space(chars[start])
        invariant
            start <= len,
            len == chars@.len(),
            trimmed_start(chars@) == trimmed_start(chars@.subrange(start as int, len as int)),
        decreases len - start,
    {
        assert(chars@.subrange(start as int, len as int).drop_first() == chars@.subrange(
            start + 1,
            len as int,
        ));
        start += 1;
    }
    assert(trimmed_start(chars@) == chars@.subrange(start as int, len as int));
    let mut end: usize = len;
    while end > start && is_white_space(chars[end - 1])
        invariant
            start <= end <= len,
            len == chars@.len(),
            trimmed(chars@) == trimmed_end(chars@.subrange(start as int, end as int)),
        decreases end - start,
    {
        assert(chars@.subrange(start as int, end as int).drop_last() == chars@.subrange(
            start as int,
            end - 1,
        ));
        end -= 1;
    }
    assert(trimmed(chars@) == chars@.subrange(start as int, end as int));
    let mut out: Vec<char> = Vec::new();
    let mut i: usize = start;
    while i < end
        invariant
            start <= i <= end <= len,
            len == chars@.len(),
            out@ == chars@.subrange(start as int, i as int),
        decreases end - i,
    {
        out.push(chars[i]);
        i += 1;
    }
    out
}

/// The last position at which a space stands directly before `sign`.
pub fn find_last_space_before(chars: &Vec<char>, sign: char) -> (r: Option<usize>)
    ensures
        r matches Some(i) ==> last_space_before(chars@, sign, chars@.len() as int) == Some(
            i as int,
        ),
        r matches Some(i) ==> space_before(chars@, sign, i as int),
        r is None ==> last_space_before(chars@, sign, chars@.len() as int) is None,
{
    let len: usize = chars.len();
    let mut end: usize = len;
    while end > 0
        invariant
            end <= len,
            len == chars@.len(),
            last_space_before(chars@, sign, len as int) == last_space_before(
                chars@,
                sign,
                end as int,
            ),
        decreases end,
    {
        let i: usize = end - 1;
        if i + 1 < len && chars[i] == ' ' && chars[i + 1] == sign {
            return Some(i);
        }
        end = i;
    }
    None
}

/// Joins the offset to the time: takes out the last space that stands directly
/// before `sign`, if it is at or after [`DATE_TIME_LEN`].
pub fn join_offset(chars: &mut Vec<char>, sign: char)
    ensures
        final(chars)@ == offset_joined(old(chars)@, sign),
{
    match find_last_space_before(chars, sign) {
        Some(i) => {
            if i >= DATE_TIME_LEN {
                chars.remove(i);
            }
        },
        None => {},
    }
}

/// Turns every slash among the first [`DATE_LEN`] characters into a dash, in a
/// text that has that many.
pub fn dash_date(chars: &mut Vec<char>)
    ensures
        final(chars)@ == date_dashed(old(chars)@),
{
    if chars.len() >= DATE_LEN {
        let mut i: usize = 0;
        while i < DATE_LEN
            invariant
                i <= DATE_LEN <= chars@.len(),
                chars@.len() == old(chars)@.len(),
                forall|j: int|
                    0 <= j < chars@.len() ==> chars@[j] == if j < i && old(chars)@[j] == '/' {
                        '-'
                    } else {
                        old(chars)@[j]
                    },
            decreases DATE_LEN - i,
        {
            if chars[i] == '/' {
                chars.set(i, '-');
            }
            i += 1;
        }
        assert(chars@ =~= date_dashed(old(chars)@));
    }
}

/// Makes `input` ready for the tolerated variants: trims it, joins a `+` and
/// then a `-` offset to the time, and writes the date with dashes.
pub fn prepare(input: &str) -> (out: String)
    ensures
        out@ == prepared(input@),
{
    let chars = chars_of(input);
    let mut work = trim(&chars);
    join_offset(&mut work, '+');
    join_offset(&mut work, '-');
    dash_date(&mut work);
    string_of(work)
}

/// Trimming the start takes away a run of white space and nothing else: what
/// is left is the rest of `s`, and it does not start with white space.
pub proof fn lemma_trimmed_start(s: Seq<char>)
    ensures
        trimmed_start(s).len() <= s.len(),
        trimmed_start(s) == s.subrange(s.len() - trimmed_start(s).len(), s.len() as int),
        forall|j: int| 0 <= j < s.len() - trimmed_start(s).len() ==> white_space(s[j]),
        trimmed_start(s).len() > 0 ==> !white_space(trimmed_start(s).first()),
    decreases s.len(),
{
    if s.len() > 0 && white_space(s.first()) {
        let rest = s.drop_first();
        lemma_trimmed_start(rest);
        let kept = trimmed_start(rest);
        assert(kept == s.subrange(s.len() - kept.len(), s.len() as int));
        assert forall|j: int| 0 <= j < s.len() - kept.len() implies white_space(s[j]) by {
            if j > 0 {
                assert(s[j] == rest[j - 1]);
            }
        }
    } else {
        assert(s == s.subrange(0, s.len() as int));
    }
}

/// Trimming the end takes away a run of white space and nothing else: what is
/// left is the start of `s`, and it does not end with white space.
pub proof fn lemma_trimmed_end(s: Seq<char>)
    ensures
        trimmed_end(s).len() <= s.len(),
        trimmed_end(s) == s.subrange(0, trimmed_end(s).len() as int),
        forall|j: int| trimmed_end(s).len() <= j < s.len() ==> white_space(s[j]),
        trimmed_end(s).len() > 0 ==> !white_space(trimmed_end(s).last()),
    decreases s.len(),
{
    if s.len() > 0 && white_space(s.last()) {
        let rest = s.drop_last();
        lemma_trimmed_end(rest);
        let kept = trimmed_end(rest);
        assert(kept == s.subrange(0, kept.len() as int));
        assert forall|j: int| kept.len() <= j < s.len() implies white_space(s[j]) by {
            if j < s.len() - 1 {
                assert(s[j] == rest[j]);
            }
        }
    } else {
        assert(s == s.subrange(0, s.len() as int));
    }
}

/// A trimmed text neither starts nor ends with white space, and it is no
/// longer than the text it was made from.
pub proof fn lemma_trimmed(s: Seq<char>)
    ensures
        trimmed(s).len() <= s.len(),
        trimmed(s).len() > 0 ==> !white_space(trimmed(s).first()) && !white_space(
            trimmed(s).last(),
        ),
{
    lemma_trimmed_start(s);
    lemma_trimmed_end(trimmed_start(s));
}

/// The position that [`last_space_before`] gives is one at which a space
/// stands directly before `sign`, and no such position follows it below `end`;
/// where it gives none, there is none below `end`.
pub proof fn lemma_last_space_before(s: Seq<char>, sign: char, end: int)
    ensures
        match last_space_before(s, sign, end) {
            Some(i) => i < end && space_before(s, sign, i) && forall|j: int|
                i < j < end ==> !space_before(s, sign, j),
            None => forall|j: int| j < end ==> !space_before(s, sign, j),
        },
    decreases end,
{
    if end > 0 && !space_before(s, sign, end - 1) {
        lemma_last_space_before(s, sign, end - 1);
    }
}

/// Joining the offset never touches the date and time: the characters before
/// [`DATE_TIME_LEN`] stay as they are, and at most one character goes.
pub proof fn lemma_offset_joined(s: Seq<char>, sign: char)
    ensures
        s.len() - 1 <= offset_joined(s, sign).len() <= s.len(),
        forall|j: int|
            0 <= j < DATE_TIME_LEN && j < offset_joined(s, sign).len() ==> offset_joined(
                s,
                sign,
            )[j] == s[j],
{
    lemma_last_space_before(s, sign, s.len() as int);
}

/// Writing the date with dashes keeps the length, leaves no slash among the
/// first [`DATE_LEN`] characters of a text that has that many, and changes
/// nothing but slashes among them.
pub proof fn lemma_date_dashed(s: Seq<char>)
    ensures
        date_dashed(s).len() == s.len(),
        s.len() >= DATE_LEN ==> forall|j: int| 0 <= j < DATE_LEN ==> date_dashed(s)[j] != '/',
        forall|j: int|
            0 <= j < s.len() && date_dashed(s)[j] != s[j] ==> j < DATE_LEN && s[j] == '/'
                && date_dashed(s)[j] == '-',
{
}

} // verus!
