//! Bounded public text: the checks every native identifier, reason code and
//! prompt goes through before it reaches storage.
use vstd::prelude::*;
use vstd::string::StrSliceExecFns;
use vstd::string::StringSliceAdditionalSpecFns;

verus! {

/// Unicode `White_Space`, the set `char::is_whitespace` answers for.
pub open spec fn is_white(c: char) -> bool {
    let v = c as u32;
    ||| 0x09 <= v <= 0x0D
    ||| v == 0x20
    ||| v == 0x85
    ||| v == 0xA0
    ||| v == 0x1680
    ||| 0x2000 <= v <= 0x200A
    ||| v == 0x2028
    ||| v == 0x2029
    ||| v == 0x202F
    ||| v == 0x205F
    ||| v == 0x3000
}

/// The text is not empty after trimming white space.
pub open spec fn has_content(s: Seq<char>) -> bool {
    exists|i: int| 0 <= i < s.len() && !is_white(#[trigger] s[i])
}

/// Text has content exactly when some character, at whatever position, is not white space.
pub proof fn content_anywhere(s: Seq<char>)
    ensures
        forall|i: int| 0 <= i < s.len() && !is_white(#[trigger] s[i]) ==> has_content(s),
        has_content(s) ==> exists|i: int| 0 <= i < s.len() && !is_white(#[trigger] s[i]),
{
}

/// `char::is_whitespace`, written out over its documented set.
pub fn is_whitespace(c: char) -> (r: bool)
    ensures
        r == is_white(c),
{
    let v = c as u32;
    (0x09 <= v && v <= 0x0D) || v == 0x20 || v == 0x85 || v == 0xA0 || v == 0x1680 || (0x2000
        <= v && v <= 0x200A) || v == 0x2028 || v == 0x2029 || v == 0x202F || v == 0x205F || v
        == 0x3000
}

/// `!text.trim().is_empty()`.
pub fn not_blank(text: &str) -> (r: bool)
    ensures
        r == has_content(text@),
{
    let mut found = false;
    for c in it: text.chars()
        invariant
            it.seq() == text@,
            found == (exists|i: int| 0 <= i < it.index() && !is_white(#[trigger] text@[i])),
    {
        if !is_whitespace(c) {
            found = true;
        }
    }
    found
}

} // verus!

verus! {

/// The text's length in UTF-8 bytes, as `str::len` returns it.
pub open spec fn byte_len(text: Seq<char>) -> nat {
    vstd::utf8::encode_utf8(text).len()
}

/// `!text.trim().is_empty() && text.len() <= limit`.
pub open spec fn is_bounded(text: Seq<char>, limit: nat) -> bool {
    has_content(text) && byte_len(text) <= limit
}

/// Whether the text holds the character `c`.
pub open spec fn holds(s: Seq<char>, c: char) -> bool {
    exists|i: int| 0 <= i < s.len() && #[trigger] s[i] == c
}

/// Text holds a character exactly when it stands at some position.
pub proof fn held_anywhere(s: Seq<char>, c: char)
    ensures
        forall|i: int| 0 <= i < s.len() && #[trigger] s[i] == c ==> holds(s, c),
        holds(s, c) ==> exists|i: int| 0 <= i < s.len() && #[trigger] s[i] == c,
{
}

/// Non-blank text of at most `limit` UTF-8 bytes.
pub fn bounded(text: &str, limit: usize) -> (r: bool)
    ensures
        r == is_bounded(text@, limit as nat),
{
    not_blank(text) && text.as_bytes().len() <= limit
}

/// `text.contains(c)` for a single character.
pub fn contains_char(text: &str, c: char) -> (r: bool)
    ensures
        r == holds(text@, c),
{
    let mut found = false;
    for x in it: text.chars()
        invariant
            it.seq() == text@,
            found == (exists|i: int| 0 <= i < it.index() && #[trigger] text@[i] == c),
    {
        if x == c {
            found = true;
        }
    }
    found
}

/// Character-wise equality of two texts.
pub fn same_text(a: &str, b: &str) -> (r: bool)
    ensures
        r == (a@ == b@),
{
    let n = b.unicode_len();
    let mut equal = true;
    let mut longer = false;
    let mut count: usize = 0;
    for x in it: a.chars()
        invariant
            it.seq() == a@,
            n == b@.len(),
            count <= n,
            longer == (it.index() > n),
            !longer ==> count == it.index(),
            longer ==> count == n,
            equal == (forall|i: int| 0 <= i < count ==> #[trigger] a@[i] == b@[i]),
    {
        if count < n {
            if x != b.get_char(count) {
                equal = false;
            }
            count = count + 1;
        } else {
            longer = true;
        }
    }
    proof {
        if equal && !longer && count == n {
            assert(a@ =~= b@);
        }
        if a@ == b@ {
            assert(!longer);
            assert forall|i: int| 0 <= i < count implies #[trigger] a@[i] == b@[i] by {}
        }
    }
    equal && !longer && count == n
}

} // verus!

verus! {

/// Unicode general category Cc, the set `char::is_control` answers for.
pub open spec fn is_control_char(c: char) -> bool {
    let v = c as u32;
    v <= 0x1F || (0x7F <= v <= 0x9F)
}

/// Whether the text holds a control character.
pub open spec fn has_control(s: Seq<char>) -> bool {
    exists|i: int| 0 <= i < s.len() && is_control_char(#[trigger] s[i])
}

/// Text has a control character exactly when one stands at some position.
pub proof fn control_anywhere(s: Seq<char>)
    ensures
        forall|i: int| 0 <= i < s.len() && is_control_char(#[trigger] s[i]) ==> has_control(s),
        has_control(s) ==> exists|i: int| 0 <= i < s.len() && is_control_char(#[trigger] s[i]),
{
}

/// `text.chars().any(char::is_control)`.
pub fn any_control(text: &str) -> (r: bool)
    ensures
        r == has_control(text@),
{
    let mut found = false;
    for x in it: text.chars()
        invariant
            it.seq() == text@,
            found == (exists|i: int| 0 <= i < it.index() && is_control_char(#[trigger] text@[i])),
    {
        let v = x as u32;
        if v <= 0x1F || (0x7F <= v && v <= 0x9F) {
            found = true;
        }
    }
    found
}

/// The texts of a list of strings.
pub open spec fn texts(v: Seq<String>) -> Seq<Seq<char>> {
    v.map_values(|s: String| s@)
}

/// Appends a reason code to a list of reasons.
pub fn push_reason(reasons: &mut Vec<String>, reason: &str)
    ensures
        texts(final(reasons)@) == texts(old(reasons)@).push(reason@),
{
    reasons.push(reason.to_string());
    assert(texts(reasons@) =~= texts(old(reasons)@).push(reason@));
}

} // verus!
