//! The XML envelope that carries the provider's answer back to the caller.

use vstd::prelude::*;

verus! {

/// Content type of every reply that carries an envelope.
pub const XML_CONTENT_TYPE: &'static str = "text/xml; charset=utf-8";

/// What stands before the message in every envelope. The status is always `0`.
pub const ENVELOPE_HEAD: &'static str = "<root><status>0</status><message>";

/// What stands after the message in every envelope.
pub const ENVELOPE_TAIL: &'static str = "</message></root>";

/// Whether `c` has Unicode's `White_Space` property: the ASCII space and the
/// controls from tab to carriage return, next line, the no-break spaces, the
/// Ogham space mark, the spaces of fixed width, the line and paragraph
/// separators, the medium mathematical space and the ideographic space.
pub open spec fn is_white_space(c: char) -> bool {
    let code = c as u32;
    ||| 0x0009 <= code <= 0x000D
    ||| code == 0x0020
    ||| code == 0x0085
    ||| code == 0x00A0
    ||| code == 0x1680
    ||| 0x2000 <= code <= 0x200A
    ||| code == 0x2028
    ||| code == 0x2029
    ||| code == 0x202F
    ||| code == 0x205F
    ||| code == 0x3000
}

/// `s` without its leading white space.
pub open spec fn trim_start(s: Seq<char>) -> Seq<char>
    decreases s.len(),
{
    if s.len() > 0 && is_white_space(s.first()) {
        trim_start(s.drop_first())
    } else {
        s
    }
}

/// `s` without its trailing white space.
pub open spec fn trim_end(s: Seq<char>) -> Seq<char>
    decreases s.len(),
{
    if s.len() > 0 && is_white_space(s.last()) {
        trim_end(s.drop_last())
    } else {
        s
    }
}

/// `s` without the white space at either end.
pub open spec fn trimmed(s: Seq<char>) -> Seq<char> {
    trim_end(trim_start(s))
}

/// Whether `s[from..to]` is `s` without the white space at either end: all
/// before `from` and all from `to` on is white space, and what lies between,
/// if anything does, begins and ends with a character that is not.
pub open spec fn is_core(s: Seq<char>, from: int, to: int) -> bool {
    &&& 0 <= from <= to <= s.len()
    &&& forall|i: int| 0 <= i < from ==> is_white_space(#[trigger] s[i])
    &&& forall|i: int| to <= i < s.len() ==> is_white_space(#[trigger] s[i])
    &&& from < to ==> !is_white_space(s[from]) && !is_white_space(s[to - 1])
}

/// `trim_start(s)` is the rest of `s` from its first character that is not
/// white space.
pub proof fn lemma_trim_start(s: Seq<char>) -> (from: int)
    ensures
        0 <= from <= s.len(),
        trim_start(s) == s.subrange(from, s.len() as int),
        forall|i: int| 0 <= i < from ==> is_white_space(#[trigger] s[i]),
        from < s.len() ==> !is_white_space(s[from]),
    decreases s.len(),
{
    if s.len() > 0 && is_white_space(s.first()) {
        let rest = s.drop_first();
        let inner = lemma_trim_start(rest);
        assert forall|i: int| 0 <= i < inner + 1 implies is_white_space(#[trigger] s[i]) by {
            if i > 0 {
                assert(s[i] == rest[i - 1]);
            }
        }
        inner + 1
    } else {
        0
    }
}

/// `trim_end(s)` is `s` up to its last character that is not white space.
pub proof fn lemma_trim_end(s: Seq<char>) -> (to: int)
    ensures
        0 <= to <= s.len(),
        trim_end(s) == s.subrange(0, to),
        forall|i: int| to <= i < s.len() ==> is_white_space(#[trigger] s[i]),
        0 < to ==> !is_white_space(s[to - 1]),
    decreases s.len(),
{
    if s.len() > 0 && is_white_space(s.last()) {
        let rest = s.drop_last();
        let inner = lemma_trim_end(rest);
        assert forall|i: int| inner <= i < s.len() implies is_white_space(#[trigger] s[i]) by {
            if i < s.len() - 1 {
                assert(s[i] == rest[i]);
            }
        }
        inner
    } else {
        s.len() as int
    }
}

/// `trimmed(s)` is a contiguous part of `s`, verbatim: what is left of `s`
/// when the white space at its two ends is taken away, and nothing else.
pub proof fn lemma_trimmed_is_core(s: Seq<char>) -> (bounds: (int, int))
    ensures
        is_core(s, bounds.0, bounds.1),
        trimmed(s) == s.subrange(bounds.0, bounds.1),
{
    let from = lemma_trim_start(s);
    let rest = s.subrange(from, s.len() as int);
    let inner = lemma_trim_end(rest);
    let to = from + inner;
    assert forall|i: int| to <= i < s.len() implies is_white_space(#[trigger] s[i]) by {
        assert(s[i] == rest[i - from]);
    }
    (from, to)
}

/// Text that neither begins nor ends with white space is left as it is.
pub proof fn lemma_trimmed_leaves_core_alone(s: Seq<char>)
    requires
        s.len() > 0 ==> !is_white_space(s.first()) && !is_white_space(s.last()),
    ensures
        trimmed(s) == s,
{
}

/// Trimming twice is trimming once.
pub proof fn lemma_trimmed_is_idempotent(s: Seq<char>)
    ensures
        trimmed(trimmed(s)) == trimmed(s),
{
    let (from, to) = lemma_trimmed_is_core(s);
    let core = s.subrange(from, to);
    lemma_trimmed_leaves_core_alone(core);
}

/// The envelope for a provider body: the body, trimmed and otherwise verbatim,
/// between the fixed head and tail.
pub open spec fn envelope(body: Seq<char>) -> Seq<char> {
    ENVELOPE_HEAD@ + trimmed(body) + ENVELOPE_TAIL@
}

/// `str::trim` of the standard library: the result is the argument without its
/// leading and trailing white space, where white space is what Unicode's
/// `White_Space` property marks.
pub assume_specification[ str::trim ](s: &str) -> (t: &str)
    ensures
        t@ == trimmed(s@),
;

/// Renders a provider body into the envelope. Nothing in the body is escaped.
pub fn format_envelope(body: &str) -> (document: String)
    ensures
        document@ == envelope(body@),
{
    let mut document: String = ENVELOPE_HEAD.to_owned();
    document.append(body.trim());
    document.append(ENVELOPE_TAIL);
    document
}

} // verus!
