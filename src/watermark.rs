//! The persisted watermark: the text written for it, and how a stored text,
//! or its absence, is read back.
use vstd::prelude::*;
use vstd::string::StrSliceExecFns;
use crate::instant::{parsed_instant, rfc3339_text, Instant};

verus! {

/// A character of Unicode's White_Space property, the set that
/// `char::is_whitespace` and `str::trim` go by.
pub open spec fn is_white_space(c: char) -> bool {
    ||| '\t' <= c <= '\r'
    ||| c == ' '
    ||| c == '\u{85}'
    ||| c == '\u{A0}'
    ||| c == '\u{1680}'
    ||| '\u{2000}' <= c <= '\u{200A}'
    ||| c == '\u{2028}'
    ||| c == '\u{2029}'
    ||| c == '\u{202F}'
    ||| c == '\u{205F}'
    ||| c == '\u{3000}'
}

/// `s` without its leading white space.
pub open spec fn trim_start(s: Seq<char>) -> Seq<char>
    decreases s.len(),
{
    if s.len() > 0 && is_white_space(s[0]) {
        trim_start(s.drop_first())
    } else {
        s
    }
}

/// `s` without its trailing white space.
pub open spec fn trim_end(s: Seq<char>) -> Seq<char>
    decreases s.len(),
{
    if s.len() > 0 && is_white_space(s.last()) {
        trim_end(s.drop_last())
    } else {
        s
    }
}

/// `s` without white space at either end.
pub open spec fn trimmed(s: Seq<char>) -> Seq<char> {
    trim_end(trim_start(s))
}

fn white_space(c: char) -> (r: bool)
    ensures
        r == is_white_space(c),
{
    ('\t' <= c && c <= '\r') || c == ' ' || c == '\u{85}' || c == '\u{A0}' || c == '\u{1680}'
        || ('\u{2000}' <= c && c <= '\u{200A}') || c == '\u{2028}' || c == '\u{2029}' || c
        == '\u{202F}' || c == '\u{205F}' || c == '\u{3000}'
}

/// Drops the white space at both ends of a text.
pub fn trim(s: &str) -> (r: &str)
    ensures
        r@ == trimmed(s@),
{
    let n = s.unicode_len();
    let mut i: usize = 0;
    assert(s@.subrange(0, n as int) == s@);
    while i < n && white_space(s.get_char(i))
        invariant
            n == s@.len(),
            i <= n,
            trim_start(s@) == trim_start(s@.subrange(i as int, n as int)),
        decreases n - i,
    {
        assert(s@.subrange(i as int, n as int).drop_first() == s@.subrange(i + 1, n as int));
        i = i + 1;
    }
    let ghost rest = s@.subrange(i as int, n as int);
    assert(trim_start(s@) == rest);
    let mut j: usize = n;
    while j > i && white_space(s.get_char(j - 1))
        invariant
            n == s@.len(),
            i <= j <= n,
            rest == s@.subrange(i as int, n as int),
            trim_end(rest) == trim_end(s@.subrange(i as int, j as int)),
        decreases j,
    {
        assert(s@.subrange(i as int, j as int).drop_last() == s@.subrange(i as int, j - 1));
        j = j - 1;
    }
    s.substring_char(i, j)
}

/// The watermark that a stored text stands for: the instant it names, as it
/// stands or once surrounding white space is dropped, or `now` when it names
/// none. (An RFC 3339 text begins with a digit and ends with a digit or `Z`, so
/// the two readings never name different instants.)
pub open spec fn decoded(text: Seq<char>, now: Instant) -> Instant {
    match stored_instant(text) {
        Some(t) => t,
        None => now,
    }
}

/// The instant that a stored text names, as it stands or once trimmed.
pub open spec fn stored_instant(text: Seq<char>) -> Option<Instant> {
    match parsed_instant(text) {
        Some(t) => Some(t),
        None => parsed_instant(trimmed(text)),
    }
}

/// The text stored for watermark `t`: its RFC 3339 form.
pub fn encode_watermark(t: Instant) -> (r: String)
    requires
        t.wf(),
    ensures
        r@ == rfc3339_text(t.secs, t.nanos),
{
    t.to_rfc3339()
}

/// Reads a stored text back as a watermark, falling back to `now` when the
/// text is not an RFC 3339 date-time. A text that `encode_watermark` wrote for
/// an instant of the years 0000 to 9999 gives that instant back exactly.
pub fn decode_watermark(text: &str, now: Instant) -> (r: Instant)
    requires
        now.wf(),
    ensures
        r == decoded(text@, now),
        r.wf(),
        stored_instant(text@) is None ==> r == now,
        forall|t: Instant|
            t.wf() && t.in_text_range() && text@ == #[trigger] rfc3339_text(t.secs, t.nanos)
                ==> r == t,
{
    match Instant::parse_rfc3339(text) {
        Some(t) => t,
        None => match Instant::parse_rfc3339(trim(text)) {
            Some(t) => t,
            None => now,
        },
    }
}

/// The watermark to start from, given the clock reading `now`: the stored
/// text if there is one, read as `decode_watermark` reads it, else `now`, so
/// that a missing or damaged store skips the backlog instead of failing.
pub fn watermark_from(stored: Option<String>, now: Instant) -> (r: Instant)
    requires
        now.wf(),
    ensures
        r.wf(),
        stored is None ==> r == now,
        stored is Some ==> r == decoded(stored->0@, now),
{
    match stored {
        Some(text) => decode_watermark(text.as_str(), now),
        None => now,
    }
}

/// The watermark to start from, read against the current time of the
/// system clock (see `watermark_from`).
pub fn load_watermark(stored: Option<String>) -> (r: Instant)
    ensures
        r.wf(),
        stored is Some && stored_instant(stored->0@) is Some ==> r == stored_instant(
            stored->0@,
        )->0,
{
    let now = Instant::now();
    watermark_from(stored, now)
}

} // verus!
