//! The operating-system release that the host reports, checked before it
//! becomes part of an image tag.

use crate::text::characters;
use vstd::prelude::*;
use vstd::string::*;

verus! {

/// Blank characters that may surround the release in the host's answer.
pub open spec fn is_blank(c: char) -> bool {
    c == ' ' || c == '\t' || c == '\n' || c == '\r'
}

/// Characters a release identifier is made of: ASCII letters and digits, the
/// dot and the underscore. The hyphen is left out because it separates the
/// release from the driver version in a tag.
pub open spec fn is_release_char(c: char) -> bool {
    ||| '0' <= c <= '9'
    ||| 'a' <= c <= 'z'
    ||| 'A' <= c <= 'Z'
    ||| c == '.'
    ||| c == '_'
}

/// `text` without the blanks at its start.
pub open spec fn without_leading_blanks(text: Seq<char>) -> Seq<char>
    decreases text.len(),
{
    if text.len() > 0 && is_blank(text[0]) {
        without_leading_blanks(text.drop_first())
    } else {
        text
    }
}

/// `text` without the blanks at its end.
pub open spec fn without_trailing_blanks(text: Seq<char>) -> Seq<char>
    decreases text.len(),
{
    if text.len() > 0 && is_blank(text.last()) {
        without_trailing_blanks(text.drop_last())
    } else {
        text
    }
}

/// `text` without the blanks on either side.
pub open spec fn trimmed(text: Seq<char>) -> Seq<char> {
    without_trailing_blanks(without_leading_blanks(text))
}

/// A usable release identifier: not empty, release characters only.
pub open spec fn is_release_text(text: Seq<char>) -> bool {
    &&& text.len() > 0
    &&& forall|i: int| 0 <= i < text.len() ==> is_release_char(#[trigger] text[i])
}

/// The release identifier that the host's answer `raw` holds, if it holds one.
pub open spec fn release_of(raw: Seq<char>) -> Option<Seq<char>> {
    if is_release_text(trimmed(raw)) {
        Some(trimmed(raw))
    } else {
        None
    }
}

/// The host's answer held no usable release identifier.
#[derive(Clone, Copy, Debug, PartialEq, Eq)]
pub struct VersionUnavailable;

/// A release identifier that has been checked.
#[derive(Debug, PartialEq, Eq)]
pub struct OsRelease {
    text: String,
}

impl View for OsRelease {
    type V = Seq<char>;

    closed spec fn view(&self) -> Seq<char> {
        self.text@
    }
}

fn is_blank_char(c: char) -> (blank: bool)
    ensures
        blank == is_blank(c),
{
    c == ' ' || c == '\t' || c == '\n' || c == '\r'
}

fn is_release_character(c: char) -> (accepted: bool)
    ensures
        accepted == is_release_char(c),
{
    (c >= '0' && c <= '9') || (c >= 'a' && c <= 'z') || (c >= 'A' && c <= 'Z') || c == '.'
        || c == '_'
}

impl Clone for OsRelease {
    fn clone(&self) -> (copy: Self)
        ensures
            copy@ == self@,
    {
        proof {
            use_type_invariant(self);
        }
        OsRelease { text: self.text.clone() }
    }
}

impl OsRelease {
    #[verifier::type_invariant]
    spec fn well_formed(self) -> bool {
        is_release_text(self.text@)
    }

    /// Reads the release identifier out of the host's answer: blanks around
    /// it are dropped, and what remains must be a usable identifier.
    pub fn parse(raw: &str) -> (parsed: Result<OsRelease, VersionUnavailable>)
        ensures
            (match parsed {
                Ok(release) => release_of(raw@) == Some(release@),
                Err(_) => release_of(raw@) is None,
            }),
    {
        let chars = characters(raw);
        let len = chars.len();
        let mut start: usize = 0;
        assert(raw@.subrange(0, len as int) == raw@);
        while start < len && is_blank_char(chars[start])
            invariant
                chars@ == raw@,
                len == raw@.len(),
                start <= len,
                without_leading_blanks(raw@) == without_leading_blanks(
                    raw@.subrange(start as int, len as int),
                ),
            decreases len - start,
        {
            proof {
                let rest = raw@.subrange(start as int, len as int);
                assert(rest.drop_first() == raw@.subrange(start + 1, len as int));
            }
            start += 1;
        }
        assert(without_leading_blanks(raw@) == raw@.subrange(start as int, len as int));
        let mut end: usize = len;
        while end > start && is_blank_char(chars[end - 1])
            invariant
                chars@ == raw@,
                len == raw@.len(),
                start <= end <= len,
                trimmed(raw@) == without_trailing_blanks(raw@.subrange(start as int, end as int)),
            decreases end - start,
        {
            proof {
                let rest = raw@.subrange(start as int, end as int);
                assert(rest.drop_last() == raw@.subrange(start as int, end - 1));
            }
            end -= 1;
        }
        assert(trimmed(raw@) == raw@.subrange(start as int, end as int));
        if start == end {
            return Err(VersionUnavailable);
        }
        let mut at: usize = start;
        while at < end
            invariant
                chars@ == raw@,
                len == raw@.len(),
                start <= at <= end <= len,
                trimmed(raw@) == raw@.subrange(start as int, end as int),
                forall|i: int| start <= i < at ==> is_release_char(#[trigger] raw@[i]),
            decreases end - at,
        {
            if !is_release_character(chars[at]) {
                proof {
                    let kept = raw@.subrange(start as int, end as int);
                    assert(kept[at - start] == raw@[at as int]);
                }
                return Err(VersionUnavailable);
            }
            at += 1;
        }
        let text = String::from_str(raw.substring_char(start, end));
        Ok(OsRelease { text })
    }

    /// The identifier as text.
    pub fn as_str(&self) -> (text: &str)
        ensures
            text@ == self@,
            is_release_text(text@),
    {
        proof {
            use_type_invariant(self);
        }
        self.text.as_str()
    }
}

/// A usable identifier is read as itself, and whatever is read is usable.
pub proof fn lemma_release_read(raw: Seq<char>)
    ensures
        is_release_text(raw) ==> release_of(raw) == Some(raw),
        release_of(raw) matches Some(release) ==> is_release_text(release),
{
    if is_release_text(raw) {
        assert(is_release_char(raw[0]));
        assert(is_release_char(raw[raw.len() - 1]));
    }
}

} // verus!
