//! Text: trimming, the order of texts, words, and user identifiers in
//! their text form. White space is what `char::is_whitespace` holds of.

use crate::error::ApiError;
use uuid::Uuid;
use vstd::prelude::*;
use vstd::string::{StrSliceExecFns, StringExecFns};

verus! {

/// What `Uuid::parse_str` reads from a text: the 128 bits of the
/// identifier, or `None` where it rejects the text.
pub uninterp spec fn parsed_uuid(text: Seq<char>) -> Option<u128>;

/// The text that `Uuid` writes for an identifier: 32 hexadecimal digits in
/// five groups.
pub uninterp spec fn hyphenated_uuid(id: u128) -> Seq<char>;

/// Whether `char::is_whitespace` holds of a character.
pub uninterp spec fn is_white_space(c: char) -> bool;

/// A text without the white space at its start.
pub open spec fn trimmed_start(text: Seq<char>) -> Seq<char>
    decreases text.len(),
{
    if text.len() > 0 && is_white_space(text.first()) {
        trimmed_start(text.drop_first())
    } else {
        text
    }
}

/// A text without the white space at its end.
pub open spec fn trimmed_end(text: Seq<char>) -> Seq<char>
    decreases text.len(),
{
    if text.len() > 0 && is_white_space(text.last()) {
        trimmed_end(text.drop_last())
    } else {
        text
    }
}

/// A text without the white space at its two ends.
pub open spec fn trimmed(text: Seq<char>) -> Seq<char> {
    trimmed_end(trimmed_start(text))
}

/// Whether `a` comes before `b`, or is `b`, when the two texts are
/// compared character by character and a text comes after each of its
/// proper prefixes.
pub open spec fn lex_le(a: Seq<char>, b: Seq<char>) -> bool
    decreases a.len(),
{
    if a.len() == 0 {
        true
    } else if b.len() == 0 {
        false
    } else if a[0] != b[0] {
        (a[0] as int) < (b[0] as int)
    } else {
        lex_le(a.drop_first(), b.drop_first())
    }
}

/// `char::is_whitespace`: the answer named by [`is_white_space`].
#[verifier::external_body]
pub(crate) fn char_is_whitespace(c: char) -> (r: bool)
    ensures
        r == is_white_space(c),
{
    c.is_whitespace()
}

/// The text without the white space at its two ends.
pub fn str_trim(text: &str) -> (r: &str)
    ensures
        r@ == trimmed(text@),
{
    let n = text.unicode_len();
    let mut start: usize = 0;
    proof {
        assert(text@.skip(0) =~= text@);
    }
    while start < n && char_is_whitespace(text.get_char(start))
        invariant
            n == text@.len(),
            start <= n,
            trimmed_start(text@) == trimmed_start(text@.skip(start as int)),
        decreases n - start,
    {
        proof {
            assert(text@.skip(start as int).drop_first() =~= text@.skip(start as int + 1));
        }
        start += 1;
    }
    let mut end: usize = n;
    proof {
        assert(text@.subrange(start as int, n as int) =~= text@.skip(start as int));
    }
    while end > start && char_is_whitespace(text.get_char(end - 1))
        invariant
            n == text@.len(),
            start <= end <= n,
            trimmed(text@) == trimmed_end(text@.subrange(start as int, end as int)),
        decreases end - start,
    {
        proof {
            assert(text@.subrange(start as int, end as int).drop_last() =~= text@.subrange(
                start as int,
                end as int - 1,
            ));
        }
        end -= 1;
    }
    text.substring_char(start, end)
}

/// Whether `a` comes before `b`, or is `b`, in the order of texts by their
/// characters.
pub fn str_le(a: &str, b: &str) -> (r: bool)
    ensures
        r == lex_le(a@, b@),
{
    let n = a.unicode_len();
    let m = b.unicode_len();
    let mut i: usize = 0;
    proof {
        assert(a@.skip(0) =~= a@);
        assert(b@.skip(0) =~= b@);
    }
    while i < n && i < m
        invariant
            n == a@.len(),
            m == b@.len(),
            i <= n,
            i <= m,
            lex_le(a@, b@) == lex_le(a@.skip(i as int), b@.skip(i as int)),
        decreases n - i,
    {
        let x = a.get_char(i);
        let y = b.get_char(i);
        if x != y {
            return (x as u32) < (y as u32);
        }
        proof {
            assert(a@.skip(i as int).drop_first() =~= a@.skip(i as int + 1));
            assert(b@.skip(i as int).drop_first() =~= b@.skip(i as int + 1));
        }
        i += 1;
    }
    i == n
}

/// `Uuid::parse_str`, with the identifier taken as its 128 bits: the
/// result named by [`parsed_uuid`].
#[verifier::external_body]
pub(crate) fn uuid_parse_str(text: &str) -> (r: Option<u128>)
    ensures
        r == parsed_uuid(text@),
{
    Uuid::parse_str(text).ok().map(|u| u.as_u128())
}

/// `Uuid::to_string` of the identifier with the given 128 bits: the text
/// named by [`hyphenated_uuid`].
#[verifier::external_body]
pub(crate) fn uuid_to_string(id: u128) -> (r: String)
    ensures
        r@ == hyphenated_uuid(id),
{
    Uuid::from_u128(id).to_string()
}

/// Reads a user identifier from its text form.
pub fn parse_user_id(text: &str) -> (r: Result<u128, ApiError>)
    ensures
        match r {
            Ok(id) => parsed_uuid(text@) == Some(id),
            Err(e) => parsed_uuid(text@) is None && e == ApiError::InvalidUserId,
        },
{
    match uuid_parse_str(text) {
        Some(id) => Ok(id),
        None => Err(ApiError::InvalidUserId),
    }
}

/// Writes a user identifier in its text form.
pub fn format_user_id(id: u128) -> (r: String)
    ensures
        r@ == hyphenated_uuid(id),
{
    uuid_to_string(id)
}

/// Any two texts are ordered one way or the other.
pub proof fn lemma_lex_le_total(a: Seq<char>, b: Seq<char>)
    ensures
        lex_le(a, b) || lex_le(b, a),
    decreases a.len(),
{
    if a.len() > 0 && b.len() > 0 && a[0] == b[0] {
        lemma_lex_le_total(a.drop_first(), b.drop_first());
    }
}

/// The order of texts is transitive.
pub proof fn lemma_lex_le_transitive(a: Seq<char>, b: Seq<char>, c: Seq<char>)
    requires
        lex_le(a, b),
        lex_le(b, c),
    ensures
        lex_le(a, c),
    decreases a.len(),
{
    if a.len() > 0 && b.len() > 0 && c.len() > 0 && a[0] == b[0] && b[0] == c[0] {
        lemma_lex_le_transitive(a.drop_first(), b.drop_first(), c.drop_first());
    }
}

/// The words of a text that follows the characters `current` of a word
/// that has begun.
pub open spec fn words_after(text: Seq<char>, current: Seq<char>) -> Seq<Seq<char>>
    decreases text.len(),
{
    let done: Seq<Seq<char>> = if current.len() > 0 {
        seq![current]
    } else {
        Seq::empty()
    };
    if text.len() == 0 {
        done
    } else if is_white_space(text[0]) {
        done + words_after(text.drop_first(), Seq::empty())
    } else {
        words_after(text.drop_first(), current.push(text[0]))
    }
}

/// The words of a text: its longest runs of characters without white
/// space, in their order.
pub open spec fn words(text: Seq<char>) -> Seq<Seq<char>> {
    words_after(text, Seq::empty())
}

/// The words written one after the other with one space between two.
pub open spec fn joined(words: Seq<Seq<char>>) -> Seq<char>
    decreases words.len(),
{
    if words.len() == 0 {
        Seq::empty()
    } else if words.len() == 1 {
        words[0]
    } else {
        joined(words.drop_last()) + seq![' '] + words.last()
    }
}

/// The words of a text, each as a text of its own.
pub fn split_words(text: &str) -> (r: Vec<String>)
    ensures
        r@.len() == words(text@).len(),
        forall|k: int| 0 <= k < r@.len() ==> (#[trigger] r@[k])@ == words(text@)[k],
{
    let n = text.unicode_len();
    let mut out: Vec<String> = Vec::new();
    let ghost mut found: Seq<Seq<char>> = Seq::empty();
    let mut start: usize = 0;
    let mut i: usize = 0;
    proof {
        assert(text@.skip(0) =~= text@);
        assert(text@.subrange(0, 0) =~= Seq::<char>::empty());
        assert(found + words(text@) =~= words(text@));
    }
    while i < n
        invariant
            n == text@.len(),
            start <= i <= n,
            out@.len() == found.len(),
            forall|k: int| 0 <= k < out@.len() ==> (#[trigger] out@[k])@ == found[k],
            words(text@) == found + words_after(
                text@.skip(i as int),
                text@.subrange(start as int, i as int),
            ),
        decreases n - i,
    {
        let ghost rest = text@.skip(i as int);
        let ghost current = text@.subrange(start as int, i as int);
        proof {
            assert(rest.drop_first() =~= text@.skip(i as int + 1));
            assert(current.push(rest[0]) =~= text@.subrange(start as int, i as int + 1));
            assert(text@.subrange(i as int + 1, i as int + 1) =~= Seq::<char>::empty());
        }
        if char_is_whitespace(text.get_char(i)) {
            if start < i {
                out.push(text.substring_char(start, i).to_owned());
                proof {
                    assert(found + (seq![current] + words_after(rest.drop_first(), Seq::empty()))
                        =~= found.push(current) + words_after(rest.drop_first(), Seq::empty()));
                    found = found.push(current);
                }
            } else {
                proof {
                    assert(found + (Seq::<Seq<char>>::empty() + words_after(
                        rest.drop_first(),
                        Seq::empty(),
                    )) =~= found + words_after(rest.drop_first(), Seq::empty()));
                }
            }
            start = i + 1;
        }
        i += 1;
    }
    let ghost current = text@.subrange(start as int, i as int);
    if start < i {
        out.push(text.substring_char(start, i).to_owned());
        proof {
            assert(found + seq![current] =~= found.push(current));
            found = found.push(current);
        }
    } else {
        proof {
            assert(found + Seq::<Seq<char>>::empty() =~= found);
        }
    }
    out
}

/// The words from the place `from` on, written one after the other with
/// one space between two.
pub fn join_words(words: &Vec<String>, from: usize) -> (r: String)
    requires
        from <= words@.len(),
    ensures
        r@ == joined(Seq::new((words@.len() - from) as nat, |k: int| words@[from + k]@)),
{
    let ghost all = Seq::new((words@.len() - from) as nat, |k: int| words@[from + k]@);
    let mut out = String::new();
    let mut i: usize = from;
    proof {
        assert(all.take(0) =~= Seq::<Seq<char>>::empty());
    }
    while i < words.len()
        invariant
            from <= i <= words@.len(),
            all == Seq::new((words@.len() - from) as nat, |k: int| words@[from + k]@),
            out@ == joined(all.take(i - from)),
        decreases words@.len() - i,
    {
        proof {
            let next = all.take(i - from + 1);
            assert(next.drop_last() =~= all.take(i - from));
            assert(next.last() == words@[i as int]@);
            reveal_strlit(" ");
            assert(" "@ =~= seq![' ']);
        }
        if i > from {
            out.append(" ");
        }
        out.append(words[i].as_str());
        proof {
            if i == from {
                assert(out@ =~= words@[i as int]@);
            }
        }
        i += 1;
    }
    proof {
        assert(all.take(i - from) =~= all);
    }
    out
}

} // verus!
