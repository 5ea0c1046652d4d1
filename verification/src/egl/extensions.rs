//! The set of extensions that an EGL display, or the EGL client library,
//! advertises.

use vstd::prelude::*;
use vstd::string::*;
use vstd::hash_set::StringHashSet;
use crate::egl::egl_error::{EGLError, EGLErrorKind, EGLint, fails_with};

verus! {

/// Unicode's `White_Space` property.
pub open spec fn is_white_space(c: char) -> bool {
    ||| '\u{9}' <= c <= '\u{d}'
    ||| c == ' '
    ||| c == '\u{85}'
    ||| c == '\u{a0}'
    ||| c == '\u{1680}'
    ||| '\u{2000}' <= c <= '\u{200a}'
    ||| c == '\u{2028}'
    ||| c == '\u{2029}'
    ||| c == '\u{202f}'
    ||| c == '\u{205f}'
    ||| c == '\u{3000}'
}

/// Whether `s[i..j]` is a word of `s`: a run of characters that are not
/// white space, and that no neighbour extends.
pub open spec fn is_word_at(s: Seq<char>, i: int, j: int) -> bool {
    &&& 0 <= i < j <= s.len()
    &&& forall|k: int| i <= k < j ==> !is_white_space(#[trigger] s[k])
    &&& (i == 0 || is_white_space(s[i - 1]))
    &&& (j == s.len() || is_white_space(s[j]))
}

/// The words of `s` that end at or before position `end`.
pub open spec fn words_up_to(s: Seq<char>, end: int) -> Set<Seq<char>> {
    Set::new(
        |w: Seq<char>|
            exists|i: int, j: int| #[trigger]
                is_word_at(s, i, j) && j <= end && w == s.subrange(i, j),
    )
}

/// The words of `s`: what is left when it is split at white space.
pub open spec fn words(s: Seq<char>) -> Set<Seq<char>> {
    words_up_to(s, s.len() as int)
}

/// A set of extension names, tested for membership by exact match.
pub struct Extensions(StringHashSet);

impl View for Extensions {
    type V = Set<Seq<char>>;

    closed spec fn view(&self) -> Set<Seq<char>> {
        self.0@
    }
}

/// Whether `c` is white space.
pub fn is_whitespace(c: char) -> (b: bool)
    ensures
        b == is_white_space(c),
{
    ('\u{9}' <= c && c <= '\u{d}') || c == ' ' || c == '\u{85}' || c == '\u{a0}' || c
        == '\u{1680}' || ('\u{2000}' <= c && c <= '\u{200a}') || c == '\u{2028}' || c
        == '\u{2029}' || c == '\u{202f}' || c == '\u{205f}' || c == '\u{3000}'
}

proof fn lemma_word_ends(s: Seq<char>, start: int, pos: int)
    requires
        0 <= start <= pos < s.len(),
        forall|k: int| start <= k < pos ==> !is_white_space(#[trigger] s[k]),
        start == 0 || is_white_space(s[start - 1]),
        is_white_space(s[pos]),
    ensures
        start < pos ==> words_up_to(s, pos + 1) =~= words_up_to(s, start).insert(
            s.subrange(start, pos),
        ),
        start == pos ==> words_up_to(s, pos + 1) =~= words_up_to(s, start),
{
    let grown = words_up_to(s, pos + 1);
    let known = words_up_to(s, start);
    assert forall|w: Seq<char>| grown.contains(w) implies known.contains(w) || (start < pos && w
        == s.subrange(start, pos)) by {
        let (i, j) = choose|i: int, j: int| #[trigger]
            is_word_at(s, i, j) && j <= pos + 1 && w == s.subrange(i, j);
    }
    if start < pos {
        assert(is_word_at(s, start, pos));
    }
    assert forall|w: Seq<char>| known.contains(w) implies grown.contains(w) by {
        let (i, j) = choose|i: int, j: int| #[trigger]
            is_word_at(s, i, j) && j <= start && w == s.subrange(i, j);
    }
}

proof fn lemma_last_word(s: Seq<char>, start: int)
    requires
        0 <= start <= s.len(),
        forall|k: int| start <= k < s.len() ==> !is_white_space(#[trigger] s[k]),
        start == 0 || is_white_space(s[start - 1]),
    ensures
        start < s.len() ==> words(s) =~= words_up_to(s, start).insert(
            s.subrange(start, s.len() as int),
        ),
        start == s.len() ==> words(s) =~= words_up_to(s, start),
{
    let all = words(s);
    let known = words_up_to(s, start);
    let end = s.len() as int;
    assert forall|w: Seq<char>| all.contains(w) implies known.contains(w) || (start < end && w
        == s.subrange(start, end)) by {
        let (i, j) = choose|i: int, j: int| #[trigger]
            is_word_at(s, i, j) && j <= end && w == s.subrange(i, j);
    }
    if start < end {
        assert(is_word_at(s, start, end));
    }
    assert forall|w: Seq<char>| known.contains(w) implies all.contains(w) by {
        let (i, j) = choose|i: int, j: int| #[trigger]
            is_word_at(s, i, j) && j <= start && w == s.subrange(i, j);
    }
}

impl Extensions {
    /// The extensions named in an extension string: its words.
    pub fn parse(list: &str) -> (set: Self)
        ensures
            set@ == words(list@),
    {
        let mut names = StringHashSet::new();
        let mut word = String::new();
        let mut pending = false;
        let ghost mut start: int = 0;
        for c in it: list.chars()
            invariant
                it.seq() == list@,
                0 <= start <= it.index(),
                pending == (start < it.index()),
                names@ == words_up_to(list@, start),
                word@ == list@.subrange(start, it.index() as int),
                forall|k: int| start <= k < it.index() ==> !is_white_space(#[trigger] list@[k]),
                start == 0 || is_white_space(list@[start - 1]),
        {
            let ghost pos = it.index() as int;
            if is_whitespace(c) {
                proof {
                    lemma_word_ends(list@, start, pos);
                }
                if pending {
                    names.insert(word);
                }
                word = String::new();
                pending = false;
                proof {
                    start = pos + 1;
                }
            } else {
                word.push(c);
                pending = true;
            }
        }
        proof {
            lemma_last_word(list@, start);
        }
        if pending {
            names.insert(word);
        }
        Extensions(names)
    }

    /// Reads the answer to a query for the extension string: `None` where
    /// the EGL library returned no string, with `code` its error state.
    pub fn query(list: Option<&str>, code: EGLint) -> (r: Result<Self, EGLError>)
        ensures
            match list {
                Some(text) => r is Ok && r->Ok_0@ == words(text@),
                None => fails_with(
                    r,
                    EGLErrorKind::EnumerationFailed,
                    "Retrieving EGL extension string failed."@,
                    code as int,
                ),
            },
    {
        match list {
            Some(text) => Ok(Extensions::parse(text)),
            None => Err(
                EGLError::new(
                    EGLErrorKind::EnumerationFailed,
                    "Retrieving EGL extension string failed.",
                    code,
                ),
            ),
        }
    }

    /// Whether `extension` is in the set.
    pub fn contains(&self, extension: &str) -> (b: bool)
        ensures
            b == self@.contains(extension@),
    {
        self.0.contains(extension)
    }
}

} // verus!
