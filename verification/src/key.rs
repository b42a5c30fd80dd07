//! Object keys: their grammar and the verdict on a key.
//!
//! A key is a relative path written with `/` between its segments. It is
//! accepted when it is not empty, does not start at the root, and each of its
//! segments is a plain name: not empty, not `.` and not `..`.

use crate::error::{StorageError, StorageErrorView};
use vstd::prelude::*;

verus! {

/// The first rule that a key breaks.
#[derive(Debug, Clone, Copy, PartialEq, Eq, Structural)]
pub enum KeyFault {
    /// The key has no characters.
    Empty,
    /// The key starts with a separator.
    Absolute,
    /// Some segment of the key is not a plain name.
    UnsupportedSegment,
}

impl KeyFault {
    /// The reason given to the caller for this fault.
    pub open spec fn reason(self) -> Seq<char> {
        match self {
            KeyFault::Empty => "key cannot be empty"@,
            KeyFault::Absolute => "absolute paths are not allowed"@,
            KeyFault::UnsupportedSegment => "contains unsupported segments"@,
        }
    }
}

/// `key[from..to]` is a segment of `key`: a longest run of characters without
/// a separator, bounded by separators or by the ends of the key.
pub open spec fn is_segment(key: Seq<char>, from: int, to: int) -> bool {
    &&& 0 <= from <= to <= key.len()
    &&& (from == 0 || key[from - 1] == '/')
    &&& (to == key.len() || key[to] == '/')
    &&& forall|k: int| from <= k < to ==> key[k] != '/'
}

/// A segment that names the directory itself (`.`) or its parent (`..`).
pub open spec fn is_dot_name(name: Seq<char>) -> bool {
    ||| name.len() == 1 && name[0] == '.'
    ||| name.len() == 2 && name[0] == '.' && name[1] == '.'
}

/// A segment that names a file or directory and nothing else.
pub open spec fn is_plain_name(name: Seq<char>) -> bool {
    name.len() > 0 && !is_dot_name(name)
}

/// Some segment of `key` is not a plain name.
pub open spec fn has_unsupported_segment(key: Seq<char>) -> bool {
    exists|from: int, to: int| #[trigger]
        is_segment(key, from, to) && !is_plain_name(key.subrange(from, to))
}

/// The first rule that `key` breaks, in the order in which the rules are
/// checked, or `None` for a key that is accepted.
pub open spec fn key_fault(key: Seq<char>) -> Option<KeyFault> {
    if key.len() == 0 {
        Some(KeyFault::Empty)
    } else if key[0] == '/' {
        Some(KeyFault::Absolute)
    } else if has_unsupported_segment(key) {
        Some(KeyFault::UnsupportedSegment)
    } else {
        None
    }
}

/// `key` is accepted.
pub open spec fn is_valid_key(key: Seq<char>) -> bool {
    key_fault(key) is None
}

/// Where the last segment of `key` starts: just behind its last separator,
/// or at 0 when it has none.
pub open spec fn name_start(key: Seq<char>) -> int {
    choose|from: int| is_segment(key, from, key.len() as int)
}

/// Two segments that end at the same place start at the same place.
pub proof fn lemma_segment_start_unique(key: Seq<char>, a: int, b: int, to: int)
    requires
        is_segment(key, a, to),
        is_segment(key, b, to),
    ensures
        a == b,
{
    if a < b {
        assert(key[b - 1] == '/');
    } else if b < a {
        assert(key[a - 1] == '/');
    }
}

/// A segment that reaches the end of the key is its last one.
pub proof fn lemma_name_start(key: Seq<char>, from: int)
    requires
        is_segment(key, from, key.len() as int),
    ensures
        name_start(key) == from,
{
    lemma_segment_start_unique(key, name_start(key), from, key.len() as int);
}

/// Every key has a last segment.
pub proof fn lemma_last_segment_exists(key: Seq<char>)
    ensures
        is_segment(key, name_start(key), key.len() as int),
    decreases key.len(),
{
    if key.len() == 0 {
        assert(is_segment(key, 0, key.len() as int));
    } else if key.last() == '/' {
        assert(is_segment(key, key.len() as int, key.len() as int));
    } else {
        let shorter = key.drop_last();
        lemma_last_segment_exists(shorter);
        let from = name_start(shorter);
        assert forall|k: int| from <= k < key.len() implies key[k] != '/' by {
            if k < shorter.len() {
                assert(shorter[k] == key[k]);
            }
        }
        if from > 0 {
            assert(shorter[from - 1] == key[from - 1]);
        }
        assert(is_segment(key, from, key.len() as int));
    }
}

/// The part of an accepted key in front of its last separator is an accepted
/// key itself.
pub proof fn lemma_parent_key_is_valid(key: Seq<char>)
    requires
        is_valid_key(key),
        name_start(key) > 0,
    ensures
        is_valid_key(key.subrange(0, name_start(key) - 1)),
{
    lemma_last_segment_exists(key);
    let start = name_start(key);
    let parent = key.subrange(0, start - 1);
    assert(key[start - 1] == '/');
    assert(parent.len() > 0 && parent[0] == key[0]);
    assert forall|from: int, to: int| #[trigger] is_segment(parent, from, to) implies is_plain_name(
        parent.subrange(from, to),
    ) by {
        assert forall|k: int| from <= k < to implies key[k] != '/' by {
            assert(parent[k] == key[k]);
        }
        if from > 0 {
            assert(parent[from - 1] == key[from - 1]);
        }
        if to < parent.len() {
            assert(parent[to] == key[to]);
        }
        assert(is_segment(key, from, to));
        assert(parent.subrange(from, to) == key.subrange(from, to));
    }
}

/// What is known of the segment that is being read.
enum Progress {
    /// Nothing of it was read yet.
    Start,
    /// It is `.` so far.
    Dot,
    /// It is `..` so far.
    DotDot,
    /// It is a plain name, and stays one whatever follows.
    Name,
}

impl Progress {
    spec fn describes(self, segment: Seq<char>) -> bool {
        match self {
            Progress::Start => segment.len() == 0,
            Progress::Dot => segment.len() == 1 && segment[0] == '.',
            Progress::DotDot => segment.len() == 2 && segment[0] == '.' && segment[1] == '.',
            Progress::Name => is_plain_name(segment),
        }
    }

    fn is_name(&self) -> (yes: bool)
        ensures
            yes <==> self is Name,
    {
        match self {
            Progress::Name => true,
            _ => false,
        }
    }

    /// The state after one more character of the segment, which is no separator.
    fn extend(self, c: char, Ghost(segment): Ghost<Seq<char>>) -> (next: Progress)
        requires
            self.describes(segment),
            c != '/',
        ensures
            next.describes(segment.push(c)),
    {
        match self {
            Progress::Start => if c == '.' {
                Progress::Dot
            } else {
                Progress::Name
            },
            Progress::Dot => if c == '.' {
                Progress::DotDot
            } else {
                Progress::Name
            },
            Progress::DotDot => Progress::Name,
            Progress::Name => Progress::Name,
        }
    }
}

/// Reads `key` once. Gives the first rule it breaks, or for an accepted key
/// the position at which its last segment starts.
pub fn inspect_key(key: &str) -> (verdict: Result<usize, KeyFault>)
    ensures
        match verdict {
            Ok(start) => {
                &&& is_valid_key(key@)
                &&& is_segment(key@, start as int, key@.len() as int)
                &&& start == name_start(key@)
            },
            Err(fault) => key_fault(key@) == Some(fault),
        },
{
    if key.is_empty() {
        return Err(KeyFault::Empty);
    }
    if key.get_char(0) == '/' {
        return Err(KeyFault::Absolute);
    }
    let len = key.unicode_len();
    let mut start: usize = 0;
    let mut at: usize = 0;
    let mut progress = Progress::Start;
    for c in it: key.chars()
        invariant
            it.seq() == key@,
            len == key@.len(),
            len > 0 && key@[0] != '/',
            at == it.index(),
            0 <= start <= at,
            start == 0 || key@[start - 1] == '/',
            forall|k: int| start <= k < at ==> key@[k] != '/',
            progress.describes(key@.subrange(start as int, at as int)),
            forall|from: int, to: int| #[trigger]
                is_segment(key@, from, to) && to < start ==> is_plain_name(key@.subrange(from, to)),
    {
        if c == '/' {
            if !progress.is_name() {
                assert(is_segment(key@, start as int, at as int));
                return Err(KeyFault::UnsupportedSegment);
            }
            assert forall|from: int, to: int| #[trigger]
                is_segment(key@, from, to) && to < at + 1 implies is_plain_name(
                key@.subrange(from, to),
            ) by {
                if to >= start {
                    assert(to == at);
                    lemma_segment_start_unique(key@, from, start as int, to);
                }
            }
            start = at + 1;
            progress = Progress::Start;
        } else {
            assert(key@.subrange(start as int, at + 1) == key@.subrange(
                start as int,
                at as int,
            ).push(c));
            progress = progress.extend(c, Ghost(key@.subrange(start as int, at as int)));
        }
        at = at + 1;
    }
    assert(is_segment(key@, start as int, key@.len() as int));
    if !progress.is_name() {
        return Err(KeyFault::UnsupportedSegment);
    }
    proof {
        lemma_name_start(key@, start as int);
        assert forall|from: int, to: int| #[trigger]
            is_segment(key@, from, to) implies is_plain_name(key@.subrange(from, to)) by {
            if to >= start {
                assert(to == key@.len());
                lemma_segment_start_unique(key@, from, start as int, to);
            }
        }
    }
    Ok(start)
}

/// Accepts or rejects `key`, giving the reason for the first rule it breaks.
pub fn validate_key(key: &str) -> (verdict: Result<(), StorageError>)
    ensures
        match key_fault(key@) {
            None => verdict is Ok,
            Some(fault) => verdict matches Err(error) && error@ == StorageErrorView::InvalidKey(
                fault.reason(),
            ),
        },
{
    match inspect_key(key) {
        Ok(_) => Ok(()),
        Err(fault) => Err(invalid_key(fault)),
    }
}

/// The error that reports `fault` to the caller.
pub fn invalid_key(fault: KeyFault) -> (error: StorageError)
    ensures
        error@ == StorageErrorView::InvalidKey(fault.reason()),
{
    match fault {
        KeyFault::Empty => StorageError::InvalidKey("key cannot be empty".to_owned()),
        KeyFault::Absolute => StorageError::InvalidKey("absolute paths are not allowed".to_owned()),
        KeyFault::UnsupportedSegment => StorageError::InvalidKey(
            "contains unsupported segments".to_owned(),
        ),
    }
}

} // verus!
