//! Trigger detection: a pure scan over the buffer's tail.
//!
//! A trigger is recognized only at the very end of the buffer: the buffer
//! must end with a space, the word just before that space (the candidate)
//! must begin with `/`, and the candidate must be longer than two
//! characters. The trigger text is the candidate plus its trailing space;
//! the tag is the candidate with its leading `/` stripped.

use vstd::prelude::*;
use vstd::string::StrSliceExecFns;
use crate::buffer::InputBuffer;

verus! {

/// Characters that separate words during the backward scan.
pub open spec fn spec_is_space_like(c: char) -> bool {
    c == ' ' || c == '\t' || c == '\n' || c == '\r'
}

fn is_space_like(c: char) -> (r: bool)
    ensures
        r == spec_is_space_like(c),
{
    c == ' ' || c == '\t' || c == '\n' || c == '\r'
}

/// Index where the word ending just before position `i` begins: walking left
/// from `i`, the scan stops at the nearest whitespace character or at the
/// start of the sequence.
pub open spec fn word_start(s: Seq<char>, i: int) -> int
    decreases i,
{
    if i <= 0 {
        0
    } else if spec_is_space_like(s[i - 1]) {
        i
    } else {
        word_start(s, i - 1)
    }
}

/// The trigger recognized at the tail of `s`, if any: `s` must end with a
/// space; the candidate is the word just before that space; the candidate
/// must begin with `/` and be longer than two characters. The trigger is the
/// candidate together with the trailing space.
pub open spec fn spec_trigger(s: Seq<char>) -> Option<Seq<char>> {
    if s.len() == 0 || s[s.len() - 1] != ' ' {
        None
    } else {
        let start = word_start(s, s.len() - 1);
        if s.len() - 1 - start > 2 && s[start] == '/' {
            Some(s.subrange(start, s.len() as int))
        } else {
            None
        }
    }
}

/// The tag named by a trigger: the characters between the leading `/` and
/// the trailing space.
pub open spec fn spec_tag(t: Seq<char>) -> Seq<char> {
    t.subrange(1, t.len() - 1)
}

proof fn lemma_word_start_bounds(s: Seq<char>, i: int)
    requires
        0 <= i <= s.len(),
    ensures
        0 <= word_start(s, i) <= i,
    decreases i,
{
    if i > 0 && !spec_is_space_like(s[i - 1]) {
        lemma_word_start_bounds(s, i - 1);
    }
}

proof fn lemma_word_start_no_space(s: Seq<char>, i: int, j: int)
    requires
        0 <= i <= s.len(),
        word_start(s, i) <= j < i,
    ensures
        !spec_is_space_like(s[j]),
    decreases i,
{
    if i > 0 && !spec_is_space_like(s[i - 1]) && j < i - 1 {
        lemma_word_start_no_space(s, i - 1, j);
    }
}

proof fn lemma_word_start_of_clean(s: Seq<char>, i: int)
    requires
        0 <= i <= s.len(),
        forall|j: int| 0 <= j < i ==> !spec_is_space_like(s[j]),
    ensures
        word_start(s, i) == 0,
    decreases i,
{
    if i > 0 {
        lemma_word_start_of_clean(s, i - 1);
    }
}

/// Everything the recognized trigger's shape guarantees: it is the tail of
/// the scanned text, longer than three characters, starts with `/`, ends
/// with the trailing space, and holds no whitespace before that space.
pub proof fn lemma_trigger_shape(s: Seq<char>)
    requires
        spec_trigger(s) is Some,
    ensures
        ({
            let t = spec_trigger(s)->Some_0;
            &&& 3 < t.len() <= s.len()
            &&& t == s.subrange(s.len() - t.len(), s.len() as int)
            &&& t[0] == '/'
            &&& t[t.len() - 1] == ' '
            &&& forall|j: int| 0 <= j < t.len() - 1 ==> !spec_is_space_like(t[j])
        }),
{
    let start = word_start(s, s.len() - 1);
    lemma_word_start_bounds(s, s.len() - 1);
    let t = spec_trigger(s)->Some_0;
    assert(t.len() == s.len() - start);
    assert forall|j: int| 0 <= j < t.len() - 1 implies !spec_is_space_like(t[j]) by {
        lemma_word_start_no_space(s, s.len() - 1, start + j);
    }
}

/// Law: a trigger recognized in some buffer is recognized again, unchanged,
/// when the buffer is restaged to hold only that trigger.
pub proof fn lemma_trigger_fixpoint(s: Seq<char>)
    requires
        spec_trigger(s) is Some,
    ensures
        spec_trigger(spec_trigger(s)->Some_0) == Some(spec_trigger(s)->Some_0),
{
    let t = spec_trigger(s)->Some_0;
    lemma_trigger_shape(s);
    lemma_word_start_of_clean(t, t.len() - 1);
    assert(t.subrange(0, t.len() as int) =~= t);
}

/// Find the trigger at the tail of `buffer`, if there is one.
pub fn extract_last_trigger(buffer: &str) -> (result: Option<String>)
    ensures
        match result {
            Some(t) => spec_trigger(buffer@) == Some(t@),
            None => spec_trigger(buffer@) is None,
        },
{
    let n: usize = buffer.unicode_len();
    if n == 0 {
        return None;
    }
    if buffer.get_char(n - 1) != ' ' {
        return None;
    }
    let mut start: usize = n - 1;
    while start > 0 && !is_space_like(buffer.get_char(start - 1))
        invariant
            n == buffer@.len(),
            1 <= n,
            start <= n - 1,
            word_start(buffer@, n - 1) == word_start(buffer@, start as int),
        decreases start,
    {
        start = start - 1;
    }
    assert(word_start(buffer@, n - 1) == start as int);
    if n - 1 - start > 2 && buffer.get_char(start) == '/' {
        Some(buffer.substring_char(start, n).to_owned())
    } else {
        None
    }
}

/// Detect a completed trigger in the buffer and name its tag.
///
/// Returns the trigger's length in characters (the number of characters an
/// expansion must delete) together with the tag.
pub fn detect_trigger(buf: &InputBuffer) -> (result: Option<(usize, String)>)
    ensures
        match result {
            Some(r) => {
                &&& spec_trigger(buf@) is Some
                &&& r.0 == spec_trigger(buf@)->Some_0.len()
                &&& r.1@ == spec_tag(spec_trigger(buf@)->Some_0)
            },
            None => spec_trigger(buf@) is None,
        },
{
    match extract_last_trigger(buf.contents()) {
        Some(t) => {
            proof {
                lemma_trigger_shape(buf@);
            }
            let tlen: usize = t.as_str().unicode_len();
            let tag = t.as_str().substring_char(1, tlen - 1).to_owned();
            Some((tlen, tag))
        },
        None => None,
    }
}

} // verus!
