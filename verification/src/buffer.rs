//! Bounded record of recently typed characters.
//!
//! The buffer is the engine's sole record of what the user has typed so far.
//! It holds at most [`BUFFER_CAPACITY`] characters; appending beyond that
//! drops exactly the oldest excess characters.

use vstd::prelude::*;
use vstd::string::StrSliceExecFns;

verus! {

/// Greatest number of characters the buffer retains at any time.
pub const BUFFER_CAPACITY: usize = 256;

/// What appending one character does to the buffer's contents: the character
/// goes on the end, and the oldest characters are dropped so that at most
/// `BUFFER_CAPACITY` remain.
pub open spec fn push_model(s: Seq<char>, c: char) -> Seq<char> {
    if s.len() + 1 > BUFFER_CAPACITY {
        s.push(c).skip(s.len() + 1 - (BUFFER_CAPACITY as int))
    } else {
        s.push(c)
    }
}

/// What appending a whole sequence of characters does, first character first.
pub open spec fn push_all_model(s: Seq<char>, cs: Seq<char>) -> Seq<char>
    decreases cs.len(),
{
    if cs.len() == 0 {
        s
    } else {
        push_all_model(push_model(s, cs[0]), cs.skip(1))
    }
}

/// The record of recently typed characters, oldest first.
pub struct InputBuffer {
    text: String,
}

impl View for InputBuffer {
    type V = Seq<char>;

    closed spec fn view(&self) -> Seq<char> {
        self.text@
    }
}

/// Relies on `String::push`: appends the given character to the end of the
/// string.
#[verifier::external_body]
fn string_push(s: &mut String, c: char)
    ensures
        final(s)@ == old(s)@.push(c),
{
    s.push(c);
}

/// Relies on `String::pop`: removes the last character from the string and
/// returns it, or returns `None` and leaves the string unchanged when it is
/// empty.
#[verifier::external_body]
fn string_pop(s: &mut String) -> (r: Option<char>)
    ensures
        old(s)@.len() == 0 ==> r is None && final(s)@ == old(s)@,
        old(s)@.len() > 0 ==> r == Some(old(s)@.last()) && final(s)@ == old(s)@.drop_last(),
{
    s.pop()
}

impl InputBuffer {
    /// A freshly created buffer holds nothing.
    pub fn new() -> (buf: Self)
        ensures
            buf@ == Seq::<char>::empty(),
    {
        InputBuffer { text: String::new() }
    }

    /// Number of characters currently held.
    pub fn len(&self) -> (n: usize)
        ensures
            n == self@.len(),
    {
        self.text.as_str().unicode_len()
    }

    /// The buffered text itself.
    pub fn contents(&self) -> (s: &str)
        ensures
            s@ == self@,
    {
        self.text.as_str()
    }

    /// Append one character, dropping the oldest characters whenever the
    /// capacity would otherwise be exceeded.
    pub fn push_char(&mut self, c: char)
        ensures
            final(self)@ == push_model(old(self)@, c),
            final(self)@.len() <= BUFFER_CAPACITY,
    {
        string_push(&mut self.text, c);
        let n: usize = self.text.as_str().unicode_len();
        if n > BUFFER_CAPACITY {
            let ghost pushed = self.text@;
            self.text = self.text.as_str().substring_char(n - BUFFER_CAPACITY, n).to_owned();
            proof {
                assert(self.text@ =~= pushed.skip(n - BUFFER_CAPACITY));
            }
        }
    }

    /// Append every character of `text` in order, as if typed one by one.
    pub fn push_str(&mut self, text: &str)
        ensures
            final(self)@ == push_all_model(old(self)@, text@),
    {
        let n: usize = text.unicode_len();
        let mut i: usize = 0;
        while i < n
            invariant
                n == text@.len(),
                i <= n,
                self@ == push_all_model(old(self)@, text@.subrange(0, i as int)),
            decreases n - i,
        {
            let ghost prefix = text@.subrange(0, i as int);
            self.push_char(text.get_char(i));
            proof {
                assert(text@.subrange(0, i + 1).drop_last() =~= prefix);
                assert(text@.subrange(0, i + 1) =~= prefix.push(text@[i as int]));
                lemma_push_all_snoc(old(self)@, prefix, text@[i as int]);
            }
            i = i + 1;
        }
        proof {
            assert(text@.subrange(0, n as int) =~= text@);
        }
    }

    /// Remove the last character, if any; an empty buffer is left unchanged.
    pub fn pop_last(&mut self) -> (r: Option<char>)
        ensures
            old(self)@.len() == 0 ==> r is None && final(self)@ == old(self)@,
            old(self)@.len() > 0 ==> r == Some(old(self)@.last())
                && final(self)@ == old(self)@.drop_last(),
    {
        string_pop(&mut self.text)
    }

    /// Make the buffer hold exactly `text`.
    pub fn overwrite(&mut self, text: &str)
        requires
            text@.len() <= BUFFER_CAPACITY,
        ensures
            final(self)@ == text@,
    {
        self.text = text.to_owned();
    }

    /// Discard everything the buffer holds.
    pub fn clear(&mut self)
        ensures
            final(self)@ == Seq::<char>::empty(),
    {
        self.text = String::new();
    }
}

/// Appending a sequence and then one more character is the same as appending
/// the sequence with that character on its end.
proof fn lemma_push_all_snoc(s: Seq<char>, cs: Seq<char>, c: char)
    ensures
        push_all_model(s, cs.push(c)) == push_model(push_all_model(s, cs), c),
    decreases cs.len(),
{
    let ext = cs.push(c);
    if cs.len() == 0 {
        assert(ext[0] == c);
        assert(ext.skip(1) =~= Seq::<char>::empty());
        assert(push_all_model(s, ext) == push_all_model(push_model(s, c), ext.skip(1)));
        assert(push_all_model(push_model(s, c), ext.skip(1)) == push_model(s, c));
        assert(push_all_model(s, cs) == s);
    } else {
        assert(ext[0] == cs[0]);
        assert(ext.skip(1) =~= cs.skip(1).push(c));
        assert(push_all_model(s, ext) == push_all_model(push_model(s, cs[0]), ext.skip(1)));
        lemma_push_all_snoc(push_model(s, cs[0]), cs.skip(1), c);
        assert(push_all_model(s, cs) == push_all_model(push_model(s, cs[0]), cs.skip(1)));
    }
}

/// Law: typing any sequence of at most `BUFFER_CAPACITY` characters into an
/// empty buffer, with no intervening backspace, leaves the buffer holding
/// exactly those characters in typed order.
pub proof fn lemma_typed_order_preserved(cs: Seq<char>)
    requires
        cs.len() <= BUFFER_CAPACITY,
    ensures
        push_all_model(Seq::<char>::empty(), cs) == cs,
{
    lemma_capacity_drops_oldest(Seq::<char>::empty(), cs);
    assert(Seq::<char>::empty() + cs =~= cs);
}

/// Law: appending never grows the buffer past `BUFFER_CAPACITY`; while the
/// capacity is not exceeded every character is kept, and once it would be,
/// exactly the oldest excess characters are dropped.
pub proof fn lemma_capacity_drops_oldest(s: Seq<char>, cs: Seq<char>)
    requires
        s.len() <= BUFFER_CAPACITY,
    ensures
        push_all_model(s, cs).len() <= BUFFER_CAPACITY || cs.len() == 0,
        s.len() + cs.len() <= BUFFER_CAPACITY ==> push_all_model(s, cs) == s + cs,
        s.len() + cs.len() > BUFFER_CAPACITY ==> push_all_model(s, cs)
            == (s + cs).skip(s.len() + cs.len() - (BUFFER_CAPACITY as int)),
    decreases cs.len(),
{
    if cs.len() == 0 {
        assert(s + cs =~= s);
    } else {
        let c = cs[0];
        let rest = cs.skip(1);
        let s2 = push_model(s, c);
        lemma_capacity_drops_oldest(s2, rest);
        if s.len() + 1 > BUFFER_CAPACITY {
            // the first append already drops the single oldest character
            assert(s2 =~= (s + cs).subrange(1, (s.len() + 1) as int));
            assert(s2 + rest =~= (s + cs).skip(1));
            if s2.len() + rest.len() > BUFFER_CAPACITY {
                assert(((s + cs).skip(1)).skip(s2.len() + rest.len() - (BUFFER_CAPACITY as int))
                    =~= (s + cs).skip(s.len() + cs.len() - (BUFFER_CAPACITY as int)));
            } else {
                assert((s + cs).skip(1) =~= (s + cs).skip(s.len() + cs.len() - (BUFFER_CAPACITY as int)));
            }
        } else {
            assert(s2 + rest =~= s + cs);
        }
    }
}

} // verus!
