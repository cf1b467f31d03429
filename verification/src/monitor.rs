//! The keystroke monitor's per-event step.
//!
//! A dedicated shell thread owns the OS-wide keyboard subscription and calls
//! [`handle_event`] once per event. The step is the only writer of the
//! buffer from live keystrokes: a mapped key-down appends its canonical
//! character (dropping the oldest characters past capacity) and then runs
//! the trigger detector against the new tail; a backspace key-up pops the
//! last character; everything else leaves the buffer alone. Whatever the
//! step returns, the subscription loop itself never terminates over a
//! single event's failure.

use vstd::prelude::*;
use vstd::string::StrSliceExecFns;
use crate::buffer::InputBuffer;
use crate::buffer::push_model;
use crate::coordinator::ExpansionRequest;
use crate::detector::extract_last_trigger;
use crate::detector::lemma_trigger_shape;
use crate::detector::spec_trigger;
use crate::keys::Key;
use crate::keys::char_for_key;
use crate::keys::spec_key_char;

verus! {

/// One event from the OS keyboard stream, as the monitor sees it.
pub enum KeyEvent {
    /// A key went down.
    Press(Key),
    /// A key came up.
    Release(Key),
}

/// Handle one keyboard event: update the buffer and report a detected
/// trigger, if the event completed one.
///
/// Only a mapped key-down can complete a trigger; a returned request
/// truthfully records the trigger standing at the new buffer's tail.
pub fn handle_event(buf: &mut InputBuffer, event: KeyEvent) -> (request: Option<
    ExpansionRequest,
>)
    ensures
        match event {
            KeyEvent::Press(k) => match spec_key_char(k) {
                Some(c) => final(buf)@ == push_model(old(buf)@, c),
                None => final(buf)@ == old(buf)@,
            },
            KeyEvent::Release(k) => {
                if k == Key::Backspace {
                    &&& old(buf)@.len() == 0 ==> final(buf)@ == old(buf)@
                    &&& old(buf)@.len() > 0 ==> final(buf)@ == old(buf)@.drop_last()
                } else {
                    final(buf)@ == old(buf)@
                }
            },
        },
        match request {
            Some(req) => {
                &&& event matches KeyEvent::Press(k) && spec_key_char(k) is Some
                &&& req.valid_for(final(buf)@)
            },
            None => match event {
                KeyEvent::Press(k) => spec_key_char(k) is Some ==> spec_trigger(
                    final(buf)@,
                ) is None,
                KeyEvent::Release(_) => true,
            },
        },
{
    match event {
        KeyEvent::Press(k) => {
            match char_for_key(k) {
                Some(c) => {
                    buf.push_char(c);
                    match extract_last_trigger(buf.contents()) {
                        Some(t) => {
                            proof {
                                lemma_trigger_shape(buf@);
                            }
                            let tlen: usize = t.as_str().unicode_len();
                            let tag = t.as_str().substring_char(1, tlen - 1).to_owned();
                            Some(ExpansionRequest { trigger: t, tag })
                        },
                        None => None,
                    }
                },
                None => None,
            }
        },
        KeyEvent::Release(k) => {
            if k == Key::Backspace {
                let _ = buf.pop_last();
            }
            None
        },
    }
}

} // verus!
