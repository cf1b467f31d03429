//! Planning the replace operation.
//!
//! Injection itself — synthesizing backspaces and a text insertion into
//! whichever application holds focus — is the shell's job and is best-effort
//! only. The engine decides exactly what to synthesize: it snapshots and
//! clears the buffer, plans one backspace key pair per character of the
//! trigger found at the buffer's tail, plans the message as a single
//! insertion, and requests the popup hidden.

use vstd::prelude::*;
use vstd::string::StrSliceExecFns;
use crate::buffer::InputBuffer;
use crate::detector::extract_last_trigger;
use crate::detector::spec_trigger;
use crate::popup::PopupManager;

verus! {

/// What the shell must synthesize into the focused application.
pub struct InjectionPlan {
    /// Number of backspace key-down/key-up pairs to send, one per character
    /// of the deleted trigger.
    pub backspace_count: usize,
    /// Text to insert afterwards as one insertion action.
    pub insert_text: String,
}

/// The replace operation: capture whatever trigger the buffer currently
/// holds at its tail, clear the buffer, and plan the deletion of that
/// trigger followed by insertion of `message`. The popup, if visible, is
/// requested hidden.
pub fn expand_replace_current_tag(
    buf: &mut InputBuffer,
    popup: &mut PopupManager,
    message: &str,
) -> (plan: InjectionPlan)
    ensures
        final(buf)@ == Seq::<char>::empty(),
        !final(popup).spec_visible(),
        final(popup).spec_query() == old(popup).spec_query(),
        final(popup).spec_initialized() == old(popup).spec_initialized(),
        plan.insert_text@ == message@,
        plan.backspace_count == (match spec_trigger(old(buf)@) {
            Some(t) => t.len(),
            None => 0,
        }),
{
    let trigger = extract_last_trigger(buf.contents());
    buf.clear();
    let count: usize = match &trigger {
        Some(t) => t.as_str().unicode_len(),
        None => 0,
    };
    popup.hide_popup();
    InjectionPlan { backspace_count: count, insert_text: message.to_owned() }
}

} // verus!
