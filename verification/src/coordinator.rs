//! Deciding what a detected trigger leads to.
//!
//! Per detected trigger the coordinator asks the message store for the
//! messages bound to the tag; the shell performs that lookup and hands the
//! answer in as a plain value (a failed lookup counts as no match). With
//! zero matches nothing happens; with exactly one the trigger is replaced
//! immediately; with several the selection popup is requested instead, and
//! the buffer is left alone until the user confirms a message out-of-band.

use vstd::prelude::*;
use crate::buffer::BUFFER_CAPACITY;
use crate::buffer::InputBuffer;
use crate::detector::lemma_trigger_fixpoint;
use crate::detector::lemma_trigger_shape;
use crate::detector::spec_tag;
use crate::detector::spec_trigger;
use crate::injector::InjectionPlan;
use crate::injector::expand_replace_current_tag;
use crate::popup::PopupManager;

verus! {

/// A detected trigger, handed from the monitor to the coordinator.
pub struct ExpansionRequest {
    /// The full trigger text, leading slash and trailing space included.
    pub trigger: String,
    /// The tag between the slash and the space.
    pub tag: String,
}

impl ExpansionRequest {
    /// The request truthfully records the trigger detected in buffer
    /// contents `s`.
    pub open spec fn valid_for(self, s: Seq<char>) -> bool {
        &&& spec_trigger(s) == Some(self.trigger@)
        &&& self.tag@ == spec_tag(self.trigger@)
    }
}

/// What the coordinator decided for one detected trigger.
pub enum ExpansionAction {
    /// No message is bound to the tag (or the lookup failed): do nothing.
    NoMatch,
    /// Exactly one message is bound: delete the trigger and insert it.
    Inject(InjectionPlan),
    /// Several messages are bound: show the selection popup, pre-filled
    /// with this query.
    ShowPopup { query: String },
}

/// Decide what a detected trigger leads to, given the store's answer for
/// its tag.
///
/// `lookup` is the ordered list of message contents bound to the tag, or
/// `None` when the tag is unknown or the lookup failed. With exactly one
/// match the buffer is restaged to hold only the trigger and then replaced,
/// so the plan deletes exactly the trigger and nothing typed earlier; in
/// every other case the buffer is left untouched.
pub fn coordinate_expansion(
    buf: &mut InputBuffer,
    popup: &mut PopupManager,
    req: &ExpansionRequest,
    lookup: Option<Vec<String>>,
) -> (action: ExpansionAction)
    requires
        old(buf)@.len() <= BUFFER_CAPACITY,
        req.valid_for(old(buf)@),
    ensures
        match lookup {
            None => {
                &&& action is NoMatch
                &&& final(buf)@ == old(buf)@
                &&& *final(popup) == *old(popup)
            },
            Some(msgs) => {
                if msgs@.len() == 0 {
                    &&& action is NoMatch
                    &&& final(buf)@ == old(buf)@
                    &&& *final(popup) == *old(popup)
                } else if msgs@.len() == 1 {
                    &&& action matches ExpansionAction::Inject(plan)
                        && plan.backspace_count == req.trigger@.len()
                        && plan.insert_text@ == msgs@[0]@
                    &&& final(buf)@ == Seq::<char>::empty()
                    &&& !final(popup).spec_visible()
                } else {
                    &&& action matches ExpansionAction::ShowPopup { query }
                        && query@ == req.tag@
                    &&& final(buf)@ == old(buf)@
                    &&& final(popup).spec_visible()
                    &&& final(popup).spec_query() == req.tag@
                }
            },
        },
{
    match lookup {
        None => ExpansionAction::NoMatch,
        Some(mut msgs) => {
            if msgs.len() == 0 {
                ExpansionAction::NoMatch
            } else if msgs.len() == 1 {
                let first = msgs.remove(0);
                proof {
                    lemma_trigger_shape(old(buf)@);
                    lemma_trigger_fixpoint(old(buf)@);
                }
                // restage the buffer to hold only the trigger, so the
                // replace operation deletes exactly the trigger
                buf.overwrite(req.trigger.as_str());
                let plan = expand_replace_current_tag(buf, popup, first.as_str());
                ExpansionAction::Inject(plan)
            } else {
                popup.show_with_query(req.tag.as_str());
                ExpansionAction::ShowPopup { query: req.tag.clone() }
            }
        },
    }
}

} // verus!
