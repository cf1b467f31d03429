//! Visibility state of the selection popup surface.
//!
//! The popup is a persistent window owned by the shell; this type is the
//! engine's record of whether it is visible and which query it was last
//! pre-filled with. Showing and hiding are idempotent: the shell applies
//! the recorded state to the real window after each call.

use vstd::prelude::*;
use vstd::string::StrSliceExecFns;

verus! {

/// The engine's record of the popup surface.
pub struct PopupManager {
    initialized: bool,
    visible: bool,
    query: String,
}

impl PopupManager {
    /// Whether the popup window has been created and made ready.
    pub closed spec fn spec_initialized(&self) -> bool {
        self.initialized
    }

    /// Whether the popup surface is currently requested visible.
    pub closed spec fn spec_visible(&self) -> bool {
        self.visible
    }

    /// The query the popup was last pre-filled with.
    pub closed spec fn spec_query(&self) -> Seq<char> {
        self.query@
    }

    /// A fresh manager: window not yet created, surface hidden, empty query.
    pub fn new() -> (pm: Self)
        ensures
            !pm.spec_initialized(),
            !pm.spec_visible(),
            pm.spec_query() == Seq::<char>::empty(),
    {
        PopupManager { initialized: false, visible: false, query: String::new() }
    }

    /// Record that the popup window exists and is ready to be shown.
    pub fn init(&mut self)
        ensures
            final(self).spec_initialized(),
            final(self).spec_visible() == old(self).spec_visible(),
            final(self).spec_query() == old(self).spec_query(),
    {
        self.initialized = true;
    }

    /// Request the popup visible, pre-filled with `query`.
    pub fn show_with_query(&mut self, query: &str)
        ensures
            final(self).spec_visible(),
            final(self).spec_query() == query@,
            final(self).spec_initialized() == old(self).spec_initialized(),
    {
        self.visible = true;
        self.query = query.to_owned();
    }

    /// Request the popup hidden. Hiding an already hidden popup is a no-op,
    /// never an error.
    pub fn hide_popup(&mut self)
        ensures
            !final(self).spec_visible(),
            final(self).spec_query() == old(self).spec_query(),
            final(self).spec_initialized() == old(self).spec_initialized(),
            !old(self).spec_visible() ==> *final(self) == *old(self),
    {
        self.visible = false;
    }

    /// Whether the popup surface is currently requested visible.
    pub fn is_visible(&self) -> (r: bool)
        ensures
            r == self.spec_visible(),
    {
        self.visible
    }

    /// The query the popup was last pre-filled with.
    pub fn query(&self) -> (q: &str)
        ensures
            q@ == self.spec_query(),
    {
        self.query.as_str()
    }
}

} // verus!
