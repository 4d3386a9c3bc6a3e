//! The watch loop's decision: which kinds of debounced filesystem events
//! warrant re-running the whole verify-and-report pass. The loop itself —
//! blocking on a change-notification channel and re-invoking the pass —
//! lives outside the library; it hands each event's kind in as a plain
//! value and acts on the answer.

use vstd::prelude::*;

verus! {

/// The kind of a debounced filesystem event, stripped of its paths.
#[derive(Debug, Clone, Copy, PartialEq, Eq)]
pub enum WatchEvent {
    NoticeWrite,
    NoticeRemove,
    Create,
    Write,
    Chmod,
    Remove,
    Rename,
    Rescan,
    Error,
}

impl WatchEvent {
    /// Whether this event re-triggers a verify pass: only settled changes
    /// to the tree's contents do — creations, removals, renames and
    /// completed writes — while advance notices, metadata changes, rescans
    /// and watcher errors do not.
    pub fn should_reverify(&self) -> (r: bool)
        ensures
            r == (self is Create || self is Remove || self is Rename || self is Write),
    {
        match self {
            WatchEvent::Create | WatchEvent::Remove | WatchEvent::Rename | WatchEvent::Write => {
                true
            },
            _ => false,
        }
    }
}

} // verus!
