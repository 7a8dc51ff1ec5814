//! The baseline of the clipboard monitor: the content that was seen last,
//! against which every reading is held to tell whether the clipboard changed.

use crate::text::{same_text, trim, trimmed};
use vstd::prelude::*;
use vstd::string::StringExecFns;

verus! {

/// The number of readings in a row that may fail before the baseline is cleared.
pub const MAX_READ_FAILURES: usize = 5;

/// What the monitor remembers between two readings of the clipboard.
pub struct ClipboardManager {
    previous_content: String,
    read_failures: usize,
}

/// What the monitor remembers, as values.
pub struct Baseline {
    /// The content seen last, without the white space around it.
    pub content: Seq<char>,
    /// The number of readings that failed since the last one that succeeded.
    pub failures: nat,
}

impl Baseline {
    /// The baseline after a reading of `content`, and whether the content changed.
    pub open spec fn observed(self, content: Seq<char>) -> (Baseline, bool) {
        (Baseline { content: trimmed(content), failures: 0 }, trimmed(content) != self.content)
    }

    /// The baseline after a reading that failed: it is cleared once
    /// `MAX_READ_FAILURES` readings in a row have failed.
    pub open spec fn failed(self) -> Baseline {
        if self.failures + 1 >= MAX_READ_FAILURES {
            Baseline { content: Seq::<char>::empty(), failures: 0 }
        } else {
            Baseline { content: self.content, failures: self.failures + 1 }
        }
    }

    /// The baseline after `content` was written to the clipboard.
    pub open spec fn written(self, content: Seq<char>) -> Baseline {
        Baseline { content: trimmed(content), failures: self.failures }
    }
}

impl View for ClipboardManager {
    type V = Baseline;

    closed spec fn view(&self) -> Baseline {
        Baseline { content: self.previous_content@, failures: self.read_failures as nat }
    }
}

impl ClipboardManager {
    /// The counter of failed readings stays below the threshold.
    #[verifier::type_invariant]
    spec fn inv(self) -> bool {
        self.read_failures < MAX_READ_FAILURES
    }

    /// Creates a manager that has seen nothing yet.
    pub fn new() -> (manager: Self)
        ensures
            manager@ == (Baseline { content: Seq::<char>::empty(), failures: 0 }),
    {
        ClipboardManager { previous_content: String::new(), read_failures: 0 }
    }

    /// Returns the content that was seen last.
    pub fn previous_content(&self) -> (content: &str)
        ensures
            content@ == self@.content,
    {
        self.previous_content.as_str()
    }

    /// Takes a reading of the clipboard and tells whether its content,
    /// without the white space around it, differs from what was seen last.
    /// The reading becomes the baseline, and the count of failures starts anew.
    pub fn has_clipboard_changed(&mut self, current_content: &str) -> (changed: bool)
        ensures
            (final(self)@, changed) == old(self)@.observed(current_content@),
    {
        proof {
            use_type_invariant(&*self);
        }
        let observed = trim(current_content);
        let changed = !same_text(observed, self.previous_content.as_str());
        self.previous_content = String::from_str(observed);
        self.read_failures = 0;
        changed
    }

    /// Takes note of a reading that failed. The baseline stays as it is,
    /// until `MAX_READ_FAILURES` readings in a row have failed: then it is
    /// cleared, and the count starts anew.
    pub fn note_read_failure(&mut self)
        ensures
            final(self)@ == old(self)@.failed(),
    {
        proof {
            use_type_invariant(&*self);
        }
        if self.read_failures + 1 >= MAX_READ_FAILURES {
            self.previous_content = String::new();
            self.read_failures = 0;
        } else {
            self.read_failures = self.read_failures + 1;
        }
    }

    /// Takes note of what the monitor itself wrote to the clipboard, so
    /// that the next reading of it is no change.
    pub fn note_written(&mut self, content: &str)
        ensures
            final(self)@ == old(self)@.written(content@),
    {
        proof {
            use_type_invariant(&*self);
        }
        self.previous_content = String::from_str(trim(content));
    }
}

} // verus!
