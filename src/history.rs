//! The recent requests of a session, bounded in number, oldest first.

use vstd::prelude::*;
use std::collections::VecDeque;
use crate::persistence::{
    CommandEntry, FeedbackType, apply_feedback, new_entry, unix_now, with_feedback,
};

verus! {

/// The number of entries a history keeps unless told otherwise.
pub const DEFAULT_HISTORY_SIZE: usize = 100;

/// `s` with its oldest entry dropped where it is full, then `e` added.
pub open spec fn bounded_push(s: Seq<CommandEntry>, max: nat, e: CommandEntry) -> Seq<CommandEntry> {
    if s.len() == max && s.len() > 0 {
        s.drop_first().push(e)
    } else {
        s.push(e)
    }
}

/// The last `n` entries of `s`, or all of them where it has fewer.
pub open spec fn newest(s: Seq<CommandEntry>, n: nat) -> Seq<CommandEntry> {
    if s.len() > n {
        s.skip(s.len() - n)
    } else {
        s
    }
}

/// Recent requests, at most `max_size` of them once full, and where they are
/// saved.
pub struct CommandHistory {
    history: VecDeque<CommandEntry>,
    max_size: usize,
    file_path: Option<String>,
}

impl CommandHistory {
    pub closed spec fn spec_entries(&self) -> Seq<CommandEntry> {
        self.history@
    }

    pub closed spec fn spec_max_size(&self) -> nat {
        self.max_size as nat
    }

    pub closed spec fn spec_file_path(&self) -> Option<String> {
        self.file_path
    }

    /// An empty history of the default size, saved nowhere.
    pub fn new() -> (r: Self)
        ensures
            r.spec_entries().len() == 0,
            r.spec_max_size() == DEFAULT_HISTORY_SIZE,
            r.spec_file_path() is None,
    {
        CommandHistory {
            history: VecDeque::with_capacity(DEFAULT_HISTORY_SIZE),
            max_size: DEFAULT_HISTORY_SIZE,
            file_path: None,
        }
    }

    /// An empty history of the default size, saved at `file_path`.
    pub fn with_file(file_path: String) -> (r: Self)
        ensures
            r.spec_entries().len() == 0,
            r.spec_max_size() == DEFAULT_HISTORY_SIZE,
            r.spec_file_path() == Some(file_path),
    {
        CommandHistory {
            history: VecDeque::with_capacity(DEFAULT_HISTORY_SIZE),
            max_size: DEFAULT_HISTORY_SIZE,
            file_path: Some(file_path),
        }
    }

    /// An empty history that keeps `max_size` entries, saved nowhere.
    pub fn with_capacity(max_size: usize) -> (r: Self)
        ensures
            r.spec_entries().len() == 0,
            r.spec_max_size() == max_size,
            r.spec_file_path() is None,
    {
        CommandHistory { history: VecDeque::with_capacity(max_size), max_size, file_path: None }
    }

    /// Changes the bound, dropping the oldest entries beyond it.
    pub fn set_max_size(&mut self, max_size: usize)
        ensures
            final(self).spec_max_size() == max_size,
            final(self).spec_entries() == newest(old(self).spec_entries(), max_size as nat),
            final(self).spec_file_path() == old(self).spec_file_path(),
    {
        self.max_size = max_size;
        let ghost start = self.history@;
        while self.history.len() > max_size
            invariant
                self.max_size == max_size,
                self.file_path == old(self).file_path,
                start == old(self).history@,
                start.len() >= self.history@.len(),
                self.history@ == start.skip(start.len() - self.history@.len()),
                newest(start, max_size as nat) == newest(self.history@, max_size as nat),
            decreases self.history.len(),
        {
            let ghost before = self.history@;
            self.history.pop_front();
            assert(self.history@ =~= start.skip(start.len() - self.history@.len()));
            assert(before.skip(before.len() - max_size) =~= self.history@.skip(
                self.history@.len() - max_size,
            ));
        }
        assert(start.skip(start.len() - self.history@.len()) == self.history@);
    }

    fn push_bounded(&mut self, e: CommandEntry)
        ensures
            final(self).spec_entries() == bounded_push(
                old(self).spec_entries(),
                old(self).spec_max_size(),
                e,
            ),
            final(self).spec_max_size() == old(self).spec_max_size(),
            final(self).spec_file_path() == old(self).spec_file_path(),
    {
        if self.history.len() == self.max_size && self.history.len() > 0 {
            self.history.pop_front();
        }
        self.history.push_back(e);
    }

    /// Records a request made at `timestamp`, with no feedback yet, dropping
    /// the oldest entry where the history is full. Saving is the caller's.
    pub fn add_entry_at(
        &mut self,
        input: String,
        command: String,
        explanation: Option<String>,
        timestamp: u64,
    )
        ensures
            final(self).spec_entries() == bounded_push(
                old(self).spec_entries(),
                old(self).spec_max_size(),
                new_entry(input, command, explanation, timestamp, FeedbackType::NoFeedback, None),
            ),
            final(self).spec_max_size() == old(self).spec_max_size(),
            final(self).spec_file_path() == old(self).spec_file_path(),
    {
        self.push_bounded(
            CommandEntry {
                input,
                command,
                explanation,
                timestamp,
                feedback: FeedbackType::NoFeedback,
                original_command: None,
            },
        );
    }

    /// Records a request made now, with no feedback yet, dropping the oldest
    /// entry where the history is full. Saving is the caller's.
    pub fn add_entry(&mut self, input: String, command: String, explanation: Option<String>)
        ensures
            exists|t: u64|
                final(self).spec_entries() == bounded_push(
                    old(self).spec_entries(),
                    old(self).spec_max_size(),
                    #[trigger] new_entry(input, command, explanation, t, FeedbackType::NoFeedback, None),
                ),
            final(self).spec_max_size() == old(self).spec_max_size(),
            final(self).spec_file_path() == old(self).spec_file_path(),
    {
        let t = unix_now();
        self.add_entry_at(input, command, explanation, t);
    }

    /// Records a request made now with its feedback and the original command,
    /// dropping the oldest entry where the history is full.
    pub fn add_entry_with_feedback(
        &mut self,
        input: String,
        command: String,
        explanation: Option<String>,
        feedback: FeedbackType,
        original_command: Option<String>,
    )
        ensures
            exists|t: u64|
                final(self).spec_entries() == bounded_push(
                    old(self).spec_entries(),
                    old(self).spec_max_size(),
                    #[trigger] new_entry(input, command, explanation, t, feedback, original_command),
                ),
            final(self).spec_max_size() == old(self).spec_max_size(),
            final(self).spec_file_path() == old(self).spec_file_path(),
    {
        let t = unix_now();
        self.add_entry_with_feedback_at(input, command, explanation, feedback, original_command, t);
    }

    /// Records a request made at `timestamp` with its feedback and the
    /// original command, dropping the oldest entry where the history is full.
    pub fn add_entry_with_feedback_at(
        &mut self,
        input: String,
        command: String,
        explanation: Option<String>,
        feedback: FeedbackType,
        original_command: Option<String>,
        timestamp: u64,
    )
        ensures
            final(self).spec_entries() == bounded_push(
                old(self).spec_entries(),
                old(self).spec_max_size(),
                new_entry(input, command, explanation, timestamp, feedback, original_command),
            ),
            final(self).spec_max_size() == old(self).spec_max_size(),
            final(self).spec_file_path() == old(self).spec_file_path(),
    {
        self.push_bounded(
            CommandEntry { input, command, explanation, timestamp, feedback, original_command },
        );
    }

    /// Gives the most recent entry its feedback. False where there is none.
    pub fn update_last_entry_feedback(
        &mut self,
        feedback: FeedbackType,
        edited_command: Option<String>,
    ) -> (r: bool)
        ensures
            r == (old(self).spec_entries().len() > 0),
            !r ==> final(self).spec_entries() == old(self).spec_entries(),
            r ==> final(self).spec_entries() == old(self).spec_entries().drop_last().push(
                with_feedback(old(self).spec_entries().last(), feedback, edited_command),
            ),
            final(self).spec_max_size() == old(self).spec_max_size(),
            final(self).spec_file_path() == old(self).spec_file_path(),
    {
        match self.history.pop_back() {
            Some(last) => {
                let e = apply_feedback(last, feedback, edited_command);
                self.history.push_back(e);
                true
            },
            None => false,
        }
    }

    /// A copy of the entries, oldest first.
    pub fn get_history(&self) -> (r: Vec<CommandEntry>)
        ensures
            r@ == self.spec_entries(),
    {
        let mut r: Vec<CommandEntry> = Vec::new();
        let mut i: usize = 0;
        while i < self.history.len()
            invariant
                i <= self.history@.len(),
                r@ == self.history@.take(i as int),
            decreases self.history@.len() - i,
        {
            r.push(self.history[i].duplicate());
            i = i + 1;
            assert(r@ =~= self.history@.take(i as int));
        }
        assert(self.history@.take(i as int) =~= self.history@);
        r
    }

    /// The entries themselves, oldest first.
    pub fn entries(&self) -> (r: &VecDeque<CommandEntry>)
        ensures
            r@ == self.spec_entries(),
    {
        &self.history
    }

    pub fn get_file_path(&self) -> (r: Option<&String>)
        ensures
            match self.spec_file_path() {
                Some(p) => r == Some(&p),
                None => r is None,
            },
    {
        match &self.file_path {
            Some(p) => Some(p),
            None => None,
        }
    }

    pub fn clear(&mut self)
        ensures
            final(self).spec_entries().len() == 0,
            final(self).spec_max_size() == old(self).spec_max_size(),
            final(self).spec_file_path() == old(self).spec_file_path(),
    {
        self.history.clear();
    }

    /// Up to `count` entries, newest first.
    pub fn get_recent(&self, count: usize) -> (r: Vec<CommandEntry>)
        ensures
            r@.len() == if count < self.spec_entries().len() {
                count as nat
            } else {
                self.spec_entries().len()
            },
            forall|i: int|
                0 <= i < r@.len() ==> #[trigger] r@[i] == self.spec_entries()[self.spec_entries().len()
                    - 1 - i],
    {
        let n = self.history.len();
        let mut r: Vec<CommandEntry> = Vec::new();
        let mut i: usize = 0;
        while i < count && i < n
            invariant
                n == self.history@.len(),
                i <= n,
                i <= count,
                r@.len() == i,
                forall|k: int| 0 <= k < i ==> #[trigger] r@[k] == self.history@[n - 1 - k],
            decreases n - i,
        {
            r.push(self.history[n - 1 - i].duplicate());
            i = i + 1;
        }
        r
    }

    pub fn set_file_path(&mut self, file_path: String)
        ensures
            final(self).spec_file_path() == Some(file_path),
            final(self).spec_entries() == old(self).spec_entries(),
            final(self).spec_max_size() == old(self).spec_max_size(),
    {
        self.file_path = Some(file_path);
    }

    /// Replaces the entries by the newest of `loaded`, as many as the bound
    /// keeps, oldest first.
    pub fn load_entries(&mut self, loaded: Vec<CommandEntry>)
        ensures
            final(self).spec_entries() == newest(loaded@, old(self).spec_max_size()),
            final(self).spec_max_size() == old(self).spec_max_size(),
            final(self).spec_file_path() == old(self).spec_file_path(),
    {
        self.history.clear();
        let n = loaded.len();
        let start = if n > self.max_size {
            n - self.max_size
        } else {
            0
        };
        let mut i: usize = start;
        while i < n
            invariant
                n == loaded@.len(),
                start <= i <= n,
                start == (if n > self.max_size { n - self.max_size } else { 0 }),
                self.max_size == old(self).max_size,
                self.file_path == old(self).file_path,
                self.history@ == loaded@.subrange(start as int, i as int),
            decreases n - i,
        {
            self.history.push_back(loaded[i].duplicate());
            i = i + 1;
            assert(self.history@ =~= loaded@.subrange(start as int, i as int));
        }
        assert(loaded@.subrange(start as int, n as int) =~= newest(loaded@, self.max_size as nat));
    }
}

impl Default for CommandHistory {
    fn default() -> (r: Self)
        ensures
            r.spec_entries().len() == 0,
            r.spec_max_size() == DEFAULT_HISTORY_SIZE,
            r.spec_file_path() is None,
    {
        Self::new()
    }
}

} // verus!
