//! The records of past requests, as they are kept on disk.

use vstd::prelude::*;

verus! {

/// What the user said of a command.
#[derive(Debug, Clone, Copy, PartialEq, Eq, Structural)]
pub enum FeedbackType {
    Helpful,
    NotHelpful,
    Edited,
    NoFeedback,
}

/// One past request.
#[derive(Debug, Clone)]
pub struct CommandEntry {
    /// Natural language input
    pub input: String,
    /// Generated or edited command
    pub command: String,
    /// Explanation for the command
    pub explanation: Option<String>,
    /// Seconds since the Unix epoch when the entry was made
    pub timestamp: u64,
    /// User feedback on the command
    pub feedback: FeedbackType,
    /// The command as generated, where the user edited it
    pub original_command: Option<String>,
}

pub fn copy_text(o: &Option<String>) -> (r: Option<String>)
    ensures
        r == *o,
{
    match o {
        Some(s) => Some(s.clone()),
        None => None,
    }
}

impl CommandEntry {
    /// A field-by-field copy.
    pub fn duplicate(&self) -> (r: CommandEntry)
        ensures
            r == *self,
    {
        CommandEntry {
            input: self.input.clone(),
            command: self.command.clone(),
            explanation: copy_text(&self.explanation),
            timestamp: self.timestamp,
            feedback: self.feedback,
            original_command: copy_text(&self.original_command),
        }
    }
}

/// The entry a new request makes.
pub open spec fn new_entry(
    input: String,
    command: String,
    explanation: Option<String>,
    timestamp: u64,
    feedback: FeedbackType,
    original_command: Option<String>,
) -> CommandEntry {
    CommandEntry { input, command, explanation, timestamp, feedback, original_command }
}

/// An entry after feedback: an edit keeps the generated command as the
/// original and takes the edited one, where one is given.
pub open spec fn with_feedback(e: CommandEntry, feedback: FeedbackType, edited: Option<String>) -> CommandEntry {
    if feedback == FeedbackType::Edited {
        CommandEntry {
            original_command: Some(e.command),
            command: match edited {
                Some(c) => c,
                None => e.command,
            },
            feedback,
            ..e
        }
    } else {
        CommandEntry { feedback, ..e }
    }
}

pub fn apply_feedback(e: CommandEntry, feedback: FeedbackType, edited: Option<String>) -> (r:
    CommandEntry)
    ensures
        r == with_feedback(e, feedback, edited),
{
    let mut e = e;
    if feedback == FeedbackType::Edited {
        e.original_command = Some(e.command.clone());
        if let Some(cmd) = edited {
            e.command = cmd;
        }
    }
    e.feedback = feedback;
    e
}

/// Relies on `SystemTime::now` and `SystemTime::duration_since`: the whole
/// seconds since the Unix epoch, 0 where the clock reads earlier.
#[verifier::external_body]
pub(crate) fn unix_now() -> (r: u64) {
    match std::time::SystemTime::now().duration_since(std::time::UNIX_EPOCH) {
        Ok(d) => d.as_secs(),
        Err(_) => 0,
    }
}

/// Every entry ever recorded, oldest first.
pub struct CommandHistory {
    pub entries: Vec<CommandEntry>,
}

impl CommandHistory {
    pub fn new() -> (r: Self)
        ensures
            r.entries@.len() == 0,
    {
        CommandHistory { entries: Vec::new() }
    }

    /// Records a request made at `timestamp`, with no feedback yet.
    pub fn add_entry_at(
        &mut self,
        input: String,
        command: String,
        explanation: Option<String>,
        timestamp: u64,
    )
        ensures
            final(self).entries@ == old(self).entries@.push(
                new_entry(input, command, explanation, timestamp, FeedbackType::NoFeedback, None),
            ),
    {
        self.entries.push(
            CommandEntry {
                input,
                command,
                explanation,
                timestamp,
                feedback: FeedbackType::NoFeedback,
                original_command: None,
            },
        );
    }

    /// Records a request made now, with no feedback yet.
    pub fn add_entry(&mut self, input: String, command: String, explanation: Option<String>)
        ensures
            exists|t: u64|
                final(self).entries@ == old(self).entries@.push(
                    #[trigger] new_entry(input, command, explanation, t, FeedbackType::NoFeedback, None),
                ),
    {
        let t = unix_now();
        self.add_entry_at(input, command, explanation, t);
    }

    /// Records a request made now, with its feedback and the original command.
    pub fn add_entry_with_feedback(
        &mut self,
        input: String,
        command: String,
        explanation: Option<String>,
        feedback: FeedbackType,
        original_command: Option<String>,
    )
        ensures
            exists|t: u64|
                final(self).entries@ == old(self).entries@.push(
                    #[trigger] new_entry(input, command, explanation, t, feedback, original_command),
                ),
    {
        let timestamp = unix_now();
        let ghost before = self.entries@;
        let ghost e = new_entry(input, command, explanation, timestamp, feedback, original_command);
        self.entries.push(
            CommandEntry { input, command, explanation, timestamp, feedback, original_command },
        );
        assert(self.entries@ == before.push(e));
    }

    /// Gives the most recent entry its feedback; nothing where there is none.
    pub fn update_last_entry_feedback(&mut self, feedback: FeedbackType, edited_command: Option<String>)
        ensures
            old(self).entries@.len() == 0 ==> final(self).entries@ == old(self).entries@,
            old(self).entries@.len() > 0 ==> final(self).entries@ == old(self).entries@.drop_last().push(
                with_feedback(old(self).entries@.last(), feedback, edited_command),
            ),
    {
        match self.entries.pop() {
            Some(last) => {
                let e = apply_feedback(last, feedback, edited_command);
                self.entries.push(e);
            },
            None => {},
        }
    }
}

} // verus!
