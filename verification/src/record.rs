//! The record that is handed to the forwarding task.
use crate::severity::{Level, Severity};
use crate::text::{all_whitespace, trim, trimmed, trimmed_of_whitespace_is_empty};
use vstd::prelude::*;
use vstd::string::*;

verus! {

/// What stands before the body in a message: the level's name in square
/// brackets, a space, the event's target, a colon and a space.
pub open spec fn spec_prefix(level: Level, target: Seq<char>) -> Seq<char> {
    seq!['['] + level.spec_name() + seq![']', ' '] + target + seq![':', ' ']
}

/// The text of a message: the prefix, then the body without the whitespace
/// around it.
pub open spec fn spec_message(level: Level, target: Seq<char>, body: Seq<char>) -> Seq<char> {
    spec_prefix(level, target) + trimmed(body)
}

/// Builds the text of a message from the parts of an event. Only the body is
/// trimmed; the target is taken as it is.
pub fn format_message(level: Level, target: &str, body: &str) -> (message: String)
    ensures
        message@ == spec_message(level, target@, body@),
{
    proof {
        reveal_strlit("[");
        reveal_strlit("] ");
        reveal_strlit(": ");
    }
    let mut message = String::from_str("[");
    assert(message@ =~= seq!['[']);
    message.append(level.name());
    message.append("] ");
    assert(message@ =~= seq!['['] + level.spec_name() + seq![']', ' ']);
    message.append(target);
    message.append(": ");
    assert(message@ =~= spec_prefix(level, target@));
    message.append(trim(body));
    message
}

/// A severity and a finished message. A record is built once and not changed
/// afterwards.
#[derive(Clone, Debug, PartialEq, Eq)]
pub struct LogRecord {
    pub severity: Severity,
    pub message: String,
}

impl View for LogRecord {
    type V = (Severity, Seq<char>);

    open spec fn view(&self) -> (Severity, Seq<char>) {
        (self.severity, self.message@)
    }
}

impl LogRecord {
    /// The record that stands for an event of the given level and target
    /// whose fields were rendered as `body`.
    pub open spec fn spec_from_event(level: Level, target: Seq<char>, body: Seq<char>) -> (
        Severity,
        Seq<char>,
    ) {
        (level.spec_severity(), spec_message(level, target, body))
    }

    /// Builds the record for an event from its level, its target and the
    /// rendering of its fields.
    pub fn from_event(level: Level, target: &str, body: &str) -> (record: LogRecord)
        ensures
            record@ == Self::spec_from_event(level, target@, body@),
    {
        LogRecord { severity: level.severity(), message: format_message(level, target, body) }
    }
}

/// A body that holds nothing, or nothing but whitespace, leaves the message
/// with its prefix alone.
pub proof fn message_of_blank_body(level: Level, target: Seq<char>, body: Seq<char>)
    requires
        all_whitespace(body),
    ensures
        spec_message(level, target, body) == spec_prefix(level, target),
{
    trimmed_of_whitespace_is_empty(body);
    assert(spec_prefix(level, target) + Seq::<char>::empty() =~= spec_prefix(level, target));
}

/// Only the body is trimmed: a message starts with the whole prefix,
/// whatever whitespace the target holds, and goes on with the trimmed body.
pub proof fn message_trims_body_only(level: Level, target: Seq<char>, body: Seq<char>)
    ensures
        spec_message(level, target, body).len() == spec_prefix(level, target).len() + trimmed(
            body,
        ).len(),
        spec_message(level, target, body).subrange(0, spec_prefix(level, target).len() as int)
            == spec_prefix(level, target),
        spec_message(level, target, body).subrange(
            spec_prefix(level, target).len() as int,
            spec_message(level, target, body).len() as int,
        ) == trimmed(body),
{
    let prefix = spec_prefix(level, target);
    let message = spec_message(level, target, body);
    assert(message.subrange(0, prefix.len() as int) =~= prefix);
    assert(message.subrange(prefix.len() as int, message.len() as int) =~= trimmed(body));
}

} // verus!
