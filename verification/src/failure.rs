//! The message that reports a failed write.

use vstd::prelude::*;
use vstd::string::StringExecFns;

verus! {

/// The fixed phrase that opens every failure message.
pub open spec fn failure_prefix() -> Seq<char> {
    "Failed to write file: "@
}

/// The message for a write that failed with the description `cause`: the
/// fixed phrase, then the description, unchanged.
pub open spec fn failure_message(cause: Seq<char>) -> Seq<char> {
    failure_prefix() + cause
}

/// Builds the message for a write that failed with the description `cause`.
pub fn write_failure(cause: &str) -> (message: String)
    ensures
        message@ == failure_message(cause@),
{
    let mut message = String::from_str("Failed to write file: ");
    message.append(cause);
    message
}

/// A failure message opens with the fixed phrase and closes with the
/// description it was built from, with nothing between or around them.
pub proof fn lemma_message_embeds_cause(cause: Seq<char>)
    ensures
        failure_prefix().is_prefix_of(failure_message(cause)),
        failure_message(cause).len() == failure_prefix().len() + cause.len(),
        failure_message(cause).subrange(
            failure_prefix().len() as int,
            failure_message(cause).len() as int,
        ) == cause,
{
    let message = failure_message(cause);
    let skip = failure_prefix().len() as int;
    assert(message.subrange(0, skip) =~= failure_prefix());
    assert(message.subrange(skip, message.len() as int) =~= cause);
}

/// Two descriptions that differ give two messages that differ.
pub proof fn lemma_message_tells_causes_apart(first: Seq<char>, second: Seq<char>)
    requires
        failure_message(first) == failure_message(second),
    ensures
        first == second,
{
    lemma_message_embeds_cause(first);
    lemma_message_embeds_cause(second);
}

} // verus!
