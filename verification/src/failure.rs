//! Why an operation against the catalog did not complete.

use crate::text::{decimal, push_decimal};
use vstd::prelude::*;
use vstd::string::*;

verus! {

/// The cause of a failed operation. Callers are told only that the
/// operation failed, with a message; the cause is kept for the log.
#[derive(Debug, Clone, Copy, PartialEq, Eq, Structural)]
pub enum Failure {
    /// The call did not get through: no connection, no name, no answer in
    /// time.
    Transport,
    /// The catalog answered with this status, which is not a success.
    UpstreamStatus(u16),
    /// The answer arrived with a success status, but its body is not of
    /// the expected shape.
    Decode,
    /// The catalog answered that it holds no game, so that there is no
    /// position to draw.
    EmptyCatalog,
    /// The flow was told of something it had not asked for.
    Unexpected,
}

impl Failure {
    /// The message of a failure, as a sequence of characters.
    pub open spec fn message_text(self) -> Seq<char> {
        match self {
            Failure::Transport => "the catalog could not be reached"@,
            Failure::UpstreamStatus(status) => "the catalog answered with status "@ + decimal(
                status as int,
            ),
            Failure::Decode => "the catalog's answer could not be decoded"@,
            Failure::EmptyCatalog => "the catalog holds no game"@,
            Failure::Unexpected => "the flow was told of something it had not asked for"@,
        }
    }

    /// A message for people, one line long.
    pub fn message(&self) -> (text: String)
        ensures
            text@ == self.message_text(),
    {
        match self {
            Failure::Transport => String::from_str("the catalog could not be reached"),
            Failure::UpstreamStatus(status) => {
                let mut text = String::from_str("the catalog answered with status ");
                push_decimal(&mut text, *status as i64);
                text
            },
            Failure::Decode => String::from_str("the catalog's answer could not be decoded"),
            Failure::EmptyCatalog => String::from_str("the catalog holds no game"),
            Failure::Unexpected => String::from_str(
                "the flow was told of something it had not asked for",
            ),
        }
    }
}

} // verus!
