//! The replies of the two file commands.
//!
//! The host program reads or writes the file and passes on what the system
//! call returned. A success goes to the frontend as it is; a failure goes as
//! the text that the system's error displays, neither wrapped nor shortened.
//! Nothing is retried and nothing is kept between two calls.

use vstd::prelude::*;
use vstd::string::*;

verus! {

/// `std::io::Error`, the failure of a system call. Nothing inside it is
/// visible to the verifier: it is carried through and asked for its text.
#[verifier::external_type_specification]
#[verifier::external_body]
pub struct ExIoError(std::io::Error);

/// `message` is the text that `failure` displays. What that text is depends
/// on the operating system, so it is related to the failure and not computed
/// from it.
pub open spec fn is_message_of(failure: &std::io::Error, message: String) -> bool {
    to_string_from_display_ensures::<std::io::Error>(failure, message)
}

/// `reply` is what the frontend is told of `outcome`: the value of a success,
/// unchanged, or the message of a failure.
pub open spec fn surfaces<T>(reply: Result<T, String>, outcome: Result<T, std::io::Error>) -> bool {
    match outcome {
        Ok(value) => reply == Ok::<T, String>(value),
        Err(failure) => reply is Err && is_message_of(&failure, reply->Err_0),
    }
}

/// The reply to a request for a file's text, given the outcome of reading
/// the whole file: the text itself where the read succeeded, the message of
/// the failure where it did not.
pub fn read_file_reply(outcome: Result<String, std::io::Error>) -> (reply: Result<String, String>)
    ensures
        surfaces(reply, outcome),
{
    match outcome {
        Ok(contents) => Ok(contents),
        Err(failure) => Err(failure.to_string()),
    }
}

/// The reply to a request to write a file, given the outcome of the write:
/// success without a value where the write succeeded, the message of the
/// failure where it did not.
pub fn write_file_reply(outcome: Result<(), std::io::Error>) -> (reply: Result<(), String>)
    ensures
        surfaces(reply, outcome),
{
    match outcome {
        Ok(done) => Ok(done),
        Err(failure) => Err(failure.to_string()),
    }
}

/// A reply is a value exactly where the system call gave one, and is then
/// that value: no failure is swallowed and no success is turned away.
pub proof fn lemma_reply_follows_outcome<T>(
    reply: Result<T, String>,
    outcome: Result<T, std::io::Error>,
)
    requires
        surfaces(reply, outcome),
    ensures
        reply is Ok <==> outcome is Ok,
        outcome is Ok ==> reply->Ok_0 == outcome->Ok_0,
        outcome is Err ==> is_message_of(&outcome->Err_0, reply->Err_0),
{
}

} // verus!
