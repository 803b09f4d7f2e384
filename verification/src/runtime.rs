//! What a probe's entry point does when it runs: the enablement test in front
//! of the argument producer, and the rendering of arguments as C strings.

use vstd::prelude::*;
use vstd::string::*;

verus! {

/// The value that a serialized argument hands to the tracer. A failure of the
/// serializer is surfaced, not raised: its message becomes the argument.
pub open spec fn surfaced(outcome: Result<String, String>) -> Seq<char> {
    match outcome {
        Ok(json) => json@,
        Err(message) => message@,
    }
}

/// Runs the argument producer of a probe if, and only if, the probe's semaphore
/// is not zero.
///
/// The producer need only be callable while the probe is enabled: with the
/// semaphore at zero it is never invoked, whatever it would do.
pub fn evaluate_if_enabled<T, F: FnOnce() -> T>(semaphore: u16, producer: F) -> (args: Option<T>)
    requires
        semaphore != 0 ==> producer.requires(()),
    ensures
        semaphore == 0 ==> args is None,
        semaphore != 0 ==> (args matches Some(value) && producer.ensures((), value)),
{
    if semaphore != 0 {
        Some(producer())
    } else {
        None
    }
}

/// Chooses the text of a serialized argument: the JSON rendering where the
/// serializer succeeded, its error message where it failed.
pub fn json_argument(outcome: Result<String, String>) -> (text: String)
    ensures
        text@ == surfaced(outcome),
{
    match outcome {
        Ok(json) => json,
        Err(message) => message,
    }
}

/// The bytes of `text` followed by a terminating zero, as a tracer reads a
/// `char *` argument.
pub fn c_string(text: &str) -> (bytes: Vec<u8>)
    ensures
        bytes@ == text.spec_bytes().push(0u8),
{
    let mut bytes = text.as_bytes_vec();
    bytes.push(0u8);
    bytes
}

} // verus!
