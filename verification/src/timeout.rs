//! The idle timeout as users write it in a manifest, such as `15s` or `1m 30s`.

use crate::time::{Duration, NANOS_PER_SEC};
use vstd::prelude::*;

verus! {

/// What `duration_str::parse` makes of a text: a length of time, in whole
/// seconds and nanoseconds beyond them, or a message.
pub uninterp spec fn parsed_length(text: Seq<char>) -> Result<(u64, u32), Seq<char>>;

/// Calls `duration_str::parse` and takes the length of time apart into whole
/// seconds and nanoseconds. Claimed of it: the outcome depends on the text alone,
/// the nanoseconds make up less than a second, and the whole length, which the
/// function builds from a count of nanoseconds in a `u64`, fits one. The grammar
/// of the text is left unsaid.
#[verifier::external_body]
fn parse_length(text: &str) -> (parsed: Result<(u64, u32), String>)
    ensures
        parsed_length(text@) == parsed_view(parsed),
        parsed matches Ok(length) ==> length.1 < NANOS_PER_SEC,
        parsed matches Ok(length) ==> length.0 * NANOS_PER_SEC + length.1 <= u64::MAX,
{
    match duration_str::parse(text) {
        Ok(length) => Ok((length.as_secs(), length.subsec_nanos())),
        Err(message) => Err(message),
    }
}

/// The view of a parsed text.
pub open spec fn parsed_view(parsed: Result<(u64, u32), String>) -> Result<(u64, u32), Seq<char>> {
    match parsed {
        Ok(length) => Ok(length),
        Err(message) => Err(message@),
    }
}

/// The view of an idle timeout that was read.
pub open spec fn timeout_view(timeout: Result<Option<Duration>, String>) -> Result<
    Option<nat>,
    Seq<char>,
> {
    match timeout {
        Ok(length) => Ok(length.deep_view()),
        Err(message) => Err(message@),
    }
}

/// The idle timeout that a parsed text stands for.
pub open spec fn timeout_of_parsed(parsed: Result<(u64, u32), Seq<char>>) -> Result<
    Option<nat>,
    Seq<char>,
> {
    match parsed {
        Ok(length) => Ok(Some((length.0 * NANOS_PER_SEC + length.1) as nat)),
        Err(message) => Err(message),
    }
}

/// The idle timeout that a field of a manifest stands for. A field that holds null
/// or an empty text stands for no timeout.
pub open spec fn timeout_of_field(field: Option<Seq<char>>) -> Result<Option<nat>, Seq<char>> {
    match field {
        Some(text) => if text.len() == 0 {
            Ok(None)
        } else {
            timeout_of_parsed(parsed_length(text))
        },
        None => Ok(None),
    }
}

/// The idle timeout that a parsed text stands for.
pub fn idle_timeout_from_parsed(parsed: Result<(u64, u32), String>) -> (timeout: Result<
    Option<Duration>,
    String,
>)
    requires
        parsed matches Ok(length) ==> length.1 < NANOS_PER_SEC,
    ensures
        timeout_view(timeout) == timeout_of_parsed(parsed_view(parsed)),
{
    match parsed {
        Ok((secs, nanos)) => Ok(Some(Duration::new(secs, nanos))),
        Err(message) => Err(message),
    }
}

/// Reads the idle timeout from a field of a manifest. `None` stands for a field that
/// holds null.
pub fn parse_idle_timeout(field: Option<&str>) -> (timeout: Result<Option<Duration>, String>)
    ensures
        timeout_view(timeout) == timeout_of_field(field.deep_view()),
        timeout matches Ok(Some(length)) ==> length@ <= u64::MAX,
{
    match field {
        Some(text) => if text.is_empty() {
            Ok(None)
        } else {
            idle_timeout_from_parsed(parse_length(text))
        },
        None => Ok(None),
    }
}

} // verus!
