//! The time of day, as the records keep it.

use chrono::Local;
use vstd::prelude::*;

verus! {

/// Reads the clock: calls `chrono::Local::now` and writes the result with
/// `DateTime::format` in the one format that the records use, which looks
/// like `2024-01-01 10:00:00`.
///
/// Nothing is promised of the text that comes back: it depends on the clock
/// and on the time zone of the machine.
#[verifier::external_body]
pub(crate) fn local_time(format: &str) -> (text: String)
    requires
        format@ == "%Y-%m-%d %H:%M:%S"@,
{
    Local::now().format(format).to_string()
}

} // verus!
