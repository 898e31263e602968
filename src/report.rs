//! The text of the rows the statistics commands print.

use vstd::prelude::*;

verus! {

/// The human-readable form of a span of whole seconds (`1h 2m 5s`).
pub uninterp spec fn humantime_of(secs: int) -> Seq<char>;

/// Relies on humantime's `format_duration` and its `Display`.
#[verifier::external_body]
fn format_secs(secs: u64) -> (r: String)
    ensures
        r@ == humantime_of(secs as int),
{
    humantime::format_duration(std::time::Duration::from_secs(secs)).to_string()
}

/// A span of seconds in human-readable form.
pub fn duration_text(secs: u64) -> (r: String)
    ensures
        r@ == humantime_of(secs as int),
{
    format_secs(secs)
}

/// One row of a usage table: the workflow's name, a tab, and its total time.
pub fn usage_row(name: &str, secs: u64) -> (r: String)
    ensures
        r@ == name@ + "\t"@ + humantime_of(secs as int),
{
    let text = format_secs(secs);
    String::from_str(name).concat("\t").concat(text.as_str())
}

/// A grand total of seconds in whole minutes, rounded down.
pub fn total_minutes(total_secs: u128) -> (r: u128)
    ensures
        r == total_secs / 60,
{
    total_secs / 60
}

} // verus!
