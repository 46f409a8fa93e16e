//! The time in seconds since the Unix epoch.

use crate::text::i64_text;
use vstd::prelude::*;

verus! {

/// A reading of the system clock.
#[verifier::external_type_specification]
#[verifier::external_body]
pub struct ExSystemTime(std::time::SystemTime);

/// The error of a clock that reads an earlier time.
#[verifier::external_type_specification]
#[verifier::external_body]
pub struct ExSystemTimeError(std::time::SystemTimeError);

/// `std::time::SystemTime::now`: what the clock reads, of which nothing is known.
pub assume_specification[ std::time::SystemTime::now ]() -> std::time::SystemTime
;

/// The span from the Unix epoch to a reading, as `std::time::SystemTime::duration_since` gives
/// it. There is none where the reading is earlier than the epoch.
pub uninterp spec fn epoch_span(reading: std::time::SystemTime) -> Option<std::time::Duration>;

/// `std::time::SystemTime::duration_since` the Unix epoch: the span from there to the reading,
/// or an error where the reading is earlier. The span is a function of the reading; what the
/// clock read is not stated.
#[verifier::external_body]
fn since_epoch(reading: &std::time::SystemTime) -> (r: Result<
    std::time::Duration,
    std::time::SystemTimeError,
>)
    ensures
        match r {
            Ok(span) => epoch_span(*reading) == Some(span),
            Err(_) => epoch_span(*reading) is None,
        },
{
    reading.duration_since(std::time::UNIX_EPOCH)
}

/// The whole seconds of a span, as `std::time::Duration::as_secs` gives them.
pub uninterp spec fn whole_seconds(span: std::time::Duration) -> u64;

/// `std::time::Duration::as_secs`: the whole seconds of a span, a function of the span.
pub assume_specification[ std::time::Duration::as_secs ](span: &std::time::Duration) -> (r: u64)
    ensures
        r == whole_seconds(*span),
;

/// The whole seconds from the epoch to a reading, where it is not earlier.
pub open spec fn reading_seconds(reading: std::time::SystemTime) -> Option<u64> {
    match epoch_span(reading) {
        Some(span) => Some(whole_seconds(span)),
        None => None,
    }
}

/// The timestamp of a number of seconds since the epoch: that number as an `i64`, which wraps
/// where it is larger than any. `None` stands for a time before the epoch, and counts as the
/// epoch.
pub open spec fn epoch_timestamp(seconds: Option<u64>) -> int {
    match seconds {
        Some(n) => if n <= i64::MAX {
            n as int
        } else {
            n - 0x1_0000_0000_0000_0000
        },
        None => 0,
    }
}

/// The timestamp of a number of seconds since the epoch.
pub fn timestamp_from(seconds: Option<u64>) -> (r: i64)
    ensures
        r == epoch_timestamp(seconds),
{
    match seconds {
        Some(n) => {
            proof {
                assert(n <= 0x7fff_ffff_ffff_ffffu64 ==> (n as i64) as int == n as int)
                    by (bit_vector);
                assert(n > 0x7fff_ffff_ffff_ffffu64 ==> (n as i64) as int == n as int
                    - 0x1_0000_0000_0000_0000) by (bit_vector);
            }
            #[verifier::truncate]
            (n as i64)
        },
        None => 0,
    }
}

/// The current time: the timestamp of the whole seconds from the epoch to a reading of the
/// clock. What the clock reads is not stated.
pub fn now_secs() -> (r: i64)
    ensures
        exists|reading: std::time::SystemTime|
            r == epoch_timestamp(#[trigger] reading_seconds(reading)),
{
    let reading = std::time::SystemTime::now();
    let seconds: Option<u64> = match since_epoch(&reading) {
        Ok(span) => Some(span.as_secs()),
        Err(_) => None,
    };
    proof {
        assert(seconds == reading_seconds(reading));
    }
    timestamp_from(seconds)
}

/// A timestamp in decimal.
pub fn timestamp_string(timestamp: i64) -> (r: String)
    ensures
        r@ == crate::text::decimal(timestamp as int),
{
    i64_text(timestamp)
}

// ---------------------------------------------------------------------------------------------
// Laws
// ---------------------------------------------------------------------------------------------

/// The timestamp of a time after the epoch is the number of seconds since then, so that a later
/// time has a later timestamp; a time before the epoch counts as the epoch.
pub proof fn timestamps_count_seconds(earlier: u64, later: u64)
    requires
        earlier <= later <= i64::MAX,
    ensures
        epoch_timestamp(Some(later)) - epoch_timestamp(Some(earlier)) == later - earlier,
        epoch_timestamp(Some(0)) == 0,
        epoch_timestamp(None) == 0,
{
}

} // verus!
