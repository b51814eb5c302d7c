//! Durations and clocks.
use vstd::prelude::*;
use std::time::Duration;

verus! {

/// The length of a duration in whole milliseconds, as
/// `Duration::as_millis` gives it.
pub uninterp spec fn duration_millis(d: Duration) -> nat;

/// `Duration` is `Copy`: its `clone` gives back an equal value.
pub assume_specification[ <Duration as Clone>::clone ](d: &Duration) -> (r: Duration)
    ensures
        r == *d,
;

/// The duration that `Duration::from_secs` gives for `secs` seconds.
pub uninterp spec fn duration_of_secs(secs: u64) -> Duration;

/// `Duration::from_secs`: the duration of `secs` seconds, named
/// `duration_of_secs`, which is `secs * 1000` milliseconds.
#[verifier::external_body]
pub(crate) fn duration_from_secs(secs: u64) -> (d: Duration)
    ensures
        d == duration_of_secs(secs),
        duration_millis(d) == secs * 1000,
{
    Duration::from_secs(secs)
}

/// `Duration::as_secs`: the whole seconds of `d`, that is its whole
/// milliseconds divided by 1000.
#[verifier::external_body]
pub(crate) fn duration_as_secs(d: &Duration) -> (s: u64)
    ensures
        s == duration_millis(*d) / 1000,
{
    d.as_secs()
}

/// `Duration::as_millis`: the whole milliseconds of `d`.
#[verifier::external_body]
pub(crate) fn duration_as_millis(d: &Duration) -> (m: u128)
    ensures
        m == duration_millis(*d),
{
    d.as_millis()
}

/// The text that `Duration`'s `Debug` formatting gives, such as `30s` or
/// `1.5ms`.
pub uninterp spec fn duration_debug_text(d: Duration) -> Seq<char>;

/// `Duration`'s `Debug` formatting of `d`. The contract claims only that
/// the text is `duration_debug_text` of the duration.
#[verifier::external_body]
pub(crate) fn duration_debug(d: &Duration) -> (r: String)
    ensures
        r@ == duration_debug_text(*d),
{
    format!("{:?}", d)
}

} // verus!
