//! How fast clicks must follow each other to count as a double or a triple
//! click.

use crate::error::LoadError;
use crate::raw::{field, RawValue, RawView};
use crate::report::{views, warn, Field, Warning, WarningView};
use std::time::Duration;
use vstd::prelude::*;

verus! {

/// The span of `ms` milliseconds: what `Duration::from_millis` returns for
/// `ms`.
pub uninterp spec fn millis(ms: u64) -> Duration;

/// `Duration::from_millis` makes the span of that many milliseconds.
pub assume_specification[ Duration::from_millis ](ms: u64) -> (span: Duration)
    ensures
        span == millis(ms),
;

/// The threshold that is used where none is given, in milliseconds.
pub const DEFAULT_THRESHOLD_MS: u64 = 300;

/// The threshold that is used where none is given.
pub fn default_threshold_ms() -> (span: Duration)
    ensures
        span == millis(DEFAULT_THRESHOLD_MS),
{
    Duration::from_millis(DEFAULT_THRESHOLD_MS)
}

/// The count of milliseconds that a raw value gives: the value itself where
/// it is a whole number from 0 to the largest count a span can take, and
/// nothing for any other value.
pub open spec fn millis_given(raw: RawView) -> Option<u64> {
    match raw {
        RawView::Integer(count) => if 0 <= count <= u64::MAX {
            Some(count as u64)
        } else {
            None
        },
        _ => None,
    }
}

/// The span that a raw value stands for: its count of milliseconds, or the
/// default where it gives none.
pub open spec fn duration_of(raw: RawView) -> Duration {
    match millis_given(raw) {
        Some(count) => millis(count),
        None => millis(DEFAULT_THRESHOLD_MS),
    }
}

/// What is reported of a raw value read as a span: nothing where it gives a
/// count of milliseconds, and otherwise one warning that holds the value.
pub open spec fn duration_warnings(raw: RawView) -> Seq<WarningView> {
    if millis_given(raw) is Some {
        Seq::empty()
    } else {
        seq![WarningView { field: Field::Threshold, value: raw }]
    }
}

/// Reads a span from a count of milliseconds. A value that gives no count is
/// noted in `log` and the default threshold is used.
pub fn deserialize_duration_ms<'a>(raw: &'a RawValue, log: &mut Vec<Warning<'a>>) -> (span:
    Duration)
    ensures
        span == duration_of(raw@),
        views(final(log)@) == views(old(log)@) + duration_warnings(raw@),
{
    match raw {
        RawValue::Integer(count) => {
            if 0 <= *count && *count <= u64::MAX as i128 {
                assert(views(log@) + duration_warnings(raw@) =~= views(log@));
                return Duration::from_millis(*count as u64);
            }
        },
        _ => {},
    }
    warn(log, Field::Threshold, raw);
    assert(views(old(log)@) + duration_warnings(raw@) =~= views(log@));
    default_threshold_ms()
}

/// The time within which a click must follow the one before it.
#[derive(Debug, PartialEq, Eq)]
pub struct ClickHandler {
    pub threshold: Duration,
}

impl Clone for ClickHandler {
    fn clone(&self) -> (copy: ClickHandler)
        ensures
            copy == *self,
    {
        ClickHandler { threshold: self.threshold }
    }
}

impl Default for ClickHandler {
    /// The handler with the default threshold.
    fn default() -> (handler: ClickHandler)
        ensures
            handler == ClickHandler::spec_default(),
    {
        ClickHandler { threshold: default_threshold_ms() }
    }
}

/// The handler that a raw value describes: a mapping whose `threshold` is
/// read as a span, with the default threshold where the key is missing. A
/// value that is no mapping describes no handler.
pub open spec fn click_of(raw: RawView) -> Option<ClickHandler> {
    match raw {
        RawView::Mapping(_) => Some(
            ClickHandler {
                threshold: match field(raw, "threshold"@) {
                    Some(value) => duration_of(value),
                    None => millis(DEFAULT_THRESHOLD_MS),
                },
            },
        ),
        _ => None,
    }
}

/// What is reported of a raw value read as a handler: what its `threshold`
/// gives rise to, where it has one.
pub open spec fn click_warnings(raw: RawView) -> Seq<WarningView> {
    match field(raw, "threshold"@) {
        Some(value) => duration_warnings(value),
        None => Seq::empty(),
    }
}

impl ClickHandler {
    /// The handler with the default threshold.
    pub open spec fn spec_default() -> ClickHandler {
        ClickHandler { threshold: millis(DEFAULT_THRESHOLD_MS) }
    }

    /// Reads a handler from a mapping. Its `threshold` falls back to the
    /// default, with a note in `log`, where it is malformed. Only a value
    /// that is no mapping is refused.
    pub fn from_raw<'a>(raw: &'a RawValue, log: &mut Vec<Warning<'a>>) -> (loaded: Result<
        ClickHandler,
        LoadError,
    >)
        ensures
            match click_of(raw@) {
                Some(handler) => loaded == Ok::<ClickHandler, LoadError>(handler),
                None => loaded == Err::<ClickHandler, LoadError>(LoadError::NotMapping),
            },
            views(final(log)@) == views(old(log)@) + click_warnings(raw@),
    {
        if !raw.is_mapping() {
            assert(views(log@) + click_warnings(raw@) =~= views(log@));
            return Err(LoadError::NotMapping);
        }
        let threshold = match raw.get("threshold") {
            Some(value) => deserialize_duration_ms(value, log),
            None => {
                assert(views(log@) + click_warnings(raw@) =~= views(log@));
                default_threshold_ms()
            },
        };
        Ok(ClickHandler { threshold })
    }
}

} // verus!
