//! What is reported of a value that was replaced by its default.

use crate::raw::{RawValue, RawView};
use vstd::prelude::*;

verus! {

/// A field of the mouse settings that falls back to a default, and with it
/// the default that is used in its place.
#[derive(Clone, Copy, Debug, PartialEq, Eq, Hash, Structural)]
pub enum Field {
    /// `double_click` is no mapping: the handler with the default threshold
    /// is used.
    DoubleClick,
    /// `triple_click` is no mapping: the handler with the default threshold
    /// is used.
    TripleClick,
    /// `hide_when_typing` is no truth value: the pointer is not hidden.
    HideWhenTyping,
    /// `url` is no mapping: the default settings for links are used.
    Url,
    /// `threshold` is no count of milliseconds: the default threshold of 300
    /// milliseconds is used.
    Threshold,
    /// `launcher` describes no command: the platform's program is used.
    Launcher,
    /// `modifiers` names no keys: no key has to be held.
    Modifiers,
}

/// A malformed value that was replaced by the default of its field.
#[derive(Clone, Copy, Debug, PartialEq, Eq)]
pub struct Warning<'a> {
    /// The field whose default is used.
    pub field: Field,
    /// The value that was found in the configuration.
    pub value: &'a RawValue,
}

/// The mathematical value of a [`Warning`].
pub struct WarningView {
    pub field: Field,
    pub value: RawView,
}

impl<'a> View for Warning<'a> {
    type V = WarningView;

    open spec fn view(&self) -> WarningView {
        WarningView { field: self.field, value: self.value@ }
    }
}

/// The mathematical value of a list of warnings.
pub open spec fn views(log: Seq<Warning>) -> Seq<WarningView> {
    log.map_values(|w: Warning| w@)
}

/// Appends to `log` that `value` was not usable for `field`.
pub fn warn<'a>(log: &mut Vec<Warning<'a>>, field: Field, value: &'a RawValue)
    ensures
        views(final(log)@) == views(old(log)@).push(WarningView { field, value: value@ }),
{
    log.push(Warning { field, value });
    assert(views(log@) =~= views(old(log)@).push(WarningView { field, value: value@ }));
}

} // verus!
