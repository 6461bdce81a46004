//! The raw configuration tree: what a configuration file holds once it has
//! been read, before any of it is validated.

use crate::text::text_eq;
use vstd::prelude::*;

verus! {

/// One `key: value` line of a mapping. A key may be any value; the
/// settings are found under keys that are texts.
#[derive(Debug, PartialEq, Eq)]
pub struct Entry {
    pub key: RawValue,
    pub value: RawValue,
}

/// A value as it stands in the configuration, of any shape.
#[derive(Debug, PartialEq, Eq)]
pub enum RawValue {
    /// The empty value.
    Null,
    Bool(bool),
    /// A whole number.
    Integer(i128),
    /// A number that is not whole, kept as it was written.
    Real(String),
    Text(String),
    Sequence(Vec<RawValue>),
    /// Entries in the order in which they were written.
    Mapping(Vec<Entry>),
}

/// The mathematical value of an [`Entry`].
pub struct EntryView {
    pub key: RawView,
    pub value: RawView,
}

/// The mathematical value of a [`RawValue`].
pub enum RawView {
    Null,
    Bool(bool),
    Integer(int),
    Real(Seq<char>),
    Text(Seq<char>),
    Sequence(Seq<RawView>),
    Mapping(Seq<EntryView>),
}

impl View for RawValue {
    type V = RawView;

    open spec fn view(&self) -> RawView
        decreases self,
    {
        match self {
            RawValue::Null => RawView::Null,
            RawValue::Bool(b) => RawView::Bool(*b),
            RawValue::Integer(n) => RawView::Integer(*n as int),
            RawValue::Real(digits) => RawView::Real(digits@),
            RawValue::Text(text) => RawView::Text(text@),
            RawValue::Sequence(items) => RawView::Sequence(
                Seq::new(
                    items@.len(),
                    |i: int|
                        if 0 <= i < items@.len() {
                            items@[i].view()
                        } else {
                            RawView::Null
                        },
                ),
            ),
            RawValue::Mapping(entries) => RawView::Mapping(
                Seq::new(
                    entries@.len(),
                    |i: int|
                        if 0 <= i < entries@.len() {
                            entries@[i].view()
                        } else {
                            EntryView { key: RawView::Null, value: RawView::Null }
                        },
                ),
            ),
        }
    }
}

impl View for Entry {
    type V = EntryView;

    open spec fn view(&self) -> EntryView
        decreases self,
    {
        EntryView { key: self.key.view(), value: self.value.view() }
    }
}

/// The value of the first entry whose key is the text `key`, if there is
/// one.
pub open spec fn lookup(entries: Seq<EntryView>, key: Seq<char>) -> Option<RawView>
    decreases entries.len(),
{
    if entries.len() == 0 {
        None
    } else if entries[0].key == RawView::Text(key) {
        Some(entries[0].value)
    } else {
        lookup(entries.drop_first(), key)
    }
}

/// The value that a mapping holds under `key`; `None` for a missing key and
/// for a value that is no mapping.
pub open spec fn field(raw: RawView, key: Seq<char>) -> Option<RawView> {
    match raw {
        RawView::Mapping(entries) => lookup(entries, key),
        _ => None,
    }
}

/// A key that stands before position `i` is found before position `i`.
proof fn lemma_lookup_skips(entries: Seq<EntryView>, key: Seq<char>, i: int)
    requires
        0 <= i <= entries.len(),
        forall|j: int| 0 <= j < i ==> entries[j].key != RawView::Text(key),
    ensures
        lookup(entries, key) == lookup(entries.skip(i), key),
    decreases i,
{
    if i == 0 {
        assert(entries.skip(0) =~= entries);
    } else {
        assert(entries.drop_first().skip(i - 1) =~= entries.skip(i));
        lemma_lookup_skips(entries.drop_first(), key, i - 1);
    }
}

/// The entry at position `i` is the one found for its key where no entry
/// before it has that key.
pub proof fn lemma_lookup_found(entries: Seq<EntryView>, key: Seq<char>, i: int)
    requires
        0 <= i < entries.len(),
        entries[i].key == RawView::Text(key),
        forall|j: int| 0 <= j < i ==> entries[j].key != RawView::Text(key),
    ensures
        lookup(entries, key) == Some(entries[i].value),
{
    lemma_lookup_skips(entries, key, i);
}

impl Entry {
    /// The entry that holds `value` under the text `key`.
    pub fn new(key: &str, value: RawValue) -> (entry: Entry)
        ensures
            entry@ == (EntryView { key: RawView::Text(key@), value: value@ }),
    {
        Entry { key: RawValue::Text(key.to_owned()), value }
    }
}

impl RawValue {
    /// The items of a sequence, seen as mathematical values.
    pub proof fn lemma_items(self)
        requires
            self is Sequence,
        ensures
            self@ is Sequence,
            self@->Sequence_0.len() == self->Sequence_0@.len(),
            forall|i: int|
                0 <= i < self->Sequence_0@.len() ==> self@->Sequence_0[i]
                    == #[trigger] self->Sequence_0@[i]@,
    {
    }

    /// The entries of a mapping, seen as mathematical values.
    pub proof fn lemma_entries(self)
        requires
            self is Mapping,
        ensures
            self@ is Mapping,
            self@->Mapping_0.len() == self->Mapping_0@.len(),
            forall|i: int|
                0 <= i < self->Mapping_0@.len() ==> self@->Mapping_0[i]
                    == #[trigger] self->Mapping_0@[i]@,
    {
    }

    /// Whether the value is a mapping.
    pub fn is_mapping(&self) -> (yes: bool)
        ensures
            yes == (self@ is Mapping),
    {
        match self {
            RawValue::Mapping(_) => true,
            _ => false,
        }
    }

    /// The value under `key`, where this value is a mapping that has the key.
    /// Of two entries with one key the first counts.
    pub fn get(&self, key: &str) -> (found: Option<&RawValue>)
        ensures
            match found {
                Some(value) => field(self@, key@) == Some(value@),
                None => field(self@, key@) is None,
            },
    {
        match self {
            RawValue::Mapping(entries) => {
                let ghost views = self@->Mapping_0;
                let mut i: usize = 0;
                while i < entries.len()
                    invariant
                        i <= entries.len(),
                        self@ == RawView::Mapping(views),
                        views.len() == entries@.len(),
                        forall|j: int| 0 <= j < entries@.len() ==> views[j] == entries@[j]@,
                        forall|j: int| 0 <= j < i ==> views[j].key != RawView::Text(key@),
                    decreases entries.len() - i,
                {
                    if let RawValue::Text(name) = &entries[i].key {
                        if text_eq(name.as_str(), key) {
                            proof {
                                lemma_lookup_skips(views, key@, i as int);
                            }
                            return Some(&entries[i].value);
                        }
                    }
                    i += 1;
                }
                proof {
                    lemma_lookup_skips(views, key@, views.len() as int);
                }
                None
            },
            _ => None,
        }
    }
}

} // verus!
