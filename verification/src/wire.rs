//! The wire structure an activity renders into, and its mathematical
//! model.
//!
//! The structure is a key/value record.  At the root a value is a piece
//! of text, an integer, a nested record, or an ordered list of records
//! (the buttons).  Inside a nested record a value is text, an integer,
//! or an ordered list of integers (the party size pair).  The model of
//! a record is the sequence of its (key, value) pairs, in the order in
//! which they are emitted: presence, absence and order of fields are
//! all part of the model.

use vstd::prelude::*;

verus! {

/// Model of a value inside a nested record.
pub enum LeafValueModel {
    /// A piece of text.
    Text(Seq<char>),
    /// An integer.
    Int(int),
    /// An ordered list of integers.
    IntList(Seq<int>),
}

/// Model of a value at the root of the wire structure.
pub enum WireValueModel {
    /// A piece of text.
    Text(Seq<char>),
    /// An integer.
    Int(int),
    /// A nested record: its (key, value) pairs in emission order.
    Object(Seq<(Seq<char>, LeafValueModel)>),
    /// An ordered list of nested records.
    ObjectList(Seq<Seq<(Seq<char>, LeafValueModel)>>),
}

/// A value inside a nested record of the wire structure.
#[derive(Clone, PartialEq, Debug)]
pub enum LeafValue {
    /// A piece of text.
    Text(String),
    /// An integer.
    Int(i64),
    /// An ordered list of integers.
    IntList(Vec<i64>),
}

impl View for LeafValue {
    type V = LeafValueModel;

    open spec fn view(&self) -> LeafValueModel {
        match self {
            LeafValue::Text(s) => LeafValueModel::Text(s@),
            LeafValue::Int(i) => LeafValueModel::Int(*i as int),
            LeafValue::IntList(v) => LeafValueModel::IntList(
                Seq::new(v@.len(), |i: int| v@[i] as int),
            ),
        }
    }
}

/// One (key, value) pair of a nested record.
#[derive(Clone, PartialEq, Debug)]
pub struct LeafEntry {
    /// The key under which the value is emitted.
    pub key: String,
    /// The emitted value.
    pub value: LeafValue,
}

impl View for LeafEntry {
    type V = (Seq<char>, LeafValueModel);

    open spec fn view(&self) -> (Seq<char>, LeafValueModel) {
        (self.key@, self.value@)
    }
}

/// Model of a sequence of nested-record entries.
pub open spec fn leaf_entries_view(s: Seq<LeafEntry>) -> Seq<(Seq<char>, LeafValueModel)> {
    Seq::new(s.len(), |i: int| s[i]@)
}

/// A value at the root of the wire structure.
#[derive(Clone, PartialEq, Debug)]
pub enum WireValue {
    /// A piece of text.
    Text(String),
    /// An integer.
    Int(i64),
    /// A nested record.
    Object(Vec<LeafEntry>),
    /// An ordered list of nested records.
    ObjectList(Vec<Vec<LeafEntry>>),
}

impl View for WireValue {
    type V = WireValueModel;

    open spec fn view(&self) -> WireValueModel {
        match self {
            WireValue::Text(s) => WireValueModel::Text(s@),
            WireValue::Int(i) => WireValueModel::Int(*i as int),
            WireValue::Object(es) => WireValueModel::Object(leaf_entries_view(es@)),
            WireValue::ObjectList(os) => WireValueModel::ObjectList(
                Seq::new(os@.len(), |i: int| leaf_entries_view(os@[i]@)),
            ),
        }
    }
}

/// One (key, value) pair at the root of the wire structure.
#[derive(Clone, PartialEq, Debug)]
pub struct WireEntry {
    /// The key under which the value is emitted.
    pub key: String,
    /// The emitted value.
    pub value: WireValue,
}

impl View for WireEntry {
    type V = (Seq<char>, WireValueModel);

    open spec fn view(&self) -> (Seq<char>, WireValueModel) {
        (self.key@, self.value@)
    }
}

/// Model of a sequence of root entries.
pub open spec fn wire_entries_view(s: Seq<WireEntry>) -> Seq<(Seq<char>, WireValueModel)> {
    Seq::new(s.len(), |i: int| s[i]@)
}

/// The rendered wire structure: the root record of an activity.
#[derive(Clone, PartialEq, Debug)]
pub struct WireObject {
    /// The (key, value) pairs of the root record, in emission order.
    pub entries: Vec<WireEntry>,
}

impl View for WireObject {
    type V = Seq<(Seq<char>, WireValueModel)>;

    open spec fn view(&self) -> Seq<(Seq<char>, WireValueModel)> {
        wire_entries_view(self.entries@)
    }
}

} // verus!
