//! Rendering of activity values into the wire structure.
//!
//! The rules, applied uniformly:
//! - an unset optional field is omitted entirely, never emitted as an
//!   explicit empty marker;
//! - the root's activity kind is emitted under the key `"type"` and as
//!   its numeric code; every other field keeps its own name;
//! - nested values render as nested records under the same omission
//!   rule;
//! - the party size renders as a two-element list, current size first;
//! - a button always renders both its label and its URL.
//!
//! For each type, a spec function gives the exact model of its rendered
//! record, field segment by field segment, and the executable renderer
//! is proved to produce exactly that model.  Rendering reads the value
//! alone, so it is deterministic: any two structures satisfying a
//! renderer's contract have equal models.

use vstd::prelude::*;

use crate::activity::Activity;
use crate::activity::ActivityType;
use crate::activity::Assets;
use crate::activity::Button;
use crate::activity::Party;
use crate::activity::Secrets;
use crate::activity::Timestamps;
use crate::wire::LeafEntry;
use crate::wire::LeafValue;
use crate::wire::LeafValueModel;
use crate::wire::WireEntry;
use crate::wire::WireObject;
use crate::wire::WireValue;
use crate::wire::WireValueModel;
use crate::wire::leaf_entries_view;
use crate::wire::wire_entries_view;

verus! {

/// The record segment of an optional text field of a nested record:
/// one entry when set, nothing when unset.
pub open spec fn opt_text_leaf(key: Seq<char>, v: Option<String>) -> Seq<
    (Seq<char>, LeafValueModel),
> {
    match v {
        Some(s) => seq![(key, LeafValueModel::Text(s@))],
        None => Seq::empty(),
    }
}

/// The record segment of an optional integer field of a nested record:
/// one entry when set, nothing when unset.
pub open spec fn opt_int_leaf(key: Seq<char>, v: Option<i64>) -> Seq<
    (Seq<char>, LeafValueModel),
> {
    match v {
        Some(i) => seq![(key, LeafValueModel::Int(i as int))],
        None => Seq::empty(),
    }
}

/// The rendered record of a `Timestamps`: start first, then end, each
/// omitted when unset.
pub open spec fn timestamps_wire(t: Timestamps) -> Seq<(Seq<char>, LeafValueModel)> {
    opt_int_leaf("start"@, t.start) + opt_int_leaf("end"@, t.end)
}

impl Timestamps {
    /// Renders this value into its wire record.
    pub fn render(&self) -> (r: Vec<LeafEntry>)
        ensures
            leaf_entries_view(r@) == timestamps_wire(*self),
    {
        let mut out: Vec<LeafEntry> = Vec::new();
        if let Some(s) = &self.start {
            out.push(LeafEntry { key: "start".to_owned(), value: LeafValue::Int(*s) });
        }
        assert(leaf_entries_view(out@) =~= opt_int_leaf("start"@, self.start));
        if let Some(e) = &self.end {
            out.push(LeafEntry { key: "end".to_owned(), value: LeafValue::Int(*e) });
        }
        assert(leaf_entries_view(out@) =~= timestamps_wire(*self));
        out
    }
}

/// The record segment of the optional party size: when set, one
/// `"size"` entry holding the ordered pair as a two-element list,
/// current size first, maximum second.
pub open spec fn party_size_leaf(v: Option<(i32, i32)>) -> Seq<(Seq<char>, LeafValueModel)> {
    match v {
        Some(p) => seq![
            ("size"@, LeafValueModel::IntList(seq![p.0 as int, p.1 as int])),
        ],
        None => Seq::empty(),
    }
}

/// The rendered record of a `Party`: id first, then size, each omitted
/// when unset.
pub open spec fn party_wire(p: Party) -> Seq<(Seq<char>, LeafValueModel)> {
    opt_text_leaf("id"@, p.id) + party_size_leaf(p.size)
}

impl Party {
    /// Renders this value into its wire record.
    pub fn render(&self) -> (r: Vec<LeafEntry>)
        ensures
            leaf_entries_view(r@) == party_wire(*self),
    {
        let mut out: Vec<LeafEntry> = Vec::new();
        if let Some(id) = &self.id {
            out.push(LeafEntry { key: "id".to_owned(), value: LeafValue::Text(id.clone()) });
        }
        assert(leaf_entries_view(out@) =~= opt_text_leaf("id"@, self.id));
        if let Some(p) = &self.size {
            let mut pair: Vec<i64> = Vec::new();
            pair.push(p.0 as i64);
            pair.push(p.1 as i64);
            let entry = LeafEntry { key: "size".to_owned(), value: LeafValue::IntList(pair) };
            assert(Seq::new(pair@.len(), |i: int| pair@[i] as int) =~= seq![
                p.0 as int,
                p.1 as int,
            ]);
            out.push(entry);
        }
        assert(leaf_entries_view(out@) =~= party_wire(*self));
        out
    }
}

/// The rendered record of an `Assets`: large image, large text, small
/// image, small text, in that order, each omitted when unset.
pub open spec fn assets_wire(a: Assets) -> Seq<(Seq<char>, LeafValueModel)> {
    opt_text_leaf("large_image"@, a.large_image) + opt_text_leaf("large_text"@, a.large_text)
        + opt_text_leaf("small_image"@, a.small_image) + opt_text_leaf(
        "small_text"@,
        a.small_text,
    )
}

impl Assets {
    /// Renders this value into its wire record.
    pub fn render(&self) -> (r: Vec<LeafEntry>)
        ensures
            leaf_entries_view(r@) == assets_wire(*self),
    {
        let mut out: Vec<LeafEntry> = Vec::new();
        if let Some(v) = &self.large_image {
            out.push(
                LeafEntry { key: "large_image".to_owned(), value: LeafValue::Text(v.clone()) },
            );
        }
        assert(leaf_entries_view(out@) =~= opt_text_leaf("large_image"@, self.large_image));
        if let Some(v) = &self.large_text {
            out.push(
                LeafEntry { key: "large_text".to_owned(), value: LeafValue::Text(v.clone()) },
            );
        }
        assert(leaf_entries_view(out@) =~= opt_text_leaf("large_image"@, self.large_image)
            + opt_text_leaf("large_text"@, self.large_text));
        if let Some(v) = &self.small_image {
            out.push(
                LeafEntry { key: "small_image".to_owned(), value: LeafValue::Text(v.clone()) },
            );
        }
        assert(leaf_entries_view(out@) =~= opt_text_leaf("large_image"@, self.large_image)
            + opt_text_leaf("large_text"@, self.large_text) + opt_text_leaf(
            "small_image"@,
            self.small_image,
        ));
        if let Some(v) = &self.small_text {
            out.push(
                LeafEntry { key: "small_text".to_owned(), value: LeafValue::Text(v.clone()) },
            );
        }
        assert(leaf_entries_view(out@) =~= assets_wire(*self));
        out
    }
}

/// The rendered record of a `Secrets`: join, spectate, match, in that
/// order, each omitted when unset.  The match secret is emitted under
/// the key `"match"`.
pub open spec fn secrets_wire(s: Secrets) -> Seq<(Seq<char>, LeafValueModel)> {
    opt_text_leaf("join"@, s.join) + opt_text_leaf("spectate"@, s.spectate) + opt_text_leaf(
        "match"@,
        s.match_secret,
    )
}

impl Secrets {
    /// Renders this value into its wire record.
    pub fn render(&self) -> (r: Vec<LeafEntry>)
        ensures
            leaf_entries_view(r@) == secrets_wire(*self),
    {
        let mut out: Vec<LeafEntry> = Vec::new();
        if let Some(v) = &self.join {
            out.push(LeafEntry { key: "join".to_owned(), value: LeafValue::Text(v.clone()) });
        }
        assert(leaf_entries_view(out@) =~= opt_text_leaf("join"@, self.join));
        if let Some(v) = &self.spectate {
            out.push(LeafEntry { key: "spectate".to_owned(), value: LeafValue::Text(v.clone()) });
        }
        assert(leaf_entries_view(out@) =~= opt_text_leaf("join"@, self.join) + opt_text_leaf(
            "spectate"@,
            self.spectate,
        ));
        if let Some(v) = &self.match_secret {
            out.push(LeafEntry { key: "match".to_owned(), value: LeafValue::Text(v.clone()) });
        }
        assert(leaf_entries_view(out@) =~= secrets_wire(*self));
        out
    }
}

/// The rendered record of a `Button`: always both entries, label first,
/// then URL.
pub open spec fn button_wire(b: Button) -> Seq<(Seq<char>, LeafValueModel)> {
    seq![("label"@, LeafValueModel::Text(b.label@)), ("url"@, LeafValueModel::Text(b.url@))]
}

impl Button {
    /// Renders this value into its wire record.
    pub fn render(&self) -> (r: Vec<LeafEntry>)
        ensures
            leaf_entries_view(r@) == button_wire(*self),
    {
        let mut out: Vec<LeafEntry> = Vec::new();
        out.push(LeafEntry { key: "label".to_owned(), value: LeafValue::Text(self.label.clone()) });
        out.push(LeafEntry { key: "url".to_owned(), value: LeafValue::Text(self.url.clone()) });
        assert(leaf_entries_view(out@) =~= button_wire(*self));
        out
    }
}

/// The root segment of the optional state text.
pub open spec fn state_entries(v: Option<String>) -> Seq<(Seq<char>, WireValueModel)> {
    match v {
        Some(s) => seq![("state"@, WireValueModel::Text(s@))],
        None => Seq::empty(),
    }
}

/// The root segment of the optional details text.
pub open spec fn details_entries(v: Option<String>) -> Seq<(Seq<char>, WireValueModel)> {
    match v {
        Some(s) => seq![("details"@, WireValueModel::Text(s@))],
        None => Seq::empty(),
    }
}

/// The root segment of the optional timestamps record.
pub open spec fn timestamps_entries(v: Option<Timestamps>) -> Seq<(Seq<char>, WireValueModel)> {
    match v {
        Some(t) => seq![("timestamps"@, WireValueModel::Object(timestamps_wire(t)))],
        None => Seq::empty(),
    }
}

/// The root segment of the optional party record.
pub open spec fn party_entries(v: Option<Party>) -> Seq<(Seq<char>, WireValueModel)> {
    match v {
        Some(p) => seq![("party"@, WireValueModel::Object(party_wire(p)))],
        None => Seq::empty(),
    }
}

/// The root segment of the optional assets record.
pub open spec fn assets_entries(v: Option<Assets>) -> Seq<(Seq<char>, WireValueModel)> {
    match v {
        Some(a) => seq![("assets"@, WireValueModel::Object(assets_wire(a)))],
        None => Seq::empty(),
    }
}

/// The root segment of the optional secrets record.
pub open spec fn secrets_entries(v: Option<Secrets>) -> Seq<(Seq<char>, WireValueModel)> {
    match v {
        Some(s) => seq![("secrets"@, WireValueModel::Object(secrets_wire(s)))],
        None => Seq::empty(),
    }
}

/// The rendered list of button records, one per button, in order.
pub open spec fn buttons_wire(bs: Vec<Button>) -> Seq<Seq<(Seq<char>, LeafValueModel)>> {
    Seq::new(bs@.len(), |i: int| button_wire(bs@[i]))
}

/// The root segment of the optional button list.
pub open spec fn buttons_entries(v: Option<Vec<Button>>) -> Seq<(Seq<char>, WireValueModel)> {
    match v {
        Some(bs) => seq![("buttons"@, WireValueModel::ObjectList(buttons_wire(bs)))],
        None => Seq::empty(),
    }
}

/// The root segment of the optional activity kind: emitted under the
/// key `"type"`, as the variant's numeric code.
pub open spec fn type_entries(v: Option<ActivityType>) -> Seq<(Seq<char>, WireValueModel)> {
    match v {
        Some(t) => seq![("type"@, WireValueModel::Int(t.code()))],
        None => Seq::empty(),
    }
}

/// The rendered root record of an `Activity`: its field segments in
/// declaration order, each empty when the field is unset.  Each
/// segment is a function of its own field alone.
pub open spec fn activity_wire(a: Activity) -> Seq<(Seq<char>, WireValueModel)> {
    state_entries(a.state) + details_entries(a.details) + timestamps_entries(a.timestamps)
        + party_entries(a.party) + assets_entries(a.assets) + secrets_entries(a.secrets)
        + buttons_entries(a.buttons) + type_entries(a.activity_type)
}

/// Appending one root entry appends its model: the step by which the
/// activity renderer grows its result.
proof fn lemma_wire_entries_push(
    prev: Seq<WireEntry>,
    w: Seq<(Seq<char>, WireValueModel)>,
    e: WireEntry,
    seg: Seq<(Seq<char>, WireValueModel)>,
)
    requires
        wire_entries_view(prev) == w,
        seg == seq![e@],
    ensures
        wire_entries_view(prev.push(e)) == w + seg,
{
    assert(wire_entries_view(prev.push(e)) =~= w + seg);
}

/// A segment of an unset field adds nothing to the model.
proof fn lemma_wire_entries_skip(
    w: Seq<(Seq<char>, WireValueModel)>,
    seg: Seq<(Seq<char>, WireValueModel)>,
)
    requires
        seg == Seq::<(Seq<char>, WireValueModel)>::empty(),
    ensures
        w + seg == w,
{
    assert(w + seg =~= w);
}

impl Activity {
    /// Renders this activity into its wire structure.
    pub fn render(&self) -> (r: WireObject)
        ensures
            r@ == activity_wire(*self),
    {
        let mut out: Vec<WireEntry> = Vec::new();
        let ghost mut w: Seq<(Seq<char>, WireValueModel)> = Seq::empty();
        assert(wire_entries_view(out@) =~= w);
        let ghost prev = out@;
        if let Some(s) = &self.state {
            let e = WireEntry { key: "state".to_owned(), value: WireValue::Text(s.clone()) };
            proof {
                assert(state_entries(self.state) =~= seq![e@]);
                lemma_wire_entries_push(prev, w, e, state_entries(self.state));
            }
            out.push(e);
        } else {
            proof {
                lemma_wire_entries_skip(w, state_entries(self.state));
            }
        }
        proof {
            w = w + state_entries(self.state);
        }
        let ghost prev = out@;
        if let Some(d) = &self.details {
            let e = WireEntry { key: "details".to_owned(), value: WireValue::Text(d.clone()) };
            proof {
                assert(details_entries(self.details) =~= seq![e@]);
                lemma_wire_entries_push(prev, w, e, details_entries(self.details));
            }
            out.push(e);
        } else {
            proof {
                lemma_wire_entries_skip(w, details_entries(self.details));
            }
        }
        proof {
            w = w + details_entries(self.details);
        }
        let ghost prev = out@;
        if let Some(t) = &self.timestamps {
            let e = WireEntry { key: "timestamps".to_owned(), value: WireValue::Object(t.render()) };
            proof {
                assert(timestamps_entries(self.timestamps) =~= seq![e@]);
                lemma_wire_entries_push(prev, w, e, timestamps_entries(self.timestamps));
            }
            out.push(e);
        } else {
            proof {
                lemma_wire_entries_skip(w, timestamps_entries(self.timestamps));
            }
        }
        proof {
            w = w + timestamps_entries(self.timestamps);
        }
        let ghost prev = out@;
        if let Some(p) = &self.party {
            let e = WireEntry { key: "party".to_owned(), value: WireValue::Object(p.render()) };
            proof {
                assert(party_entries(self.party) =~= seq![e@]);
                lemma_wire_entries_push(prev, w, e, party_entries(self.party));
            }
            out.push(e);
        } else {
            proof {
                lemma_wire_entries_skip(w, party_entries(self.party));
            }
        }
        proof {
            w = w + party_entries(self.party);
        }
        let ghost prev = out@;
        if let Some(a) = &self.assets {
            let e = WireEntry { key: "assets".to_owned(), value: WireValue::Object(a.render()) };
            proof {
                assert(assets_entries(self.assets) =~= seq![e@]);
                lemma_wire_entries_push(prev, w, e, assets_entries(self.assets));
            }
            out.push(e);
        } else {
            proof {
                lemma_wire_entries_skip(w, assets_entries(self.assets));
            }
        }
        proof {
            w = w + assets_entries(self.assets);
        }
        let ghost prev = out@;
        if let Some(s) = &self.secrets {
            let e = WireEntry { key: "secrets".to_owned(), value: WireValue::Object(s.render()) };
            proof {
                assert(secrets_entries(self.secrets) =~= seq![e@]);
                lemma_wire_entries_push(prev, w, e, secrets_entries(self.secrets));
            }
            out.push(e);
        } else {
            proof {
                lemma_wire_entries_skip(w, secrets_entries(self.secrets));
            }
        }
        proof {
            w = w + secrets_entries(self.secrets);
        }
        let ghost prev = out@;
        if let Some(bs) = &self.buttons {
            let mut rendered: Vec<Vec<LeafEntry>> = Vec::new();
            let mut i: usize = 0;
            while i < bs.len()
                invariant
                    i <= bs.len(),
                    rendered@.len() == i as int,
                    forall|j: int|
                        0 <= j < i as int ==> leaf_entries_view(#[trigger] rendered@[j]@)
                            == button_wire(bs@[j]),
                decreases bs.len() - i,
            {
                rendered.push(bs[i].render());
                i = i + 1;
            }
            let e = WireEntry { key: "buttons".to_owned(), value: WireValue::ObjectList(rendered) };
            proof {
                assert(Seq::new(rendered@.len(), |j: int| leaf_entries_view(rendered@[j]@))
                    =~= buttons_wire(*bs));
                assert(buttons_entries(self.buttons) =~= seq![e@]);
                lemma_wire_entries_push(prev, w, e, buttons_entries(self.buttons));
            }
            out.push(e);
        } else {
            proof {
                lemma_wire_entries_skip(w, buttons_entries(self.buttons));
            }
        }
        proof {
            w = w + buttons_entries(self.buttons);
        }
        let ghost prev = out@;
        if let Some(t) = &self.activity_type {
            let code = t.wire_code();
            let e = WireEntry { key: "type".to_owned(), value: WireValue::Int(code as i64) };
            proof {
                assert(type_entries(self.activity_type) =~= seq![e@]);
                lemma_wire_entries_push(prev, w, e, type_entries(self.activity_type));
            }
            out.push(e);
        } else {
            proof {
                lemma_wire_entries_skip(w, type_entries(self.activity_type));
            }
        }
        proof {
            w = w + type_entries(self.activity_type);
            assert(w == activity_wire(*self));
        }
        WireObject { entries: out }
    }
}

} // verus!
