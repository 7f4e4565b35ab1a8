//! The library-wide guarantees of the rendering layer, stated and
//! proved over the wire model.
//!
//! Each law here speaks of every activity value, not of chosen ones:
//! an empty value renders empty, an empty button list is the same wire
//! state as no button list, buttons keep their order, the activity
//! kind only ever emits its four fixed codes, the party size pair
//! keeps its order, rendering is a function of the value alone, and
//! updating one field changes only that field's segment of the wire
//! structure.

use vstd::prelude::*;

use crate::activity::Activity;
use crate::activity::ActivityType;
use crate::activity::Assets;
use crate::activity::Button;
use crate::activity::Party;
use crate::activity::Secrets;
use crate::activity::Timestamps;
use crate::activity::with_buttons;
use crate::render::activity_wire;
use crate::render::assets_entries;
use crate::render::button_wire;
use crate::render::buttons_entries;
use crate::render::buttons_wire;
use crate::render::details_entries;
use crate::render::party_entries;
use crate::render::party_size_leaf;
use crate::render::party_wire;
use crate::render::secrets_entries;
use crate::render::state_entries;
use crate::render::timestamps_entries;
use crate::render::type_entries;
use crate::wire::LeafValueModel;
use crate::wire::WireValueModel;

verus! {

/// A freshly constructed activity, with no field set, renders to a
/// structure with no fields at all.
pub proof fn lemma_unset_renders_empty(a: Activity)
    requires
        a.state is None,
        a.details is None,
        a.timestamps is None,
        a.party is None,
        a.assets is None,
        a.secrets is None,
        a.buttons is None,
        a.activity_type is None,
    ensures
        activity_wire(a) == Seq::<(Seq<char>, WireValueModel)>::empty(),
{
    assert(activity_wire(a) =~= Seq::<(Seq<char>, WireValueModel)>::empty());
}

/// An activity with exactly its state and details set renders to
/// exactly those two entries, with the given texts, and nothing else.
pub proof fn lemma_state_details_only(a: Activity, s: String, d: String)
    requires
        a.state == Some(s),
        a.details == Some(d),
        a.timestamps is None,
        a.party is None,
        a.assets is None,
        a.secrets is None,
        a.buttons is None,
        a.activity_type is None,
    ensures
        activity_wire(a) == seq![
            ("state"@, WireValueModel::Text(s@)),
            ("details"@, WireValueModel::Text(d@)),
        ],
{
    assert(activity_wire(a) =~= seq![
        ("state"@, WireValueModel::Text(s@)),
        ("details"@, WireValueModel::Text(d@)),
    ]);
}

/// Setting an empty button list is the same wire state as never
/// setting buttons: the activity, and so its rendered structure, is
/// unchanged.
pub proof fn lemma_empty_buttons_is_no_buttons(a: Activity, buttons: Vec<Button>)
    requires
        buttons@.len() == 0,
    ensures
        with_buttons(a, buttons) == a,
        activity_wire(with_buttons(a, buttons)) == activity_wire(a),
{
}

/// A set button list renders as one `"buttons"` entry holding an
/// ordered list with one record per button, each record the button's
/// label/URL pair, in the caller's order.
pub proof fn lemma_buttons_render_in_order(buttons: Vec<Button>)
    requires
        buttons@.len() > 0,
    ensures
        buttons_entries(Some(buttons)) == seq![
            ("buttons"@, WireValueModel::ObjectList(buttons_wire(buttons))),
        ],
        buttons_wire(buttons).len() == buttons@.len(),
        forall|i: int|
            0 <= i < buttons@.len() ==> #[trigger] buttons_wire(buttons)[i] == seq![
                ("label"@, LeafValueModel::Text(buttons@[i].label@)),
                ("url"@, LeafValueModel::Text(buttons@[i].url@)),
            ],
{
    assert forall|i: int| 0 <= i < buttons@.len() implies #[trigger] buttons_wire(buttons)[i]
        == seq![
        ("label"@, LeafValueModel::Text(buttons@[i].label@)),
        ("url"@, LeafValueModel::Text(buttons@[i].url@)),
    ] by {
        assert(buttons_wire(buttons)[i] == button_wire(buttons@[i]));
    }
}

/// The activity kind only ever renders as one of the four fixed codes
/// 0, 2, 3 and 5; the reserved codes 1 and 4 are never emitted, for
/// any input.
pub proof fn lemma_type_codes(t: ActivityType)
    ensures
        t.code() == 0 || t.code() == 2 || t.code() == 3 || t.code() == 5,
        t.code() != 1,
        t.code() != 4,
        (t is Playing <==> t.code() == 0),
        (t is Listening <==> t.code() == 2),
        (t is Watching <==> t.code() == 3),
        (t is Competing <==> t.code() == 5),
        type_entries(Some(t)) == seq![("type"@, WireValueModel::Int(t.code()))],
{
}

/// The party size renders as a two-element list, current size first,
/// maximum second, under the key `"size"`, as the last entry of the
/// party record.
pub proof fn lemma_party_size_order(p: Party, current_size: i32, max_size: i32)
    requires
        p.size == Some((current_size, max_size)),
    ensures
        party_size_leaf(p.size) == seq![
            ("size"@, LeafValueModel::IntList(seq![current_size as int, max_size as int])),
        ],
        party_wire(p).len() > 0,
        party_wire(p).last() == ("size"@, LeafValueModel::IntList(
            seq![current_size as int, max_size as int],
        )),
{
}

/// Rendering reads the activity value alone: any two wire structures
/// that satisfy the renderer's contract for the same activity have
/// the same model.
pub proof fn lemma_render_deterministic(
    a: Activity,
    first: Seq<(Seq<char>, WireValueModel)>,
    second: Seq<(Seq<char>, WireValueModel)>,
)
    requires
        first == activity_wire(a),
        second == activity_wire(a),
    ensures
        first == second,
{
}

/// Setting the state anew changes only the state segment of the wire
/// structure: every other field's segment still renders from the
/// original value.
pub proof fn lemma_set_state_is_local(a: Activity, state: String)
    ensures
        activity_wire((Activity { state: Some(state), ..a })) == state_entries(Some(state))
            + details_entries(a.details) + timestamps_entries(a.timestamps) + party_entries(
            a.party,
        ) + assets_entries(a.assets) + secrets_entries(a.secrets) + buttons_entries(a.buttons)
            + type_entries(a.activity_type),
{
}

/// Setting the details anew changes only the details segment.
pub proof fn lemma_set_details_is_local(a: Activity, details: String)
    ensures
        activity_wire((Activity { details: Some(details), ..a })) == state_entries(a.state)
            + details_entries(Some(details)) + timestamps_entries(a.timestamps) + party_entries(
            a.party,
        ) + assets_entries(a.assets) + secrets_entries(a.secrets) + buttons_entries(a.buttons)
            + type_entries(a.activity_type),
{
}

/// Setting the timestamps anew changes only the timestamps segment.
pub proof fn lemma_set_timestamps_is_local(a: Activity, timestamps: Timestamps)
    ensures
        activity_wire((Activity { timestamps: Some(timestamps), ..a })) == state_entries(a.state)
            + details_entries(a.details) + timestamps_entries(Some(timestamps)) + party_entries(
            a.party,
        ) + assets_entries(a.assets) + secrets_entries(a.secrets) + buttons_entries(a.buttons)
            + type_entries(a.activity_type),
{
}

/// Setting the party anew changes only the party segment.
pub proof fn lemma_set_party_is_local(a: Activity, party: Party)
    ensures
        activity_wire((Activity { party: Some(party), ..a })) == state_entries(a.state)
            + details_entries(a.details) + timestamps_entries(a.timestamps) + party_entries(
            Some(party),
        ) + assets_entries(a.assets) + secrets_entries(a.secrets) + buttons_entries(a.buttons)
            + type_entries(a.activity_type),
{
}

/// Setting the assets anew changes only the assets segment.
pub proof fn lemma_set_assets_is_local(a: Activity, assets: Assets)
    ensures
        activity_wire((Activity { assets: Some(assets), ..a })) == state_entries(a.state)
            + details_entries(a.details) + timestamps_entries(a.timestamps) + party_entries(
            a.party,
        ) + assets_entries(Some(assets)) + secrets_entries(a.secrets) + buttons_entries(a.buttons)
            + type_entries(a.activity_type),
{
}

/// Setting the secrets anew changes only the secrets segment.
pub proof fn lemma_set_secrets_is_local(a: Activity, secrets: Secrets)
    ensures
        activity_wire((Activity { secrets: Some(secrets), ..a })) == state_entries(a.state)
            + details_entries(a.details) + timestamps_entries(a.timestamps) + party_entries(
            a.party,
        ) + assets_entries(a.assets) + secrets_entries(Some(secrets)) + buttons_entries(a.buttons)
            + type_entries(a.activity_type),
{
}

/// Setting a non-empty button list anew changes only the buttons
/// segment.
pub proof fn lemma_set_buttons_is_local(a: Activity, buttons: Vec<Button>)
    requires
        buttons@.len() > 0,
    ensures
        activity_wire(with_buttons(a, buttons)) == state_entries(a.state) + details_entries(
            a.details,
        ) + timestamps_entries(a.timestamps) + party_entries(a.party) + assets_entries(a.assets)
            + secrets_entries(a.secrets) + buttons_entries(Some(buttons)) + type_entries(
            a.activity_type,
        ),
{
}

/// Setting the activity kind anew changes only the `"type"` segment.
pub proof fn lemma_set_type_is_local(a: Activity, activity_type: ActivityType)
    ensures
        activity_wire((Activity { activity_type: Some(activity_type), ..a })) == state_entries(
            a.state,
        ) + details_entries(a.details) + timestamps_entries(a.timestamps) + party_entries(a.party)
            + assets_entries(a.assets) + secrets_entries(a.secrets) + buttons_entries(a.buttons)
            + type_entries(Some(activity_type)),
{
}

} // verus!
